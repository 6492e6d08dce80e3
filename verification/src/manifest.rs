//! Device manifests: which devices an identity has, and whether a manifest can be believed.
use crate::error::{is_local_bus, local_bus, SdkError};
use crate::prekey::SdkMvp1DeviceManifestDevice;
use crate::text::str_eq;
use vstd::prelude::*;

verus! {

/// What a check by the cryptography came to.
#[derive(Clone, Debug, PartialEq, Eq)]
pub enum CheckOutcome {
    Passed,
    /// The check failed, in the words of the cryptography.
    Failed(String),
}

/// The commitment to the root key of a manifest.
#[derive(Clone, Debug, PartialEq, Eq)]
pub enum RootCommitment {
    Known(String),
    /// The key cannot be decoded, in the words of the decoder.
    Undecodable(String),
}

/// A device of a manifest with what checking it came to: the root's proof for the device, the
/// device's key, and the prekeys that the key signed.
#[derive(Clone, Debug, PartialEq, Eq)]
pub struct CheckedDevice {
    pub device: SdkMvp1DeviceManifestDevice,
    pub branch_proof: CheckOutcome,
    pub branch_key: CheckOutcome,
    pub prekey: CheckOutcome,
}

/// A manifest with what checking its parts came to.
#[derive(Clone, Debug, PartialEq, Eq)]
pub struct CheckedManifest {
    pub principal_id: String,
    pub principal_commitment: String,
    pub root_commitment: RootCommitment,
    pub root_key: CheckOutcome,
    pub devices: Vec<CheckedDevice>,
}

/// Why a manifest is not believed.
pub enum ManifestFault {
    LocalBus(Seq<char>),
    Crypto(Seq<char>),
}

/// Whether `r` reports the fault.
pub open spec fn reports<T>(r: Result<T, SdkError>, fault: ManifestFault) -> bool {
    match fault {
        ManifestFault::LocalBus(words) => is_local_bus(r, words),
        ManifestFault::Crypto(words) => r matches Err(SdkError::Crypto(m)) && m@ == words,
    }
}

/// Whether a device's record, proof and prekeys name the same principal, device and epoch.
pub open spec fn record_agrees(
    device: SdkMvp1DeviceManifestDevice,
    principal_id: Seq<char>,
    expected: Seq<char>,
) -> bool {
    &&& device.principal_id@ == principal_id
    &&& device.principal_commitment@ == expected
    &&& device.branch_proof.principal_id@ == principal_id
    &&& device.branch_proof.device_id@ == device.device_id@
    &&& device.branch_proof.device_epoch == device.device_epoch
    &&& device.prekey_bundle.device_id@ == device.device_id@
    &&& device.prekey_bundle.device_epoch == device.device_epoch
}

/// What is wrong with a device of a manifest, if anything is.
pub open spec fn device_fault(
    checked: CheckedDevice,
    principal_id: Seq<char>,
    expected: Seq<char>,
) -> Option<ManifestFault> {
    if !record_agrees(checked.device, principal_id, expected) {
        Some(
            ManifestFault::LocalBus(
                "device manifest record mismatch for "@ + checked.device.device_id@,
            ),
        )
    } else {
        match (checked.branch_proof, checked.branch_key, checked.prekey) {
            (CheckOutcome::Failed(words), _, _) => Some(
                ManifestFault::LocalBus(
                    "branch proof invalid for "@ + checked.device.device_id@ + ": "@ + words@,
                ),
            ),
            (_, CheckOutcome::Failed(words), _) => Some(ManifestFault::Crypto(words@)),
            (_, _, CheckOutcome::Failed(words)) => Some(
                ManifestFault::LocalBus(
                    "prekey invalid for "@ + checked.device.device_id@ + ": "@ + words@,
                ),
            ),
            _ => None,
        }
    }
}

/// What is wrong with the first device that has a fault, if any has.
pub open spec fn devices_fault(
    devices: Seq<CheckedDevice>,
    principal_id: Seq<char>,
    expected: Seq<char>,
) -> Option<ManifestFault>
    decreases devices.len(),
{
    if devices.len() == 0 {
        None
    } else {
        match device_fault(devices[0], principal_id, expected) {
            Some(fault) => Some(fault),
            None => devices_fault(devices.skip(1), principal_id, expected),
        }
    }
}

/// What is wrong with a manifest for the expected identity, if anything is.
pub open spec fn manifest_fault(manifest: CheckedManifest, expected: Seq<char>) -> Option<
    ManifestFault,
> {
    if manifest.principal_commitment@ != expected {
        Some(
            ManifestFault::LocalBus(
                "device manifest principal commitment mismatch for "@ + expected,
            ),
        )
    } else {
        match manifest.root_commitment {
            RootCommitment::Undecodable(words) => Some(
                ManifestFault::LocalBus("invalid root public key: "@ + words@),
            ),
            RootCommitment::Known(commitment) => if commitment@ != expected {
                Some(
                    ManifestFault::LocalBus(
                        "device manifest root commitment mismatch for "@ + expected,
                    ),
                )
            } else if manifest.devices@.len() == 0 {
                Some(ManifestFault::LocalBus("device manifest has no devices for "@ + expected))
            } else {
                match manifest.root_key {
                    CheckOutcome::Failed(words) => Some(ManifestFault::Crypto(words@)),
                    CheckOutcome::Passed => devices_fault(
                        manifest.devices@,
                        manifest.principal_id@,
                        expected,
                    ),
                }
            },
        }
    }
}

fn check_device(checked: &CheckedDevice, principal_id: &str, expected: &str) -> (r: Result<
    (),
    SdkError,
>)
    ensures
        match device_fault(*checked, principal_id@, expected@) {
            Some(fault) => reports(r, fault),
            None => r is Ok,
        },
{
    let device = &checked.device;
    if !str_eq(device.principal_id.as_str(), principal_id) || !str_eq(
        device.principal_commitment.as_str(),
        expected,
    ) || !str_eq(device.branch_proof.principal_id.as_str(), principal_id)
        || device.branch_proof.device_id != device.device_id || device.branch_proof.device_epoch
        != device.device_epoch || device.prekey_bundle.device_id != device.device_id
        || device.prekey_bundle.device_epoch != device.device_epoch {
        return Err(
            SdkError::LocalBus(
                "device manifest record mismatch for ".to_owned().concat(device.device_id.as_str()),
            ),
        );
    }
    match &checked.branch_proof {
        CheckOutcome::Passed => {},
        CheckOutcome::Failed(words) => {
            return Err(
                SdkError::LocalBus(
                    "branch proof invalid for ".to_owned().concat(device.device_id.as_str()).concat(
                        ": ",
                    ).concat(words.as_str()),
                ),
            );
        },
    }
    match &checked.branch_key {
        CheckOutcome::Passed => {},
        CheckOutcome::Failed(words) => {
            return Err(SdkError::Crypto(words.clone()));
        },
    }
    match &checked.prekey {
        CheckOutcome::Passed => Ok(()),
        CheckOutcome::Failed(words) => Err(
            SdkError::LocalBus(
                "prekey invalid for ".to_owned().concat(device.device_id.as_str()).concat(
                    ": ",
                ).concat(words.as_str()),
            ),
        ),
    }
}

/// Checks a manifest for the expected identity.
pub fn verify_device_manifest(
    manifest: &CheckedManifest,
    expected_identity_commitment: &str,
) -> (r: Result<(), SdkError>)
    ensures
        match manifest_fault(*manifest, expected_identity_commitment@) {
            Some(fault) => reports(r, fault),
            None => r is Ok,
        },
{
    if !str_eq(manifest.principal_commitment.as_str(), expected_identity_commitment) {
        return Err(
            SdkError::LocalBus(
                "device manifest principal commitment mismatch for ".to_owned().concat(
                    expected_identity_commitment,
                ),
            ),
        );
    }
    match &manifest.root_commitment {
        RootCommitment::Undecodable(words) => {
            return Err(
                SdkError::LocalBus("invalid root public key: ".to_owned().concat(words.as_str())),
            );
        },
        RootCommitment::Known(commitment) => {
            if !str_eq(commitment.as_str(), expected_identity_commitment) {
                return Err(
                    SdkError::LocalBus(
                        "device manifest root commitment mismatch for ".to_owned().concat(
                            expected_identity_commitment,
                        ),
                    ),
                );
            }
        },
    }
    if manifest.devices.len() == 0 {
        return Err(
            SdkError::LocalBus(
                "device manifest has no devices for ".to_owned().concat(
                    expected_identity_commitment,
                ),
            ),
        );
    }
    match &manifest.root_key {
        CheckOutcome::Passed => {},
        CheckOutcome::Failed(words) => {
            return Err(SdkError::Crypto(words.clone()));
        },
    }
    let mut i: usize = 0;
    assert(manifest.devices@.skip(0) =~= manifest.devices@);
    while i < manifest.devices.len()
        invariant
            i <= manifest.devices.len(),
            devices_fault(
                manifest.devices@,
                manifest.principal_id@,
                expected_identity_commitment@,
            ) == devices_fault(
                manifest.devices@.skip(i as int),
                manifest.principal_id@,
                expected_identity_commitment@,
            ),
            manifest_fault(*manifest, expected_identity_commitment@) == devices_fault(
                manifest.devices@,
                manifest.principal_id@,
                expected_identity_commitment@,
            ),
        decreases manifest.devices.len() - i,
    {
        assert(manifest.devices@.skip(i as int)[0] == manifest.devices@[i as int]);
        assert(manifest.devices@.skip(i as int).skip(1) =~= manifest.devices@.skip(i + 1));
        match check_device(
            &manifest.devices[i],
            manifest.principal_id.as_str(),
            expected_identity_commitment,
        ) {
            Ok(()) => {},
            Err(error) => {
                return Err(error);
            },
        }
        i = i + 1;
    }
    Ok(())
}

/// In a manifest that is believed, every device belongs to the expected identity, and the root, the
/// device key and the prekeys of each have been checked.
pub proof fn law_believed_manifest_vouches_for_each_device(
    manifest: CheckedManifest,
    expected: Seq<char>,
    i: int,
)
    requires
        manifest_fault(manifest, expected) is None,
        0 <= i < manifest.devices@.len(),
    ensures
        manifest.root_commitment matches RootCommitment::Known(c) && c@ == expected,
        record_agrees(manifest.devices@[i].device, manifest.principal_id@, expected),
        manifest.devices@[i].branch_proof is Passed,
        manifest.devices@[i].branch_key is Passed,
        manifest.devices@[i].prekey is Passed,
{
    lemma_no_fault(manifest.devices@, manifest.principal_id@, expected, i);
}

proof fn lemma_no_fault(
    devices: Seq<CheckedDevice>,
    principal_id: Seq<char>,
    expected: Seq<char>,
    i: int,
)
    requires
        devices_fault(devices, principal_id, expected) is None,
        0 <= i < devices.len(),
    ensures
        device_fault(devices[i], principal_id, expected) is None,
    decreases devices.len(),
{
    if i > 0 {
        lemma_no_fault(devices.skip(1), principal_id, expected, i - 1);
        assert(devices.skip(1)[i - 1] == devices[i]);
    }
}

// ---- who is in a manifest ----

/// The first device of a manifest with an identifier.
pub open spec fn device_at(devices: Seq<CheckedDevice>, device_id: Seq<char>) -> Option<int>
    decreases devices.len(),
{
    if devices.len() == 0 {
        None
    } else {
        match device_at(devices.drop_last(), device_id) {
            Some(i) => Some(i),
            None => if devices.last().device.device_id@ == device_id {
                Some(devices.len() - 1)
            } else {
                None
            },
        }
    }
}

proof fn lemma_device_at_grows(devices: Seq<CheckedDevice>, device_id: Seq<char>, k: int)
    requires
        0 <= k <= devices.len(),
        device_at(devices.take(k), device_id) is Some,
    ensures
        device_at(devices, device_id) == device_at(devices.take(k), device_id),
    decreases devices.len() - k,
{
    if k == devices.len() {
        assert(devices.take(k) =~= devices);
    } else {
        assert(devices.take(k + 1).drop_last() =~= devices.take(k));
        lemma_device_at_grows(devices, device_id, k + 1);
    }
}

/// The first device of a manifest with an identifier.
pub fn find_device(devices: &Vec<CheckedDevice>, device_id: &str) -> (r: Option<usize>)
    ensures
        match device_at(devices@, device_id@) {
            Some(i) => r is Some && r->0 == i && i < devices@.len(),
            None => r is None,
        },
{
    let mut i: usize = 0;
    while i < devices.len()
        invariant
            i <= devices.len(),
            device_at(devices@.take(i as int), device_id@) is None,
        decreases devices.len() - i,
    {
        assert(devices@.take(i + 1).drop_last() =~= devices@.take(i as int));
        assert(devices@.take(i + 1).last() == devices@[i as int]);
        if str_eq(devices[i].device.device_id.as_str(), device_id) {
            proof {
                lemma_device_at_grows(devices@, device_id@, i + 1);
            }
            return Some(i);
        }
        i = i + 1;
    }
    assert(devices@.take(i as int) =~= devices@);
    None
}

/// The place of a recipient's device in a manifest that was believed.
pub fn active_device(
    devices: &Vec<CheckedDevice>,
    device_id: &str,
    principal_commitment: &str,
) -> (r: Result<usize, SdkError>)
    ensures
        match device_at(devices@, device_id@) {
            Some(i) => r is Ok && r->Ok_0 == i && i < devices@.len(),
            None => is_local_bus(
                r,
                "recipient device "@ + device_id@ + " is not in verified manifest for "@
                    + principal_commitment@,
            ),
        },
{
    match find_device(devices, device_id) {
        Some(i) => Ok(i),
        None => Err(
            SdkError::LocalBus(
                "recipient device ".to_owned().concat(device_id).concat(
                    " is not in verified manifest for ",
                ).concat(principal_commitment),
            ),
        ),
    }
}

// ---- whose manifest is asked for ----

/// Where the commitment of a recipient is taken from.
#[derive(Clone, Debug, PartialEq, Eq)]
pub enum CommitmentSource {
    /// The caller named it.
    Explicit(String),
    /// The directory of devices holds it.
    Directory(String),
    /// The gateway has to be asked.
    Prekey,
}

/// A commitment that is not empty.
pub open spec fn nonempty(commitment: Option<&str>) -> Option<Seq<char>> {
    match commitment {
        Some(text) => if text@.len() == 0 {
            None
        } else {
            Some(text@)
        },
        None => None,
    }
}

/// Where the commitment of a recipient is taken from: the caller, else the directory of devices,
/// else the gateway. An empty one counts as none.
pub fn commitment_source(explicit: Option<&str>, directory: Option<&str>) -> (r: CommitmentSource)
    ensures
        match nonempty(explicit) {
            Some(text) => r matches CommitmentSource::Explicit(c) && c@ == text,
            None => match directory {
                Some(text) => r matches CommitmentSource::Directory(c) && c@ == text@,
                None => r is Prekey,
            },
        },
{
    match explicit {
        Some(text) => {
            if !text.is_empty() {
                return CommitmentSource::Explicit(text.to_owned());
            }
        },
        None => {},
    }
    match directory {
        Some(text) => CommitmentSource::Directory(text.to_owned()),
        None => CommitmentSource::Prekey,
    }
}

/// The name under which the directory remembers where a commitment came from.
pub fn source_name(source: &CommitmentSource) -> (r: &'static str)
    ensures
        r@ == (match *source {
            CommitmentSource::Explicit(_) => "explicit"@,
            CommitmentSource::Directory(_) => "device_directory"@,
            CommitmentSource::Prekey => "prekey_resolve"@,
        }),
{
    match source {
        CommitmentSource::Explicit(_) => "explicit",
        CommitmentSource::Directory(_) => "device_directory",
        CommitmentSource::Prekey => "prekey_resolve",
    }
}

/// The commitment that the gateway gave for a device; an empty one resolves nothing.
pub fn prekey_commitment(principal_commitment: String, device_id: &str) -> (r: Result<
    String,
    SdkError,
>)
    ensures
        if principal_commitment@.len() == 0 {
            is_local_bus(
                r,
                "cannot resolve principal commitment for target device "@ + device_id@
                    + " from local trusted device directory or prekey registry"@,
            )
        } else {
            r == Ok::<String, SdkError>(principal_commitment)
        },
{
    if principal_commitment.as_str().is_empty() {
        return Err(
            SdkError::LocalBus(
                "cannot resolve principal commitment for target device ".to_owned().concat(
                    device_id,
                ).concat(" from local trusted device directory or prekey registry"),
            ),
        );
    }
    Ok(principal_commitment)
}

/// The commitment of a recipient on another node, which the caller has to name.
pub fn federated_commitment(explicit: Option<&str>) -> (r: Result<String, SdkError>)
    ensures
        match nonempty(explicit) {
            Some(text) => r is Ok && r->Ok_0@ == text,
            None => is_local_bus(
                r,
                "federated direct messages require an explicit recipient principal commitment to verify the remote device manifest"@,
            ),
        },
{
    match explicit {
        Some(text) => {
            if !text.is_empty() {
                return Ok(text.to_owned());
            }
        },
        None => {},
    }
    Err(
        local_bus(
            "federated direct messages require an explicit recipient principal commitment to verify the remote device manifest",
        ),
    )
}

/// The commitment under which the manifest of a target device is asked for.
pub fn target_commitment(principal_commitment: Option<&str>) -> (r: Result<String, SdkError>)
    ensures
        match nonempty(principal_commitment) {
            Some(text) => r is Ok && r->Ok_0@ == text,
            None => is_local_bus(
                r,
                "cannot verify manifest membership for target device without principal commitment"@,
            ),
        },
{
    match principal_commitment {
        Some(text) => {
            if !text.is_empty() {
                return Ok(text.to_owned());
            }
        },
        None => {},
    }
    Err(
        local_bus(
            "cannot verify manifest membership for target device without principal commitment",
        ),
    )
}

/// The place of a manifest at a gateway.
pub fn manifest_path(identity_commitment: &str) -> (r: String)
    ensures
        r@ == "/mvp1/device-manifest/"@ + identity_commitment@,
{
    "/mvp1/device-manifest/".to_owned().concat(identity_commitment)
}

/// The manifest that was asked for, where a gateway has to have one.
pub fn needed_manifest<M>(found: Option<M>, identity_commitment: &str) -> (r: Result<M, SdkError>)
    ensures
        match found {
            Some(manifest) => r == Ok::<M, SdkError>(manifest),
            None => is_local_bus(r, "missing device manifest for "@ + identity_commitment@),
        },
{
    match found {
        Some(manifest) => Ok(manifest),
        None => {
            let text = "missing device manifest for ".to_owned().concat(identity_commitment);
            Err(local_bus(text.as_str()))
        },
    }
}

} // verus!
