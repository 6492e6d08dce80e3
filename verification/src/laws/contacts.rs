//! Contacts: whose manifests are believed, and what a safety number is made of.
use crate::error::SdkError;
use crate::manifest::{
    active_device, device_at, devices_fault, find_device, verify_device_manifest, CheckOutcome,
    CheckedDevice, CheckedManifest, RootCommitment,
};
use vstd::prelude::*;

verus! {

/// The first device of a name is found, and none is if none has the name.
pub(crate) proof fn lemma_device_at(devices: Seq<CheckedDevice>, device_id: Seq<char>)
    ensures
        match device_at(devices, device_id) {
            Some(i) => {
                &&& 0 <= i < devices.len()
                &&& devices[i].device.device_id@ == device_id
                &&& forall|j: int|
                    0 <= j < i ==> (#[trigger] devices[j]).device.device_id@ != device_id
            },
            None => forall|j: int|
                0 <= j < devices.len() ==> (#[trigger] devices[j]).device.device_id@ != device_id,
        },
    decreases devices.len(),
{
    if devices.len() > 0 {
        let rest = devices.drop_last();
        lemma_device_at(rest, device_id);
        assert forall|j: int| 0 <= j < rest.len() implies (#[trigger] devices[j]) == rest[j] by {}
    }
}

// ---- manifests ----

/// Whether a device of a manifest is in order: its record, its proof and its prekeys are of the
/// identity, the device and the epoch that it names, and every check of it passed.
pub open spec fn is_in_order(
    checked: CheckedDevice,
    principal_id: Seq<char>,
    identity: Seq<char>,
) -> bool {
    let device = checked.device;
    &&& device.principal_id@ == principal_id
    &&& device.principal_commitment@ == identity
    &&& device.branch_proof.principal_id@ == principal_id
    &&& device.branch_proof.device_id@ == device.device_id@
    &&& device.branch_proof.device_epoch == device.device_epoch
    &&& device.prekey_bundle.device_id@ == device.device_id@
    &&& device.prekey_bundle.device_epoch == device.device_epoch
    &&& checked.branch_proof is Passed
    &&& checked.branch_key is Passed
    &&& checked.prekey is Passed
}

proof fn lemma_devices_in_order(
    devices: Seq<CheckedDevice>,
    principal_id: Seq<char>,
    identity: Seq<char>,
)
    ensures
        devices_fault(devices, principal_id, identity) is None <==> forall|i: int|
            0 <= i < devices.len() ==> is_in_order(#[trigger] devices[i], principal_id, identity),
    decreases devices.len(),
{
    if devices.len() > 0 {
        let rest = devices.skip(1);
        lemma_devices_in_order(rest, principal_id, identity);
        let all = forall|i: int|
            0 <= i < devices.len() ==> is_in_order(#[trigger] devices[i], principal_id, identity);
        let others = forall|i: int|
            0 <= i < rest.len() ==> is_in_order(#[trigger] rest[i], principal_id, identity);
        if all {
            assert forall|i: int| 0 <= i < rest.len() implies is_in_order(
                #[trigger] rest[i],
                principal_id,
                identity,
            ) by {
                assert(rest[i] == devices[i + 1]);
            }
            assert(is_in_order(devices[0], principal_id, identity));
        }
        if others && is_in_order(devices[0], principal_id, identity) {
            assert forall|i: int| 0 <= i < devices.len() implies is_in_order(
                #[trigger] devices[i],
                principal_id,
                identity,
            ) by {
                if i > 0 {
                    assert(rest[i - 1] == devices[i]);
                }
            }
        }
    }
}

/// A manifest is believed exactly if it is of the expected identity, its root key commits to that
/// identity and is good, it has a device, and each of its devices is in order.
pub proof fn law_manifest_is_believed_exactly_then(
    manifest: &CheckedManifest,
    expected: &str,
    r: Result<(), SdkError>,
)
    requires
        call_ensures(verify_device_manifest, (manifest, expected), r),
    ensures
        r is Ok <==> {
            &&& manifest.principal_commitment@ == expected@
            &&& manifest.root_commitment matches RootCommitment::Known(commitment) && commitment@
                == expected@
            &&& manifest.root_key is Passed
            &&& manifest.devices@.len() >= 1
            &&& forall|i: int|
                0 <= i < manifest.devices@.len() ==> is_in_order(
                    #[trigger] manifest.devices@[i],
                    manifest.principal_id@,
                    expected@,
                )
        },
{
    lemma_devices_in_order(manifest.devices@, manifest.principal_id@, expected@);
}

/// Of a manifest that is not believed, the first fault is told: whose identity, which root, that it
/// has no devices.
pub proof fn law_manifest_fault_is_told(
    manifest: &CheckedManifest,
    expected: &str,
    r: Result<(), SdkError>,
)
    requires
        call_ensures(verify_device_manifest, (manifest, expected), r),
    ensures
        manifest.principal_commitment@ != expected@ ==> r == Err::<(), SdkError>(
            SdkError::LocalBus(r->Err_0->LocalBus_0),
        ) && r->Err_0->LocalBus_0@ == "device manifest principal commitment mismatch for "@
            + expected@,
        manifest.principal_commitment@ == expected@ ==> (manifest.root_commitment matches
        RootCommitment::Undecodable(words) ==> r->Err_0->LocalBus_0@
            == "invalid root public key: "@ + words@),
        manifest.principal_commitment@ == expected@ ==> (manifest.root_commitment matches
        RootCommitment::Known(commitment) ==> (commitment@ != expected@
            ==> r->Err_0->LocalBus_0@ == "device manifest root commitment mismatch for "@
            + expected@)),
        manifest.principal_commitment@ == expected@ ==> (manifest.root_commitment matches
        RootCommitment::Known(commitment) ==> (commitment@ == expected@
            && manifest.devices@.len() == 0 ==> r->Err_0->LocalBus_0@
            == "device manifest has no devices for "@ + expected@)),
        manifest.principal_commitment@ == expected@ ==> (manifest.root_commitment matches
        RootCommitment::Known(commitment) ==> (commitment@ == expected@
            && manifest.devices@.len() > 0 ==> (manifest.root_key matches CheckOutcome::Failed(
            words,
        ) ==> r->Err_0->Crypto_0@ == words@))),
{
}

/// The device that a message is for is the first of its name in the manifest, and there has to be one.
pub proof fn law_recipient_is_in_the_manifest(
    devices: &Vec<CheckedDevice>,
    device_id: &str,
    principal_commitment: &str,
    found: Option<usize>,
    r: Result<usize, SdkError>,
)
    requires
        call_ensures(find_device, (devices, device_id), found),
        call_ensures(active_device, (devices, device_id, principal_commitment), r),
    ensures
        found is Some <==> exists|i: int|
            0 <= i < devices@.len() && (#[trigger] devices@[i]).device.device_id@ == device_id@,
        found matches Some(i) ==> i < devices@.len() && devices@[i as int].device.device_id@
            == device_id@ && forall|j: int|
            0 <= j < i ==> (#[trigger] devices@[j]).device.device_id@ != device_id@,
        r is Ok <==> found is Some,
        r matches Ok(i) ==> found == Some(i),
        r is Err ==> r->Err_0->LocalBus_0@ == "recipient device "@ + device_id@
            + " is not in verified manifest for "@ + principal_commitment@,
{
    lemma_device_at(devices@, device_id@);
}

} // verus!
