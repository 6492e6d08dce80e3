//! Contacts: their manifests, their events, their safety numbers.
use ramflux_sdk::client::contact::{FriendChange, FriendLinkUpdate};
use ramflux_sdk::client::state::RamfluxClient;
use ramflux_sdk::contact::{
    bytes_to_hex, contact_event, contact_event_of_plaintext, contact_safety_material_for,
    contact_safety_material_from_manifest, contact_verification_state, friend_rejection_reason,
    linked_self_identity, safety_number_of, ContactAction, ContactEventFields,
    ContactSafetyRecipe, ContactVerificationRecord, DecodedDevice, DecodedManifest,
    FriendLinkRecord, SafetyMaterial, SdkContactSafetyMaterialPair,
};
use ramflux_sdk::error::SdkError;
use ramflux_sdk::json::JsonField;
use ramflux_sdk::manifest::{
    active_device, commitment_source, federated_commitment, find_device, manifest_path,
    prekey_commitment, source_name, target_commitment, verify_device_manifest, CheckOutcome,
    CheckedDevice, CheckedManifest, CommitmentSource, RootCommitment,
};
use ramflux_sdk::prekey::{BranchProofDocument, PrekeyBundle, SdkMvp1DeviceManifestDevice};
use ramflux_sdk::records::{AccountDbRequest, EventWrite};

/// A stand-in for the commitment to a root key: it tells any two keys apart.
fn commitment_of(root_public_key: &str) -> String {
    format!("commitment-to-{root_public_key}")
}

fn manifest_device(principal_id: &str, device_id: &str, seed: u8) -> SdkMvp1DeviceManifestDevice {
    SdkMvp1DeviceManifestDevice {
        principal_id: principal_id.to_owned(),
        principal_commitment: commitment_of(&format!("root-{principal_id}")),
        device_id: device_id.to_owned(),
        device_epoch: 1,
        branch_public_key: format!("branch-{device_id}"),
        target_delivery_id: format!("target_{device_id}"),
        branch_proof: BranchProofDocument {
            principal_id: principal_id.to_owned(),
            device_id: device_id.to_owned(),
            device_epoch: 1,
        },
        prekey_bundle: PrekeyBundle {
            device_id: device_id.to_owned(),
            device_epoch: 1,
            identity_key: [seed; 32],
            signed_prekey_id: format!("{device_id}:signed:1"),
            signed_prekey: [seed + 1; 32],
            one_time_prekey_id: None,
        },
        branch_authorized_event_id: format!("device.branch_authorized:{device_id}:1"),
    }
}

fn manifest_fixture(principal_id: &str, device_id: &str, seed: u8) -> CheckedManifest {
    let root_public_key = format!("root-{principal_id}");
    CheckedManifest {
        principal_id: principal_id.to_owned(),
        principal_commitment: commitment_of(&root_public_key),
        root_commitment: RootCommitment::Known(commitment_of(&root_public_key)),
        root_key: CheckOutcome::Passed,
        devices: vec![CheckedDevice {
            device: manifest_device(principal_id, device_id, seed),
            branch_proof: CheckOutcome::Passed,
            branch_key: CheckOutcome::Passed,
            prekey: CheckOutcome::Passed,
        }],
    }
}

#[test]
fn device_manifest_rejects_root_commitment_mismatch() -> Result<(), SdkError> {
    let mut manifest = manifest_fixture("principal_alice", "alice_device", 0x13);
    let expected = manifest.principal_commitment.clone();
    manifest.root_commitment =
        RootCommitment::Known(commitment_of("root-of-principal_attacker"));

    let Err(error) = verify_device_manifest(&manifest, &expected) else {
        return Err(SdkError::LocalBus("root mismatch was accepted".to_owned()));
    };
    assert!(error.message().contains("root commitment mismatch"));
    Ok(())
}

#[test]
fn device_manifest_rejects_tampered_branch_proof() {
    let mut manifest = manifest_fixture("principal_alice", "alice_device", 0x33);
    let expected = manifest.principal_commitment.clone();
    assert_eq!(verify_device_manifest(&manifest, &expected), Ok(()));
    manifest.devices[0].branch_proof = CheckOutcome::Failed("tampered".to_owned());

    assert!(verify_device_manifest(&manifest, &expected).is_err());
    assert_eq!(
        verify_device_manifest(&manifest, &expected),
        Err(SdkError::LocalBus("branch proof invalid for alice_device: tampered".to_owned()))
    );
}

#[test]
fn manifests_are_turned_down_for_the_first_fault() {
    let manifest = manifest_fixture("principal_alice", "alice_device", 0x33);
    let expected = manifest.principal_commitment.clone();
    let local_bus = |words: &str| Err(SdkError::LocalBus(words.to_owned()));
    assert_eq!(
        verify_device_manifest(&manifest, "other"),
        local_bus("device manifest principal commitment mismatch for other")
    );
    let mut broken = manifest.clone();
    broken.root_commitment = RootCommitment::Undecodable("bad text".to_owned());
    assert_eq!(
        verify_device_manifest(&broken, &expected),
        local_bus("invalid root public key: bad text")
    );
    let mut broken = manifest.clone();
    broken.devices.clear();
    assert_eq!(
        verify_device_manifest(&broken, &expected),
        local_bus(&format!("device manifest has no devices for {expected}"))
    );
    let mut broken = manifest.clone();
    broken.root_key = CheckOutcome::Failed("bad key".to_owned());
    assert_eq!(
        verify_device_manifest(&broken, &expected),
        Err(SdkError::Crypto("bad key".to_owned()))
    );
    let mut broken = manifest.clone();
    broken.devices[0].device.prekey_bundle.device_epoch = 2;
    assert_eq!(
        verify_device_manifest(&broken, &expected),
        local_bus("device manifest record mismatch for alice_device")
    );
    let mut broken = manifest.clone();
    broken.devices[0].branch_key = CheckOutcome::Failed("no point".to_owned());
    assert_eq!(
        verify_device_manifest(&broken, &expected),
        Err(SdkError::Crypto("no point".to_owned()))
    );
    let mut broken = manifest.clone();
    broken.devices[0].prekey = CheckOutcome::Failed("unsigned".to_owned());
    assert_eq!(
        verify_device_manifest(&broken, &expected),
        local_bus("prekey invalid for alice_device: unsigned")
    );
    assert_eq!(find_device(&manifest.devices, "alice_device"), Some(0));
    assert_eq!(active_device(&manifest.devices, "alice_device", &expected), Ok(0));
    assert_eq!(
        active_device(&manifest.devices, "bob_device", "c"),
        Err(SdkError::LocalBus(
            "recipient device bob_device is not in verified manifest for c".to_owned()
        ))
    );
}

#[test]
fn targeted_fanout_requires_principal_commitment() -> Result<(), SdkError> {
    for commitment in [None, Some("")] {
        let Err(error) = target_commitment(commitment) else {
            return Err(SdkError::LocalBus(
                "targeted fanout accepted a missing principal commitment".to_owned(),
            ));
        };
        assert!(error.message().contains(
            "cannot verify manifest membership for target device without principal commitment"
        ));
    }
    assert_eq!(target_commitment(Some("c")), Ok("c".to_owned()));
    Ok(())
}

#[test]
fn commitments_are_resolved_in_their_order() {
    assert_eq!(
        commitment_source(Some("a"), Some("b")),
        CommitmentSource::Explicit("a".to_owned())
    );
    let directory = commitment_source(Some(""), Some("b"));
    assert_eq!(directory, CommitmentSource::Directory("b".to_owned()));
    assert_eq!(source_name(&directory), "device_directory");
    assert_eq!(commitment_source(None, None), CommitmentSource::Prekey);
    assert_eq!(source_name(&CommitmentSource::Prekey), "prekey_resolve");
    assert_eq!(prekey_commitment("c".to_owned(), "d"), Ok("c".to_owned()));
    assert_eq!(
        prekey_commitment(String::new(), "d"),
        Err(SdkError::LocalBus(
            "cannot resolve principal commitment for target device d from local trusted device \
             directory or prekey registry"
                .to_owned()
        ))
    );
    assert_eq!(federated_commitment(Some("c")), Ok("c".to_owned()));
    assert_eq!(
        federated_commitment(Some("")),
        Err(SdkError::LocalBus(
            "federated direct messages require an explicit recipient principal commitment to \
             verify the remote device manifest"
                .to_owned()
        ))
    );
    assert_eq!(manifest_path("c"), "/mvp1/device-manifest/c");
}

fn material(principal_id: &str, device_id: &str, seed: u8) -> Result<ContactSafetyRecipe, SdkError> {
    let device = manifest_device(principal_id, device_id, seed);
    contact_safety_material_from_manifest(
        &device.principal_commitment.clone(),
        &format!("root-{principal_id}"),
        &vec![DecodedDevice { device, branch_key: Ok(vec![seed; 32]) }],
    )
}

/// A stand-in for the fingerprint of two sides, the same from either of them.
fn safety_fingerprint(a: &ContactSafetyRecipe, b: &ContactSafetyRecipe) -> Vec<String> {
    let mut sides = vec![format!("{a:?}"), format!("{b:?}")];
    sides.sort();
    sides
}

#[test]
fn manifest_material_mapping_is_byte_stable_and_symmetric() -> Result<(), SdkError> {
    let alice_self = material("principal_alice", "alice_device", 0x43)?;
    let alice_contact = material("principal_alice", "alice_device", 0x43)?;
    let bob_material = material("principal_bob", "bob_device", 0x53)?;

    assert_eq!(alice_self, alice_contact);
    assert_eq!(
        safety_fingerprint(&alice_self, &bob_material),
        safety_fingerprint(&bob_material, &alice_contact)
    );
    assert_ne!(alice_self, bob_material);
    let device = &alice_self.devices[0];
    assert_eq!(device.device_id_hash.domain, "ramflux.sdk.contact.device_id_hash.v1");
    assert_eq!(device.device_id_hash.bytes, b"alice_device".to_vec());
    assert_eq!(device.device_x25519_identity_key_hash.bytes, vec![0x43; 32]);
    assert_eq!(alice_self.lineage_head.bytes, b"root-principal_alice".to_vec());
    Ok(())
}

#[test]
fn undecodable_device_keys_make_no_material() {
    let device = manifest_device("p", "d", 1);
    assert_eq!(
        contact_safety_material_from_manifest(
            "c",
            "r",
            &vec![DecodedDevice { device, branch_key: Err("bad text".to_owned()) }]
        ),
        Err(SdkError::LocalBus("invalid branch public key: bad text".to_owned()))
    );
}

#[test]
fn material_of_an_unknown_contact_comes_from_its_name() {
    let assumed = contact_safety_material_for("alice");
    assert_eq!(assumed.identity_commitment, b"alice".to_vec());
    assert_eq!(assumed.identity_key_hash.domain, "ramflux.sdk.contact.identity_key_hash.v1");
    assert_eq!(assumed.devices.len(), 1);
    assert_eq!(
        assumed.devices[0].branch_authorized_event_id,
        b"device.branch_authorized:alice:1".to_vec()
    );
}

fn unlocked_client() -> RamfluxClient {
    let mut client = RamfluxClient::new();
    client.open_account_index("/tmp/accounts".to_owned());
    client.account_unlocked("acct");
    client
}

fn friend_requested() -> Vec<u8> {
    let mut event = serde_json::Map::new();
    for (name, value) in [
        ("type", "friend.requested"),
        ("link_id", "link_inbound"),
        ("requester", "requester"),
        ("target", "principal_contact"),
    ] {
        event.insert(name.to_owned(), serde_json::Value::String(value.to_owned()));
    }
    serde_json::to_vec(&serde_json::Value::Object(event)).unwrap_or_default()
}

#[test]
fn friend_requests_are_recorded_as_pending() -> Result<(), SdkError> {
    let client = unlocked_client();
    let (_action, update) = client.apply_contact_event_plaintext(&friend_requested(), 77)?;
    assert_eq!(
        update,
        Some(FriendLinkUpdate {
            request: AccountDbRequest::RecordPendingFriendLink {
                link_id: "link_inbound".to_owned(),
                requester_id: "requester".to_owned(),
                target_id: "principal_contact".to_owned(),
                now: 77,
            },
            change: None,
        })
    );
    assert_eq!(
        client.reject_friend_link("link_inbound", 78)?,
        FriendLinkUpdate {
            request: AccountDbRequest::RejectFriendLink {
                link_id: "link_inbound".to_owned(),
                now: 78
            },
            change: Some(FriendChange::Rejected),
        }
    );
    let locked = RamfluxClient::new();
    assert_eq!(
        locked.apply_contact_event_plaintext(&friend_requested(), 77),
        Err(SdkError::AccountDbNotUnlocked)
    );
    Ok(())
}

#[test]
fn plaintexts_that_are_no_events_ask_for_nothing() {
    let client = RamfluxClient::new();
    for plaintext in [&b"hello"[..], b"", b"[]", b"{}", b"7", b"{\"type\":\"chat\"}", b"{\"type\":1}"] {
        assert_eq!(
            client.apply_contact_event_plaintext(plaintext, 1),
            Ok((ContactAction::Ignore, None))
        );
    }
}

#[test]
fn contact_events_ask_for_their_change() {
    let read = |text: &str| contact_event_of_plaintext(text.as_bytes());
    assert_eq!(
        read(r#"{"type":"friend.accepted","link_id":"l","requester":"a","target":"b"}"#),
        Ok(ContactAction::Establish {
            link_id: "l".to_owned(),
            requester_id: "a".to_owned(),
            target_id: "b".to_owned()
        })
    );
    let removed = |scope: &str| {
        Ok(ContactAction::Remove { link_id: "l".to_owned(), scope: scope.to_owned() })
    };
    assert_eq!(read(r#"{"type":"friend.removed","link_id":"l","scope":"mine"}"#), removed("mine"));
    assert_eq!(
        read(r#"{"type":"friend.removed","link_id":"l","remove_scope":"theirs"}"#),
        removed("theirs")
    );
    assert_eq!(read(r#"{"type":"friend.removed","link_id":"l"}"#), removed("both"));
    assert_eq!(
        read(r#"{"type":"friend.blocked","link_id":"l"}"#),
        Ok(ContactAction::Block { link_id: "l".to_owned() })
    );
    assert_eq!(
        read(r#"{"type":"friend.unblocked","link_id":"l"}"#),
        Ok(ContactAction::Unblock { link_id: "l".to_owned() })
    );
    let missing = |words: &str| Err(SdkError::LocalBus(words.to_owned()));
    assert_eq!(read(r#"{"type":"friend.blocked"}"#), missing("friend.blocked missing link_id"));
    assert_eq!(read(r#"{"type":"friend.unblocked"}"#), missing("friend.unblocked missing link_id"));
    assert_eq!(read(r#"{"type":"friend.removed"}"#), missing("friend.removed missing link_id"));
    assert_eq!(read(r#"{"type":"friend.requested"}"#), missing("friend.requested missing link_id"));
    assert_eq!(
        read(r#"{"type":"friend.requested","link_id":"l","requester":3}"#),
        missing("friend.requested missing requester")
    );
    let fields = ContactEventFields {
        event_type: JsonField::Text("friend.accepted".to_owned()),
        link_id: JsonField::Text("l".to_owned()),
        requester: JsonField::Text("a".to_owned()),
        target: JsonField::Absent,
        scope: JsonField::Absent,
        remove_scope: JsonField::Other,
    };
    assert_eq!(contact_event(&fields), missing("friend.accepted missing target"));
}

fn event_of(write: &EventWrite) -> (String, String, serde_json::Value) {
    match &write.event {
        AccountDbRequest::AppendEvent { event_id, event_type, body } => (
            event_id.clone(),
            event_type.clone(),
            serde_json::from_slice(body).unwrap_or(serde_json::Value::Null),
        ),
        other => panic!("unexpected request {other:?}"),
    }
}

fn checkpoint_at(event_id: &str) -> AccountDbRequest {
    AccountDbRequest::SetProjectionCheckpoint {
        projection_name: "friend.control".to_owned(),
        last_event_id: event_id.to_owned(),
    }
}

#[test]
fn changes_of_links_are_recorded() -> Result<(), SdkError> {
    let client = unlocked_client();
    let mut stored = link("l", "alice", "bob \"b\"", "accepted");
    stored.remove_scope = Some("both".to_owned());
    stored.blocked = true;
    stored.capability_revoked_at = Some(-7);
    let update = client.block_friend_link("l", 5)?;
    assert_eq!(update.change, Some(FriendChange::Blocked));
    let (got, write) = client.friend_link_updated(&update, Ok(stored.clone()))?;
    assert_eq!(got, stored);
    let Some(write) = write else { panic!("the change is recorded") };
    let (event_id, event_type, body) = event_of(&write);
    assert_eq!((event_id.as_str(), event_type.as_str()), ("friend.blocked:l", "friend.blocked"));
    assert_eq!(write.checkpoint, checkpoint_at("friend.blocked:l"));
    assert_eq!(body["type"].as_str(), Some("friend.blocked"));
    assert_eq!(body["link_id"].as_str(), Some("l"));
    assert_eq!(body["requester"].as_str(), Some("alice"));
    assert_eq!(body["target"].as_str(), Some("bob \"b\""));
    assert_eq!(body["remove_scope"].as_str(), Some("both"));
    assert_eq!(body["blocked"].as_bool(), Some(true));
    assert_eq!(body["capability_revoked_at"].as_i64(), Some(-7));
    assert_eq!(body.as_object().map(serde_json::Map::len), Some(7));

    // Unblocking adds its own event.
    let update = client.unblock_friend_link("l", 6)?;
    let plain = link("l", "alice", "bob", "accepted");
    let (_, write) = client.friend_link_updated(&update, Ok(plain.clone()))?;
    let Some(write) = write else { panic!("the change is recorded") };
    let (event_id, _, body) = event_of(&write);
    assert_eq!(event_id, "friend.unblocked:l");
    assert_eq!(write.checkpoint, checkpoint_at("friend.unblocked:l"));
    assert!(body["remove_scope"].is_null() && body["capability_revoked_at"].is_null());
    assert_eq!(body["blocked"].as_bool(), Some(false));

    for (change, id) in [
        (client.remove_friend_link("l", "both", 7)?, "friend.removed:l"),
        (client.reject_friend_link("l", 8)?, "friend.rejected:l"),
    ] {
        let (_, write) = client.friend_link_updated(&change, Ok(plain.clone()))?;
        assert_eq!(write.map(|w| event_of(&w).0).as_deref(), Some(id));
    }
    let refused = Err(SdkError::LocalBus("no such link".to_owned()));
    assert_eq!(
        client.friend_link_updated(&update, refused),
        Err(SdkError::LocalBus("no such link".to_owned()))
    );
    assert_eq!(
        RamfluxClient::new().friend_link_updated(&update, Ok(plain)),
        Err(SdkError::AccountDbNotUnlocked)
    );
    Ok(())
}

#[test]
fn changes_that_a_contact_asks_for_are_recorded() -> Result<(), SdkError> {
    let client = unlocked_client();
    let read = |text: &str| client.apply_contact_event_plaintext(text.as_bytes(), 5);
    for (text, change) in [
        (r#"{"type":"friend.removed","link_id":"l"}"#, FriendChange::Removed),
        (r#"{"type":"friend.blocked","link_id":"l"}"#, FriendChange::Blocked),
        (r#"{"type":"friend.unblocked","link_id":"l"}"#, FriendChange::Unblocked),
    ] {
        let (_, update) = read(text)?;
        let Some(update) = update else { panic!("the contact asks for a change") };
        assert_eq!(update.change, Some(change));
        let (_, write) =
            client.friend_link_updated(&update, Ok(link("l", "a", "b", "accepted")))?;
        assert_eq!(
            write.map(|w| w.checkpoint),
            Some(checkpoint_at(&format!("{}:l", change.event_type())))
        );
    }
    let accepted =
        read(r#"{"type":"friend.accepted","link_id":"l","requester":"a","target":"b"}"#)?;
    let Some(update) = accepted.1 else { panic!("the contact asks for a link") };
    let (_, write) = client.friend_link_updated(&update, Ok(link("l", "a", "b", "accepted")))?;
    assert_eq!(write, None);
    Ok(())
}

fn link(link_id: &str, requester_id: &str, target_id: &str, state: &str) -> FriendLinkRecord {
    FriendLinkRecord {
        link_id: link_id.to_owned(),
        requester_id: requester_id.to_owned(),
        target_id: target_id.to_owned(),
        state: state.to_owned(),
        remove_scope: None,
        blocked: false,
        capability_revoked_at: None,
    }
}

#[test]
fn blocked_and_revoked_contacts_are_turned_away() {
    assert_eq!(friend_rejection_reason(&None), None);
    let mut record = link("l", "a", "b", "accepted");
    assert_eq!(friend_rejection_reason(&Some(record.clone())), None);
    record.capability_revoked_at = Some(4);
    assert_eq!(
        friend_rejection_reason(&Some(record.clone())),
        Some("friend.capability_revoked")
    );
    record.blocked = true;
    assert_eq!(friend_rejection_reason(&Some(record)), Some("friend.blocked"));
}

#[test]
fn a_contact_has_to_be_linked() {
    let links = vec![link("l1", "me_a", "bob", "pending"), link("l2", "bob", "me_b", "accepted")];
    assert_eq!(linked_self_identity(&links, "bob"), Ok("me_b".to_owned()));
    assert_eq!(
        linked_self_identity(&links, "carol"),
        Err(SdkError::LocalBus("contact is not linked: carol".to_owned()))
    );
}

fn safety_material() -> SafetyMaterial {
    SafetyMaterial {
        safety_number: vec!["12345".to_owned()],
        fingerprint: vec![0x0f, 0xa0],
        safety_number_hash: "hash".to_owned(),
        contact_device_set_hash: "new".to_owned(),
        contact_lineage_head: "head".to_owned(),
    }
}

#[test]
fn only_a_linked_contact_is_marked_as_verified() -> Result<(), SdkError> {
    let links = vec![link("l1", "me", "carol", "pending"), link("l2", "bob", "me", "accepted")];
    let client = unlocked_client();
    let update =
        client.mark_contact_safety_verified(&links, "bob", safety_material(), "device", 6)?;
    assert_eq!(update.contact_identity_commitment, "bob");
    assert_eq!(update.safety_number_hash, "hash");
    assert_eq!(update.device_set_hash, "new");
    assert_eq!(update.lineage_head, "head");
    assert_eq!((update.verified_at, update.verified_by_device_id.as_str()), (6, "device"));
    // A pending link does not count.
    for contact in ["carol", "dave"] {
        let unlinked = SdkError::LocalBus(format!("contact is not linked: {contact}"));
        assert_eq!(
            client.mark_contact_safety_verified(&links, contact, safety_material(), "device", 6),
            Err(unlinked.clone())
        );
        assert_eq!(
            client.contact_safety_number(&links, contact, safety_material(), &None),
            Err(unlinked)
        );
    }
    assert_eq!(
        RamfluxClient::new().mark_contact_safety_verified(
            &links,
            "bob",
            safety_material(),
            "device",
            6
        ),
        Err(SdkError::AccountDbNotUnlocked)
    );
    let number = client.contact_safety_number(&links, "bob", safety_material(), &None)?;
    assert_eq!(number.self_identity_commitment, "me");
    assert_eq!((number.self_device_count, number.contact_device_count), (1, 1));
    assert_eq!(number.verification_state, "unverified");
    assert_eq!(
        RamfluxClient::new().contact_safety_number(&links, "bob", safety_material(), &None),
        Err(SdkError::AccountDbNotUnlocked)
    );
    let unfetched = Err(SdkError::LocalBus("missing device manifest for bob".to_owned()));
    assert_eq!(
        client.contact_safety_number_via_gateway("bob", unfetched, safety_material(), &None),
        Err(SdkError::LocalBus("missing device manifest for bob".to_owned()))
    );
    Ok(())
}

#[test]
fn a_safety_number_is_made_of_both_sides() -> Result<(), SdkError> {
    let links = vec![link("l1", "me", "carol", "pending"), link("l2", "bob", "me", "accepted")];
    let pair = unlocked_client().contact_safety_material_pair(&links, "bob")?;
    assert_eq!(pair.self_identity_commitment, "me");
    assert_eq!(pair.self_material, contact_safety_material_for("me"));
    assert_eq!(pair.contact_material, contact_safety_material_for("bob"));
    assert_ne!(pair.self_material, pair.contact_material);
    assert_eq!(
        unlocked_client().contact_safety_material_pair(&links, "carol"),
        Err(SdkError::LocalBus("contact is not linked: carol".to_owned()))
    );
    assert_eq!(
        RamfluxClient::new().contact_safety_material_pair(&links, "carol"),
        Err(SdkError::AccountDbNotUnlocked)
    );
    // The contact's own pair holds the same two sides, the other way round.
    let theirs = unlocked_client().contact_safety_material_pair(&links, "me")?;
    assert_eq!(theirs.self_material, pair.contact_material);
    assert_eq!(theirs.contact_material, pair.self_material);
    Ok(())
}

fn decoded_manifest(principal_id: &str, devices: &[&str]) -> DecodedManifest {
    let mut decoded = Vec::new();
    for device_id in devices {
        let device = manifest_device(principal_id, device_id, 3);
        decoded.push(DecodedDevice { device, branch_key: Ok(vec![3; 32]) });
    }
    DecodedManifest {
        principal_commitment: commitment_of(&format!("root-{principal_id}")),
        root_public_key: format!("root-{principal_id}"),
        devices: decoded,
    }
}

#[test]
fn a_fetched_safety_number_counts_the_devices_of_both_sides() -> Result<(), SdkError> {
    let links = vec![link("l2", "bob", "me", "accepted")];
    let client = unlocked_client();
    let pair = client.contact_safety_material_pair_via_gateway(
        &links,
        "bob",
        Ok(decoded_manifest("me", &["m1"])),
        Ok(decoded_manifest("bob", &["b1", "b2"])),
    )?;
    assert_eq!(pair.self_identity_commitment, "me");
    assert_eq!(pair.self_material.lineage_head.bytes, b"root-me".to_vec());
    assert_eq!(pair.contact_material.lineage_head.bytes, b"root-bob".to_vec());
    assert_eq!(pair.contact_material.devices[1].device_id_hash.bytes, b"b2".to_vec());
    let number = client.contact_safety_number_via_gateway(
        "bob",
        Ok(pair.clone()),
        safety_material(),
        &verified("old"),
    )?;
    assert_eq!((number.self_device_count, number.contact_device_count), (1, 2));
    assert_eq!(number.verification_state, "verification_stale");
    assert_eq!(
        RamfluxClient::new().contact_safety_number_via_gateway(
            "bob",
            Ok(pair),
            safety_material(),
            &None
        ),
        Err(SdkError::AccountDbNotUnlocked)
    );
    Ok(())
}

#[test]
fn the_own_manifest_is_fetched_first() {
    let links = vec![link("l2", "bob", "me", "accepted")];
    let failed = |words: &str| SdkError::LocalBus(words.to_owned());
    let pair = |contact, ours, theirs| {
        unlocked_client().contact_safety_material_pair_via_gateway(&links, contact, ours, theirs)
    };
    assert_eq!(
        pair("carol", Err(failed("ours")), Err(failed("theirs"))),
        Err(failed("contact is not linked: carol"))
    );
    assert_eq!(pair("bob", Err(failed("ours")), Err(failed("theirs"))), Err(failed("ours")));
    // A manifest that cannot be had is told before one that cannot be read.
    let mut unreadable = decoded_manifest("me", &["m1"]);
    unreadable.devices[0].branch_key = Err("bad text".to_owned());
    assert_eq!(pair("bob", Ok(unreadable), Err(failed("theirs"))), Err(failed("theirs")));
    let mut unreadable = decoded_manifest("bob", &["b1"]);
    unreadable.devices[0].branch_key = Err("bad text".to_owned());
    assert_eq!(
        pair("bob", Ok(decoded_manifest("me", &["m1"])), Ok(unreadable)),
        Err(failed("invalid branch public key: bad text"))
    );
    let locked = RamfluxClient::new().contact_safety_material_pair_via_gateway(
        &links,
        "bob",
        Ok(decoded_manifest("me", &["m1"])),
        Ok(decoded_manifest("bob", &["b1"])),
    );
    assert_eq!(locked, Err(SdkError::AccountDbNotUnlocked));
}

fn verified(device_set_hash: &str) -> Option<ContactVerificationRecord> {
    Some(ContactVerificationRecord {
        contact_identity_commitment: "bob".to_owned(),
        verification_state: "verified".to_owned(),
        safety_number_hash: "hash".to_owned(),
        verified_device_set_hash: device_set_hash.to_owned(),
        lineage_head: "head".to_owned(),
        verified_at: 6,
        verified_by_device_id: "device".to_owned(),
    })
}

#[test]
fn a_marked_contact_is_read_back_as_it_was_marked() -> Result<(), SdkError> {
    let links = vec![link("l2", "bob", "me", "accepted")];
    let client = unlocked_client();
    let mut stored: Option<ContactVerificationRecord> = None;
    let number = client.contact_safety_number(&links, "bob", safety_material(), &stored)?;
    assert_eq!(number.verification_state, "unverified");
    let update =
        client.mark_contact_safety_verified(&links, "bob", safety_material(), "device", 6)?;
    // What a database keeps of it.
    stored.replace(ContactVerificationRecord {
        contact_identity_commitment: update.contact_identity_commitment,
        verification_state: "verified".to_owned(),
        safety_number_hash: update.safety_number_hash,
        verified_device_set_hash: update.device_set_hash,
        lineage_head: update.lineage_head,
        verified_at: update.verified_at,
        verified_by_device_id: update.verified_by_device_id,
    });
    assert_eq!(stored, verified("new"));
    let again = client.contact_safety_number(&links, "bob", safety_material(), &stored)?;
    assert_eq!(again.verification_state, "verified");
    let record = stored.ok_or_else(|| SdkError::LocalBus("nothing is stored".to_owned()))?;
    assert_eq!(record.safety_number_hash, number.safety_number_hash);
    assert_eq!(record.verified_device_set_hash, number.contact_device_set_hash);
    assert_eq!(record.lineage_head, number.contact_lineage_head);
    Ok(())
}

#[test]
fn verification_goes_stale_with_the_devices() {
    let record = verified("old");
    assert_eq!(contact_verification_state(&None, Some("old")), "unverified");
    assert_eq!(contact_verification_state(&record, Some("old")), "verified");
    assert_eq!(contact_verification_state(&record, Some("new")), "verification_stale");
    assert_eq!(contact_verification_state(&record, None), "verified");
    let pair = SdkContactSafetyMaterialPair {
        self_material: contact_safety_material_for("me"),
        contact_material: contact_safety_material_for("bob"),
        self_identity_commitment: "me".to_owned(),
    };
    let number = safety_number_of("bob", pair, safety_material(), &record, true);
    assert_eq!(number.fingerprint_hex, "0fa0");
    assert_eq!(number.verification_state, "verification_stale");
    assert_eq!(bytes_to_hex(&[]), "");
    assert_eq!(bytes_to_hex(&[0, 255, 16]), "00ff10");
}

#[test]
fn believed_devices_are_kept_in_the_directory() -> Result<(), SdkError> {
    let manifest = manifest_fixture("principal_alice", "alice_device", 0x33);
    let writes = unlocked_client().cache_verified_device_manifest(
        &manifest.devices,
        &manifest.principal_commitment,
        "explicit",
        9,
    )?;
    assert_eq!(writes.len(), 1);
    assert_eq!(writes[0].device_id, "alice_device");
    assert_eq!(writes[0].source, "explicit");
    assert_eq!(
        RamfluxClient::new().cache_verified_device_manifest(&manifest.devices, "c", "s", 9),
        Err(SdkError::AccountDbNotUnlocked)
    );
    assert_eq!(
        RamfluxClient::new().cache_verified_device_manifest(&vec![], "c", "s", 9),
        Ok(vec![])
    );
    Ok(())
}
