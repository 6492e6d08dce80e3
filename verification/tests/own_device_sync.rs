//! Histories that one device of an identity hands to another.
use ramflux_sdk::client::group::LocalBusGroupMemberRoute;
use ramflux_sdk::client::own_device_sync::{
    check_same_principal, conversations_of, history_sender_key, member_sender_key_distributions,
    own_device_dm_session_snapshots, own_device_group_snapshot, own_device_group_snapshots,
    own_device_history_bundle, own_device_sender_key_distributions,
    own_device_sync_envelope_to_sign, own_device_sync_signer, own_sync_history_ref,
    own_sync_object_id, own_sync_slot_message, own_sync_snapshot_id, FoundSession,
    GroupKeysReading, GroupReading, HistoryWrite, MemberSenderKey,
};
use ramflux_sdk::client::object::ChunkPlan;
use ramflux_sdk::client::state::RamfluxClient;
use ramflux_sdk::dm::SdkDmAttachmentRef;
use ramflux_sdk::error::SdkError;
use ramflux_sdk::gateway::helpers::sdk_device_signed_fields;
use ramflux_sdk::group::{
    GroupState, SdkGroupEncryptedEnvelope, SdkGroupSenderKeyDistribution,
};
use ramflux_sdk::manifest::{CheckOutcome, CheckedDevice};
use ramflux_sdk::name_list::{insert_name, text_before};
use ramflux_sdk::object::{DeviceBranch, DmCiphertext, EncryptedObject, SdkObjectKeySlot};
use ramflux_sdk::own_device_sync::{
    group_message_epoch, own_device_sync_signing_body, own_device_sync_slot_conversation_id,
    BundledMessage, SdkOwnDeviceDmSessionSnapshot, SdkOwnDeviceGroupMemberSnapshot,
    SdkOwnDeviceGroupSnapshot, SdkOwnDeviceHistoryBundle, SdkOwnDeviceSyncEnvelope,
};
use ramflux_sdk::prekey::{BranchProofDocument, PrekeyBundle, SdkMvp1DeviceManifestDevice};
use ramflux_sdk::records::{AccountDbRequest, DirectMessageRecord, MessageMetadata};
use ramflux_sdk::sync_flow::{ExportStep, HistoryExport, HistoryIntake, IntakeStep};

fn branch(principal: &str, device_id: &str) -> DeviceBranch {
    DeviceBranch {
        principal_id: principal.to_owned(),
        device_id: device_id.to_owned(),
        device_epoch: 1,
        public_key: "key".to_owned(),
        device_hash: "hash".to_owned(),
    }
}

fn client_with_account(principal: &str, device_id: &str) -> RamfluxClient {
    let mut client = RamfluxClient::new();
    client.open_account_index("/accounts".to_owned());
    client.create_device_branch(branch(principal, device_id));
    client.account_unlocked("acct");
    client
}

fn ciphertext(session_id: &str, body: &[u8]) -> DmCiphertext {
    DmCiphertext {
        session_id: session_id.to_owned(),
        counter: 0,
        nonce: [0; 12],
        ciphertext: body.to_vec(),
        ratchet_public_key: None,
        previous_chain_length: 0,
        sender_device_id_hash: [0; 32],
        recipient_device_id_hash: [0; 32],
        device_epoch: 0,
        message_event_id: String::new(),
        canonical_header_bytes: Vec::new(),
        header_hash: String::new(),
        key_commitment: String::new(),
        franking_commitment: String::new(),
        commitment: String::new(),
        ciphertext_hash: String::new(),
    }
}

fn history_ref(conversation_id: &str, target_device_id: &str) -> SdkDmAttachmentRef {
    SdkDmAttachmentRef {
        schema: "ramflux.sdk.dm_attachment_ref.v1".to_owned(),
        version: 1,
        object_id: "object_sync".to_owned(),
        manifest_hash: "manifest_sync".to_owned(),
        plaintext_hash: "plaintext_sync".to_owned(),
        cipher_size: 0,
        chunk_size: 1024,
        total_chunks: 1,
        relay_endpoint: "http://127.0.0.1:1".to_owned(),
        owner_home_node_id: None,
        relay_audience_node_id: None,
        owner_principal_id: String::new(),
        owner_device_epoch: 0,
        access_grant: None,
        key_slot: SdkObjectKeySlot {
            schema: "ramflux.sdk.object_key_slot.dm.v1".to_owned(),
            version: 1,
            object_id: "object_sync".to_owned(),
            conversation_id: conversation_id.to_owned(),
            recipient_device_id: target_device_id.to_owned(),
            x3dh: None,
            ciphertext: ciphertext("slot_sync", b""),
        },
    }
}

fn envelope(source_device_id: &str, target_device_id: &str) -> SdkOwnDeviceSyncEnvelope {
    SdkOwnDeviceSyncEnvelope {
        schema: "ramflux.sdk.own_device_sync.v1".to_owned(),
        version: 1,
        principal_commitment: "principal_sync".to_owned(),
        source_device_id: source_device_id.to_owned(),
        target_device_id: target_device_id.to_owned(),
        snapshot_id: "snapshot_sync".to_owned(),
        snapshot_kind: "history_bundle".to_owned(),
        created_at: 1_760_000_000,
        expires_at: 1_760_003_600,
        nonce: "nonce_sync".to_owned(),
        history_ref: history_ref("slot_sync", target_device_id),
        signed: sdk_device_signed_fields(source_device_id, ""),
    }
}

fn bundle(
    source_device_id: &str,
    target_device_id: &str,
    messages: Vec<BundledMessage>,
    groups: Vec<SdkOwnDeviceGroupSnapshot>,
) -> SdkOwnDeviceHistoryBundle {
    SdkOwnDeviceHistoryBundle {
        schema: "ramflux.sdk.own_device_history_bundle.v1".to_owned(),
        version: 1,
        principal_commitment: "principal_sync".to_owned(),
        source_device_id: source_device_id.to_owned(),
        target_device_id: target_device_id.to_owned(),
        snapshot_id: "snapshot_sync".to_owned(),
        messages,
        dm_sessions: Vec::new(),
        groups,
        sender_key_distributions_base64: Vec::new(),
    }
}

fn record(conversation_id: &str, message_id: &str, created_at: i64) -> DirectMessageRecord {
    DirectMessageRecord {
        conversation_id: conversation_id.to_owned(),
        message_id: message_id.to_owned(),
        sender_id: "source_device_sync".to_owned(),
        encrypted_body: b"ciphertext".to_vec(),
        metadata: MessageMetadata { franking_report: None },
        deleted: false,
        created_at,
    }
}

fn listed(writes: &[HistoryWrite], message_id: &str) -> Option<DirectMessageRecord> {
    writes.iter().find_map(|write| match write {
        HistoryWrite::Message(record) if record.message_id == message_id => Some(record.clone()),
        _ => None,
    })
}

#[test]
fn own_device_history_import_preserves_direct_message_created_at() -> Result<(), SdkError> {
    let client = client_with_account("principal_sync", "target_device_sync");
    let message = BundledMessage {
        record: record("conv_sync_dm", "msg_sync_original_time", 1_760_000_111),
        group_epoch: None,
    };
    let import = client.import_own_device_history_bundle(
        &envelope("source_device_sync", "target_device_sync"),
        bundle("source_device_sync", "target_device_sync", vec![message], Vec::new()),
    );
    let response = import.outcome?;
    assert_eq!(response.imported_messages, 1);
    let imported = listed(&import.writes, "msg_sync_original_time")
        .ok_or_else(|| SdkError::LocalBus("imported message missing".to_owned()))?;
    assert_eq!(imported.created_at, 1_760_000_111);
    Ok(())
}

fn group_snapshot() -> SdkOwnDeviceGroupSnapshot {
    SdkOwnDeviceGroupSnapshot {
        group_id: "group_sync".to_owned(),
        group_epoch: 2,
        max_members: 64,
        new_member_history: "none".to_owned(),
        local_role: "member".to_owned(),
        local_joined_epoch: 2,
        members: vec![SdkOwnDeviceGroupMemberSnapshot {
            member_id: "target_device_sync".to_owned(),
            role: "member".to_owned(),
            joined_epoch: 2,
        }],
        routes: Vec::new(),
    }
}

fn group_message(message_id: &str, group_key_epoch: u64) -> BundledMessage {
    let parsed = SdkGroupEncryptedEnvelope {
        schema: "ramflux.sdk.group_sender_key.message.v1".to_owned(),
        version: 1,
        group_id: "group_sync".to_owned(),
        sender_id: "source_device_sync".to_owned(),
        group_key_epoch,
        ciphertext: ciphertext("group_sync", b"old"),
    };
    BundledMessage {
        record: record("conv_sync_group", message_id, 1_760_000_010),
        group_epoch: group_message_epoch(Some(parsed)),
    }
}

#[test]
fn own_device_history_import_rejects_group_message_below_joined_epoch() -> Result<(), SdkError> {
    let client = client_with_account("principal_sync", "target_device_sync");
    let import = client.import_own_device_history_bundle(
        &envelope("source_device_sync", "target_device_sync"),
        bundle(
            "source_device_sync",
            "target_device_sync",
            vec![group_message("msg_sync_before_join", 1)],
            vec![group_snapshot()],
        ),
    );
    let Err(error) = import.outcome else {
        return Err(SdkError::LocalBus("old group message imported".to_owned()));
    };
    assert!(error.message().contains("below joined epoch"));
    assert!(listed(&import.writes, "msg_sync_before_join").is_none());
    Ok(())
}

#[test]
fn histories_are_taken_in_part_by_part() {
    let client = client_with_account("principal_sync", "target");
    let mut history = bundle(
        "source",
        "target",
        vec![
            BundledMessage { record: record("c", "dm", 1), group_epoch: None },
            group_message("readable", 2),
        ],
        vec![group_snapshot()],
    );
    history.groups[0].routes.push(LocalBusGroupMemberRoute {
        member_id: "bob".to_owned(),
        device_signing_public_key: None,
    });
    history.dm_sessions.push(SdkOwnDeviceDmSessionSnapshot {
        conversation_id: "c".to_owned(),
        direction: "recv".to_owned(),
        snapshot: vec![1],
    });
    history.sender_key_distributions_base64.push("a2V5".to_owned());
    let import = client.import_own_device_history_bundle(&envelope("source", "target"), history);
    assert_eq!(import.writes.len(), 7);
    assert!(matches!(
        &import.writes[0],
        HistoryWrite::Membership { member_id, joined_epoch: 2, .. } if member_id == "target"
    ));
    assert!(matches!(&import.writes[1], HistoryWrite::Member { .. }));
    assert!(matches!(&import.writes[2], HistoryWrite::Route { .. }));
    assert!(matches!(
        &import.writes[3],
        HistoryWrite::Session { envelope_id, .. } if envelope_id == "own-device-sync:snapshot_sync"
    ));
    assert!(matches!(&import.writes[4], HistoryWrite::Message(m) if m.message_id == "dm"));
    assert!(matches!(&import.writes[5], HistoryWrite::Message(m) if m.message_id == "readable"));
    assert_eq!(import.writes[6], HistoryWrite::SenderKey("a2V5".to_owned()));
    assert!(matches!(
        import.outcome,
        Ok(counts) if (counts.imported_messages, counts.imported_dm_sessions) == (2, 1)
            && (counts.imported_groups, counts.imported_sender_keys) == (1, 1)
    ));
}

#[test]
fn histories_that_were_not_announced_are_refused() {
    let outcome = |client: RamfluxClient, history: SdkOwnDeviceHistoryBundle| {
        let import =
            client.import_own_device_history_bundle(&envelope("source", "target"), history);
        assert!(import.writes.is_empty());
        import.outcome.map(|_| ())
    };
    let client = || client_with_account("principal_sync", "target");
    let history = || bundle("source", "target", vec![], vec![group_snapshot()]);
    let refused = |words: &str| Err(SdkError::LocalBus(words.to_owned()));
    let mut other = history();
    other.snapshot_id = "another".to_owned();
    assert_eq!(outcome(client(), other), refused("own-device sync bundle binding mismatch"));
    assert_eq!(
        outcome(client_with_account("principal_sync", "third"), history()),
        refused("own-device sync bundle target mismatch")
    );
    assert_eq!(
        outcome(RamfluxClient::new(), history()),
        Err(SdkError::IdentityRootMissing)
    );
    let mut locked = RamfluxClient::new();
    locked.create_device_branch(branch("principal_sync", "target"));
    assert_eq!(outcome(locked, history()), Err(SdkError::AccountDbNotUnlocked));
}

#[test]
fn keys_alone_are_taken_in_by_a_locked_client() {
    let mut locked = RamfluxClient::new();
    locked.create_device_branch(branch("principal_sync", "target"));
    let mut history = bundle("source", "target", vec![], vec![]);
    history.sender_key_distributions_base64.push("a2V5".to_owned());
    let import = locked.import_own_device_history_bundle(&envelope("source", "target"), history);
    assert_eq!(import.writes, vec![HistoryWrite::SenderKey("a2V5".to_owned())]);
    assert!(matches!(
        import.outcome,
        Ok(counts) if (counts.imported_messages, counts.imported_sender_keys) == (0, 1)
    ));
    // With a message before it, nothing is handed out.
    let message = BundledMessage { record: record("c", "dm", 1), group_epoch: None };
    let mut history = bundle("source", "target", vec![message], vec![]);
    history.sender_key_distributions_base64.push("a2V5".to_owned());
    let import = locked.import_own_device_history_bundle(&envelope("source", "target"), history);
    assert!(import.writes.is_empty());
    assert_eq!(import.outcome.map(|_| ()), Err(SdkError::AccountDbNotUnlocked));
}

#[test]
fn keys_of_a_history_stand_for_bytes() {
    assert_eq!(history_sender_key(Ok(vec![1, 2])), Ok(vec![1, 2]));
    assert_eq!(
        history_sender_key(Err("bad text".to_owned())),
        Err(SdkError::LocalBus("invalid own-device sender key: bad text".to_owned()))
    );
}

fn device(device_id: &str, commitment: &str) -> CheckedDevice {
    CheckedDevice {
        device: SdkMvp1DeviceManifestDevice {
            principal_id: "p".to_owned(),
            principal_commitment: commitment.to_owned(),
            device_id: device_id.to_owned(),
            device_epoch: 1,
            branch_public_key: format!("key of {device_id}"),
            target_delivery_id: "t".to_owned(),
            branch_proof: BranchProofDocument {
                principal_id: "p".to_owned(),
                device_id: device_id.to_owned(),
                device_epoch: 1,
            },
            prekey_bundle: PrekeyBundle {
                device_id: device_id.to_owned(),
                device_epoch: 1,
                identity_key: [0; 32],
                signed_prekey_id: "s".to_owned(),
                signed_prekey: [0; 32],
                one_time_prekey_id: None,
            },
            branch_authorized_event_id: "e".to_owned(),
        },
        branch_proof: CheckOutcome::Passed,
        branch_key: CheckOutcome::Passed,
        prekey: CheckOutcome::Passed,
    }
}

fn announcement() -> SdkOwnDeviceSyncEnvelope {
    let slot = own_device_sync_slot_conversation_id("snap", "object_sync", "target");
    own_device_sync_envelope_to_sign(
        "commitment",
        "source",
        "target",
        "snap",
        "nonce".to_owned(),
        history_ref(&slot, "target"),
        100,
    )
}

#[test]
fn announcements_hold_for_an_hour_and_for_their_target() {
    let client = client_with_account("p", "target");
    let verify = |envelope: &SdkOwnDeviceSyncEnvelope, now: i64| {
        client.verify_own_device_sync_envelope("commitment", envelope, now)
    };
    let refused = |words: &str| Err(SdkError::LocalBus(words.to_owned()));
    assert_eq!(announcement().expires_at, 3700);
    assert_eq!(verify(&announcement(), 3700), Ok(()));
    assert_eq!(verify(&announcement(), 3701), refused("own-device sync envelope expired"));
    let mut other = announcement();
    other.schema = "x".to_owned();
    assert_eq!(verify(&other, 100), refused("unsupported own-device sync schema: x"));
    let mut other = announcement();
    other.principal_commitment = "x".to_owned();
    assert_eq!(verify(&other, 100), refused("own-device sync local principal mismatch"));
    let mut other = announcement();
    other.target_device_id = "x".to_owned();
    assert_eq!(verify(&other, 100), refused("own-device sync target device mismatch"));
    let mut other = announcement();
    other.history_ref.key_slot.recipient_device_id = "x".to_owned();
    assert_eq!(verify(&other, 100), refused("own-device sync key slot target mismatch"));
    let mut other = announcement();
    other.history_ref.key_slot.object_id = "x".to_owned();
    assert_eq!(verify(&other, 100), refused("own-device sync key slot object mismatch"));
    let mut other = announcement();
    other.history_ref.key_slot.conversation_id = "x".to_owned();
    assert_eq!(verify(&other, 100), refused("own-device sync key slot conversation mismatch"));
    assert_eq!(
        RamfluxClient::new().verify_own_device_sync_envelope("commitment", &announcement(), 100),
        Err(SdkError::IdentityRootMissing)
    );
}

#[test]
fn announcements_are_signed_by_their_source() {
    let both = vec![device("source", "commitment"), device("target", "commitment")];
    let refused = |words: &str| Err(SdkError::LocalBus(words.to_owned()));
    assert_eq!(
        own_device_sync_signer(&announcement(), &both),
        Ok("key of source".to_owned())
    );
    assert_eq!(
        own_device_sync_signer(&announcement(), &vec![device("target", "commitment")]),
        refused("own-device sync source source is not in verified manifest")
    );
    assert_eq!(
        own_device_sync_signer(&announcement(), &vec![device("source", "commitment")]),
        refused("own-device sync target target is not in verified manifest")
    );
    assert_eq!(
        own_device_sync_signer(
            &announcement(),
            &vec![device("source", "commitment"), device("target", "other")]
        ),
        refused("own-device sync manifest principal mismatch")
    );
    let mut other = announcement();
    other.signed.signing_key_id = "device:target".to_owned();
    assert_eq!(
        own_device_sync_signer(&other, &both),
        refused("own-device sync signing key id mismatch")
    );
    let announced = announcement();
    let body = own_device_sync_signing_body(&announced);
    assert_eq!(body.snapshot_id, "snap");
    assert_eq!(body.key_slot_recipient_device_id, "target");
    assert_eq!(check_same_principal("a", "a"), Ok(()));
    assert_eq!(
        check_same_principal("a", "b"),
        Err(SdkError::LocalBus("own-device sync principal mismatch".to_owned()))
    );
}

#[test]
fn histories_are_named_and_carried() {
    assert_eq!(own_sync_snapshot_id("s", "t", -5), "own-sync:s:t:-5");
    assert_eq!(own_sync_object_id("snap"), "own-device-sync:snap");
    let message = own_sync_slot_message("snap", "o", "p", "s", "t", "target".to_owned(), 8);
    assert_eq!(message.message_id, "own-device.sync.slot:snap");
    assert_eq!(message.envelope_id, message.message_id);
    assert_eq!(
        message.conversation_id,
        own_device_sync_slot_conversation_id("snap", "o", "t")
    );
    assert_eq!((message.created_at, message.ttl), (8, 3600));
}

#[test]
fn only_readable_messages_are_handed_over() {
    let history = own_device_history_bundle(
        "c",
        "s",
        "t",
        "snap",
        vec![
            group_message("old", 1),
            group_message("new", 2),
            BundledMessage { record: record("c", "dm", 1), group_epoch: None },
        ],
        vec![group_snapshot()],
    );
    let kept: Vec<&str> =
        history.messages.iter().map(|message| message.record.message_id.as_str()).collect();
    assert_eq!(kept, vec!["new", "dm"]);
    let mut foreign = group_message("foreign", 9);
    foreign.group_epoch = Some(("another_group".to_owned(), 9));
    let history =
        own_device_history_bundle("c", "s", "t", "snap", vec![foreign], vec![group_snapshot()]);
    assert!(history.messages.is_empty());
}

#[test]
fn conversations_come_once_and_in_order() {
    let messages: Vec<BundledMessage> = ["b", "a", "b", "ab"]
        .iter()
        .map(|name| BundledMessage { record: record(name, "m", 1), group_epoch: None })
        .collect();
    assert_eq!(conversations_of(&messages), vec!["a", "ab", "b"]);
    let mut names = vec!["a".to_owned(), "c".to_owned()];
    insert_name(&mut names, "b");
    insert_name(&mut names, "b");
    assert_eq!(names, vec!["a", "b", "c"]);
    assert!(text_before("a", "ab"));
    assert!(!text_before("b", "ab"));
    assert!(!text_before("a", "a"));
}

#[test]
fn sessions_and_groups_are_handed_over_as_found() {
    let found = |direction: &str, snapshot: Option<Vec<u8>>| FoundSession {
        conversation_id: "c".to_owned(),
        direction: direction.to_owned(),
        snapshot,
    };
    let sessions =
        own_device_dm_session_snapshots(vec![found("send", None), found("recv", Some(vec![3]))]);
    assert_eq!(sessions.len(), 1);
    assert_eq!(sessions[0].direction, "recv");
    let reading = GroupReading {
        group: GroupState {
            group_id: "g".to_owned(),
            group_epoch: 5,
            members: vec!["a".to_owned(), "b".to_owned(), "c".to_owned()],
            roles: vec![
                ("a".to_owned(), "owner".to_owned()),
                ("b".to_owned(), "member".to_owned()),
            ],
            max_members: 8,
            new_member_history: "none".to_owned(),
        },
        local_joined_epoch: Some(4),
        member_joined_epochs: vec![Some(1), None, Some(3)],
        routes: vec![],
    };
    let Some(snapshot) = own_device_group_snapshot(reading.clone(), "a") else {
        panic!("the device is a member");
    };
    assert_eq!((snapshot.local_role.as_str(), snapshot.local_joined_epoch), ("owner", 4));
    assert_eq!(snapshot.members.len(), 1);
    assert_eq!(own_device_group_snapshot(reading.clone(), "stranger"), None);
    let unknown = GroupReading { local_joined_epoch: None, ..reading.clone() };
    let all = own_device_group_snapshots(vec![unknown.clone(), reading, unknown.clone()], "a");
    assert_eq!(all, vec![snapshot.clone()]);
    assert_eq!(own_device_group_snapshot(unknown, "a"), None);
    let key = |seed: u8| Some(MemberSenderKey { seed: [seed; 32], signing_public_key: None });
    let members = vec!["a".to_owned(), "b".to_owned(), "c".to_owned()];
    let keys =
        member_sender_key_distributions(&snapshot, &members, vec![key(1), key(2), None], "a");
    assert_eq!(keys.len(), 1);
    assert_eq!((keys[0].sender_id.as_str(), keys[0].group_key_epoch), ("b", 5));
    assert_eq!(keys[0].sender_key_seed, [2; 32]);
}

fn distribution(sender_id: &str) -> SdkGroupSenderKeyDistribution {
    SdkGroupSenderKeyDistribution {
        schema: "ramflux.sdk.group_sender_key.distribution.v1".to_owned(),
        version: 1,
        group_id: "group_sync".to_owned(),
        sender_id: sender_id.to_owned(),
        group_key_epoch: 2,
        sender_key_seed: [1; 32],
        sender_device_signing_public_key: None,
    }
}

#[test]
fn keys_are_handed_over_group_by_group() {
    let failed = SdkError::Crypto("no key".to_owned());
    let reading = |members: &[&str], own: Result<SdkGroupSenderKeyDistribution, SdkError>| {
        GroupKeysReading {
            members: members.iter().map(|&member| member.to_owned()).collect(),
            own,
            keys: members
                .iter()
                .map(|_| Some(MemberSenderKey { seed: [9; 32], signing_public_key: None }))
                .collect(),
        }
    };
    let groups = vec![group_snapshot(), group_snapshot()];
    let handed = own_device_sender_key_distributions(
        &groups,
        vec![
            reading(&["a", "b"], Ok(distribution("a"))),
            reading(&["c"], Err(failed.clone())),
        ],
        "a",
    );
    let senders: Vec<String> =
        handed.into_iter().flatten().map(|key| key.sender_id).collect();
    assert_eq!(senders, vec!["a", "b", "c"]);
    assert_eq!(
        own_device_sender_key_distributions(
            &groups,
            vec![reading(&["b"], Ok(distribution("a"))), reading(&["a"], Err(failed.clone()))],
            "a",
        ),
        Err(failed)
    );
}

#[test]
fn a_history_is_announced_when_all_else_is_done() {
    let mut export = HistoryExport::start();
    let mut steps = Vec::new();
    while export.step != ExportStep::Exported {
        steps.push(export.step);
        export.advance(true);
    }
    assert_eq!(
        steps,
        vec![
            ExportStep::CheckSource,
            ExportStep::CheckTarget,
            ExportStep::ComparePrincipals,
            ExportStep::ReadHistory,
            ExportStep::PutObject,
            ExportStep::Upload,
            ExportStep::OpenSession,
            ExportStep::EncryptKey,
            ExportStep::PersistSession,
            ExportStep::Announce,
        ]
    );
    assert!(export.announced);
    let mut failed = HistoryExport::start();
    for _ in 0..5 {
        failed.advance(true);
    }
    failed.advance(false);
    failed.advance(true);
    assert_eq!(failed.step, ExportStep::Stop);
    assert!(!failed.announced && !failed.uploaded);
}

#[test]
fn an_announcement_says_where_the_history_is() -> Result<(), SdkError> {
    let object = EncryptedObject {
        object_id: "own-device-sync:snap".to_owned(),
        manifest_hash: "m".to_owned(),
        nonce: "n".to_owned(),
        ciphertext: vec![0; 9],
        plaintext_hash: "p".to_owned(),
        tombstoned: false,
        backup_excluded: false,
    };
    let slot = history_ref("slot", "target").key_slot;
    let plan = ChunkPlan { chunk_size: 4, total_chunks: 3 };
    let said = own_sync_history_ref(&object, plan, "https://relay", slot.clone());
    assert_eq!(said.object_id, "own-device-sync:snap");
    assert_eq!((said.cipher_size, said.chunk_size, said.total_chunks), (9, 4, 3));
    assert_eq!(said.key_slot, slot);
    assert_eq!(said.access_grant, None);
    let client = client_with_account("p", "source");
    let kept = client.persist_own_sync_slot_session("slot", "o", b"session")?;
    assert!(matches!(
        kept.checkpoint,
        AccountDbRequest::SetProjectionCheckpoint { projection_name, last_event_id }
            if projection_name == "dm_session:slot:send"
                && last_event_id.ends_with("own-device-sync-slot:o")
    ));
    let history = bundle("s", "t", vec![], vec![])
        .with_sessions_and_keys(vec![], vec!["a2V5".to_owned()]);
    assert_eq!(history.sender_key_distributions_base64, vec!["a2V5"]);
    Ok(())
}

#[test]
fn a_history_is_fetched_when_its_announcement_is_verified() {
    let mut intake = HistoryIntake::start();
    let mut steps = vec![];
    while intake.step != IntakeStep::TakenIn {
        steps.push((intake.step, intake.verified));
        intake.advance(true);
    }
    assert_eq!(
        steps,
        vec![
            (IntakeStep::CheckAnnouncement, false),
            (IntakeStep::FetchManifest, false),
            (IntakeStep::FindSigner, false),
            (IntakeStep::VerifySignature, false),
            (IntakeStep::FetchObject, true),
            (IntakeStep::ReadHistory, true),
            (IntakeStep::TakeIn, true),
        ]
    );
    let mut refused = HistoryIntake::start();
    for succeeded in [true, true, true, false, true, true] {
        refused.advance(succeeded);
    }
    assert_eq!(refused.step, IntakeStep::Stop);
    assert!(!refused.verified && !refused.fetched);
}
