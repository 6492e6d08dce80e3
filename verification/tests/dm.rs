//! Direct messages: their envelopes, receipts, reports, sessions, and the order of their steps.
use std::collections::HashMap;

use ramflux_sdk::attachment_flow::{AttachmentImport, ImportStep};
use ramflux_sdk::client::a2i::{control_payload, A2iControlEvent};
use ramflux_sdk::client::account::read_cursor_checkpoint;
use ramflux_sdk::client::dm::{
    attachment_plaintext, decode_dm_attachment_body, franking_report_metadata_for_delivery, message_is_listed,
    ExcerptError, FrankingCommitment, FrankingOpening,
};
use ramflux_sdk::client::dm_session::{
    check_bootstrap_transcript, check_signed_prekey, fingerprint_checkpoints, load_dm_session,
    load_x3dh_private_state, needed_header, send_session_header, send_session_source,
    send_session_source_with_prekey_url, BootstrapMaterial, SendSessionSource,
};
use ramflux_sdk::client::federation::{
    federated_forward_request, federated_prekey_url, LocalBusContactFederatedRequest,
    LocalBusFederationRoute,
};
use ramflux_sdk::client::identity::{
    identity_seed_input, prekeys_to_publish, registration_proof_terms, signed_prekey_id,
    signed_prekey_seed_input, x3dh_private_state,
};
use ramflux_sdk::client::object::{decrypt_object_key_slot, object_key_slot};
use ramflux_sdk::client::state::{IdentityRoot, RamfluxClient};
use ramflux_sdk::contact::{contact_event_of_plaintext, ContactAction};
use ramflux_sdk::dm::{
    a2i_control_conversation_id, dm_associated_data, dm_attachment_envelope,
    dm_encrypted_envelope, dm_session_checkpoint_name, dm_session_event_id, gateway_ack,
    gateway_cursor_checkpoint_name, gateway_direct_message_envelope,
    gateway_receive_cursor_checkpoint_name, SdkDmFrankingMetadata, SdkFrankingEvidenceKind,
    SdkReceiptEventBody, SdkReceiptEventEnvelope, SdkReceivedFrankingMetadata,
};
use ramflux_sdk::dm_flow::{
    receive_terminal_recovery, ControlStep, DmReceive, DmSend, ReceiveEvent, ReceiveStep,
    ReceiveTerminalDecision, SendStep,
};
use ramflux_sdk::error::{SdkError, StorageError};
use ramflux_sdk::gateway::engine::GatewayDirectMessage;
use ramflux_sdk::gateway::helpers::resume_token_hash_input;
use ramflux_sdk::gateway::protocol::{
    Envelope, GatewayCursor, GatewayInboxEntry, GatewayQuicEndpointConfig, GatewaySessionConfig,
};
use ramflux_sdk::manifest::needed_manifest;
use ramflux_sdk::object::{
    grant_binding_input, owner_proof_binding_input, recipient_device_hash_input, DeviceBranch,
    DmCiphertext,
};
use ramflux_sdk::prekey::{
    identity_root_public_key_commitment, BranchProofDocument, PrekeyBundle,
    SdkMvp1IdentityRegistrationResponse,
};
use ramflux_sdk::records::{
    AccountDbRequest, DirectMessageRecord, EventWrite, FrankingReportMetadata, MessageMetadata,
};

fn branch() -> DeviceBranch {
    DeviceBranch {
        principal_id: "principal_alice".to_owned(),
        device_id: "alice_device".to_owned(),
        device_epoch: 1,
        public_key: "alice-key".to_owned(),
        device_hash: "alice-hash".to_owned(),
    }
}

fn unlocked() -> RamfluxClient {
    let mut client = RamfluxClient::new();
    client.open_account_index("/accounts".to_owned());
    client.create_device_branch(branch());
    client.account_unlocked("acct");
    client
}

/// The events and checkpoints of an account, as a database keeps them.
#[derive(Default)]
struct Kept {
    events: HashMap<String, Vec<u8>>,
    checkpoints: HashMap<String, String>,
}

impl Kept {
    /// An event whose name is taken is refused, unless it is the same.
    fn carry_out(&mut self, request: AccountDbRequest) -> Result<(), SdkError> {
        match request {
            AccountDbRequest::AppendEvent { event_id, body, .. } => {
                if self.events.get(&event_id).is_some_and(|kept| *kept != body) {
                    return Err(SdkError::Storage(StorageError::EventIdConflict(event_id)));
                }
                self.events.insert(event_id, body);
            }
            AccountDbRequest::SetProjectionCheckpoint { projection_name, last_event_id } => {
                self.checkpoints.insert(projection_name, last_event_id);
            }
            other => panic!("unexpected request {other:?}"),
        }
        Ok(())
    }

    fn keep(&mut self, write: EventWrite) -> Result<(), SdkError> {
        self.carry_out(write.event)?;
        self.carry_out(write.checkpoint)
    }

    fn checkpoint(&self, request: AccountDbRequest) -> Option<String> {
        match request {
            AccountDbRequest::ProjectionCheckpoint { projection_name } => {
                self.checkpoints.get(&projection_name).cloned()
            }
            other => panic!("unexpected request {other:?}"),
        }
    }

    fn event(&self, event_id: &Option<String>) -> Option<Vec<u8>> {
        event_id.as_ref().and_then(|event_id| self.events.get(event_id).cloned())
    }
}

fn test_gateway_config() -> GatewaySessionConfig {
    GatewaySessionConfig::quic(
        GatewayQuicEndpointConfig {
            bind_addr: "127.0.0.1:0".to_owned(),
            gateway_addr: "127.0.0.1:443".to_owned(),
            server_name: "gateway.test".to_owned(),
            ca_cert: "ca.pem".to_owned(),
            principal_id: "principal_alice".to_owned(),
            device_id: "alice_device".to_owned(),
            target_delivery_id: "target_alice".to_owned(),
            prekey_http_url: None,
        },
        0,
    )
}

fn test_message(encrypted_body: Vec<u8>) -> GatewayDirectMessage {
    GatewayDirectMessage {
        conversation_id: "conv_franking".to_owned(),
        message_id: "msg_franking".to_owned(),
        envelope_id: "env_franking".to_owned(),
        source_principal_id: "principal_alice".to_owned(),
        sender_id: "alice_device".to_owned(),
        recipient_device_id: Some("bob_device".to_owned()),
        target_delivery_id: "target_bob".to_owned(),
        encrypted_body,
        created_at: 1_900_000_000,
        ttl: 60,
    }
}

fn ciphertext() -> DmCiphertext {
    DmCiphertext {
        session_id: "session".to_owned(),
        counter: 0,
        nonce: [0; 12],
        ciphertext: b"hello dm".to_vec(),
        ratchet_public_key: None,
        previous_chain_length: 0,
        sender_device_id_hash: [1; 32],
        recipient_device_id_hash: [2; 32],
        device_epoch: 1,
        message_event_id: "event".to_owned(),
        canonical_header_bytes: vec![9],
        header_hash: "header-hash".to_owned(),
        key_commitment: "key-commitment".to_owned(),
        franking_commitment: "franking-commitment".to_owned(),
        commitment: "commitment".to_owned(),
        ciphertext_hash: "ciphertext-hash".to_owned(),
    }
}

fn envelope(franking: Option<SdkDmFrankingMetadata>) -> Envelope {
    gateway_direct_message_envelope(
        &test_gateway_config(),
        &test_message(b"already-encrypted".to_vec()),
        "payload".to_owned(),
        "payload-hash".to_owned(),
        franking,
    )
    .with_signature("signature".to_owned())
}

fn entry() -> GatewayInboxEntry {
    GatewayInboxEntry {
        inbox_seq: 7,
        target_delivery_id: "target_bob".to_owned(),
        envelope: envelope(None),
    }
}

#[test]
fn gateway_dm_envelope_surfaces_franking_metadata_from_ciphertext() -> Result<(), SdkError> {
    let ciphertext = ciphertext();
    let wrapped = dm_encrypted_envelope(None, ciphertext.clone());
    assert_eq!(wrapped.schema, "ramflux.sdk.dm_x3dh_envelope.v1");
    let franking = SdkDmFrankingMetadata::from_ciphertext(&ciphertext, "sender-hash-text");
    let envelope = envelope(Some(franking));
    let Some(franking_value) = &envelope.franking else {
        return Err(SdkError::LocalBus("franking metadata missing from envelope".to_owned()));
    };
    assert_eq!(franking_value.sender_device_id_hash, "sender-hash-text");
    assert_eq!(franking_value.message_event_id, ciphertext.message_event_id);
    assert_eq!(franking_value.commitment, ciphertext.commitment);
    assert_eq!(franking_value.ciphertext_hash, ciphertext.ciphertext_hash);
    assert!(!envelope.signed.signature.is_empty());
    Ok(())
}

#[test]
fn gateway_dm_envelope_omits_franking_metadata_when_not_supplied() {
    let envelope = envelope(None);
    assert!(envelope.franking.is_none());
    assert_eq!(envelope.envelope_id, "env_franking");
    assert_eq!(envelope.source_device_id, "alice_device");
    assert_eq!(envelope.target_delivery_id, "target_bob");
    assert_eq!((envelope.ttl, envelope.created_at), (60, 1_900_000_000));
    assert_eq!(envelope.payload_hash, "payload-hash");
}

fn receipt(event: SdkReceiptEventBody) -> SdkReceiptEventEnvelope {
    SdkReceiptEventEnvelope {
        schema: "ramflux.sdk.receipt_event.v1".to_owned(),
        version: 1,
        receipt_id: "receipt_read_test".to_owned(),
        event_seq: 7,
        nonce: "nonce".to_owned(),
        reader_device_id: "reader_device".to_owned(),
        event,
    }
}

fn read_private() -> SdkReceiptEventBody {
    SdkReceiptEventBody::ReadPrivate {
        conversation_id: "conv".to_owned(),
        message_id: "msg".to_owned(),
        reader_identity: "reader_device".to_owned(),
        read_at: 1_900_000_000,
        own_device_scope: "e2ee_private".to_owned(),
    }
}

fn delivered(receiver: &str) -> SdkReceiptEventBody {
    SdkReceiptEventBody::Delivered {
        conversation_id: "conv".to_owned(),
        message_id: "msg".to_owned(),
        delivered_at: 5,
        receiver_device_id: receiver.to_owned(),
        scope: "scope".to_owned(),
        ttl_seconds: 60,
    }
}

#[test]
fn read_receipts_mark_their_message_once() -> Result<(), SdkError> {
    let client = unlocked();
    let parsed = Some(receipt(read_private()));
    let plan = client.apply_receipt_event_plaintext(&parsed, "reader_device")?;
    let plan = plan.ok_or_else(|| SdkError::LocalBus("the receipt is one".to_owned()))?;
    assert_eq!(plan.write.receipt_type, "read");
    assert_eq!(plan.write.actor_device_id, "reader_device");
    assert_eq!(plan.write.created_at, 1_900_000_000);
    assert_eq!(plan.clone().marked(false), None);
    assert_eq!(
        plan.marked(true),
        Some(AccountDbRequest::MarkRead {
            conversation_id: "conv".to_owned(),
            reader_id: "reader_device".to_owned(),
            message_id: "msg".to_owned()
        })
    );
    let parsed = Some(receipt(delivered("reader_device")));
    let plan = client.apply_receipt_event_plaintext(&parsed, "reader_device")?;
    assert_eq!(plan.map(|plan| plan.write.receipt_type), Some("delivered".to_owned()));
    Ok(())
}

#[test]
fn receipts_in_the_name_of_another_are_refused() {
    let client = unlocked();
    let refused = |words: &str| Err(SdkError::LocalBus(words.to_owned()));
    assert_eq!(
        client.apply_receipt_event_plaintext(&Some(receipt(read_private())), "mallory"),
        refused("receipt reader_device_id mismatch: claimed reader_device, authenticated mallory")
    );
    assert_eq!(
        client.apply_receipt_event_plaintext(&Some(receipt(delivered("bob"))), "reader_device"),
        refused("receipt receiver_device_id mismatch: claimed bob, authenticated reader_device")
    );
    let public = SdkReceiptEventBody::ReadPublic {
        conversation_id: "conv".to_owned(),
        message_id: "msg".to_owned(),
        reader_identity: "reader_device".to_owned(),
        read_at: 1,
        visibility_scope: "all".to_owned(),
        ttl_seconds: 1,
    };
    assert_eq!(
        client.apply_receipt_event_plaintext(&Some(receipt(public)), "reader_device"),
        refused("public read receipts are not accepted on the E2EE receipt path")
    );
    assert_eq!(client.apply_receipt_event_plaintext(&None, "reader_device"), Ok(None));
    let mut other = receipt(read_private());
    other.schema = "another".to_owned();
    assert_eq!(client.apply_receipt_event_plaintext(&Some(other), "mallory"), Ok(None));
    assert_eq!(
        RamfluxClient::new()
            .apply_receipt_event_plaintext(&Some(receipt(read_private())), "reader_device"),
        Err(SdkError::AccountDbNotUnlocked)
    );
}

fn report() -> FrankingReportMetadata {
    FrankingReportMetadata {
        node_id: "localhost".to_owned(),
        envelope_id: "env_report".to_owned(),
        plaintext_base64: "c2VsZWN0ZWQgcmVwb3J0IHRleHQ".to_owned(),
        opening_key: "opening".to_owned(),
        commitment_key: "commitment-key".to_owned(),
        sender_device_id_hash: "sender-hash".to_owned(),
        msg_event_id: "msg-event".to_owned(),
        canonical_header_bytes: "header".to_owned(),
        associated_data: "ad".to_owned(),
        ciphertext: "ciphertext".to_owned(),
        header_hash: "header-hash".to_owned(),
        associated_data_hash: "ad-hash".to_owned(),
        ciphertext_hash: "ciphertext-hash".to_owned(),
        franking_commitment: "franking-commitment".to_owned(),
        commitment: "commitment".to_owned(),
        franking_tag: "node-tag".to_owned(),
        franking_timestamp: 1_760_001_234_567,
    }
}

fn stored(franking_report: Option<FrankingReportMetadata>) -> DirectMessageRecord {
    DirectMessageRecord {
        conversation_id: "conv_report".to_owned(),
        message_id: "msg_report".to_owned(),
        sender_id: "alice".to_owned(),
        encrypted_body: b"selected report text".to_vec(),
        metadata: MessageMetadata { franking_report },
        deleted: false,
        created_at: 1,
    }
}

#[test]
fn selected_franking_evidence_is_built_from_stored_message_metadata() -> Result<(), SdkError> {
    let client = unlocked();
    let request = client.send_direct_message_with_metadata(
        "conv_report",
        "msg_report",
        "alice",
        b"selected report text",
        MessageMetadata { franking_report: Some(report()) },
    )?;
    let AccountDbRequest::SendDirectMessageWithMetadata {
        conversation_id,
        message_id,
        sender_id,
        encrypted_body,
        metadata,
    } = request
    else {
        return Err(SdkError::LocalBus("the message is recorded".to_owned()));
    };
    let message = DirectMessageRecord {
        conversation_id,
        message_id,
        sender_id,
        encrypted_body,
        metadata,
        deleted: false,
        created_at: 1,
    };
    let evidence = client.selected_franking_evidence_for_direct_message(
        "conv_report",
        "msg_report",
        Some(message),
        Ok("selected report text".to_owned()),
    )?;
    assert_eq!(evidence.evidence_kind, SdkFrankingEvidenceKind::ReceiverAttestedDm);
    assert_eq!(evidence.node_id, "localhost");
    assert_eq!(evidence.envelope_id, "env_report");
    assert_eq!(evidence.plaintext_excerpt, "selected report text");
    assert_eq!(evidence.franking_tag, "node-tag");
    assert_eq!(evidence.franking_timestamp, 1_760_001_234_567);
    Ok(())
}

#[test]
fn evidence_needs_its_message() {
    let client = unlocked();
    let ask = |message: Option<DirectMessageRecord>, plaintext: Result<String, ExcerptError>| {
        client
            .selected_franking_evidence_for_direct_message(
                "conv_report",
                "msg_report",
                message,
                plaintext,
            )
            .map(|_| ())
    };
    let refused = |words: &str| Err(SdkError::LocalBus(words.to_owned()));
    let text = || Ok("text".to_owned());
    assert_eq!(ask(None, text()), refused("message not found: msg_report"));
    let mut elsewhere = stored(Some(report()));
    elsewhere.conversation_id = "conv_other".to_owned();
    assert_eq!(
        ask(Some(elsewhere), text()),
        refused("message msg_report is not in conversation conv_report")
    );
    assert_eq!(
        ask(Some(stored(None)), text()),
        refused("message has no stored franking evidence: msg_report")
    );
    assert_eq!(
        ask(Some(stored(Some(report()))), Err(ExcerptError::NotBase64("x".to_owned()))),
        refused("invalid stored plaintext: x")
    );
    assert_eq!(
        ask(Some(stored(Some(report()))), Err(ExcerptError::NotUtf8("y".to_owned()))),
        refused("stored plaintext is not UTF-8 evidence: y")
    );
}

fn stated(commitment: &str) -> SdkReceivedFrankingMetadata {
    SdkReceivedFrankingMetadata {
        sender_device_id_hash: "sender-hash-text".to_owned(),
        message_event_id: "event".to_owned(),
        commitment: commitment.to_owned(),
        ciphertext_hash: "ciphertext-hash".to_owned(),
        franking_tag: "tag".to_owned(),
        node_id: "node".to_owned(),
        accepted_at: 3,
    }
}

#[test]
fn reports_are_kept_of_what_the_node_has_stated() -> Result<(), SdkError> {
    let opening = FrankingOpening {
        plaintext: "plain".to_owned(),
        opening_key: "opening".to_owned(),
        commitment_key: "key".to_owned(),
        canonical_header_bytes: "header".to_owned(),
        associated_data: "ad".to_owned(),
        ciphertext: "cipher".to_owned(),
    };
    let computed = FrankingCommitment {
        header_hash: "hh".to_owned(),
        associated_data_hash: "ah".to_owned(),
        ciphertext_hash: "ch".to_owned(),
        franking_commitment: "fc".to_owned(),
        commitment: "c".to_owned(),
    };
    let held = SdkDmFrankingMetadata::from_ciphertext(&ciphertext(), "sender-hash-text");
    let keep = |value: Option<&serde_json::Value>,
                parsed: Result<SdkReceivedFrankingMetadata, SdkError>| {
        franking_report_metadata_for_delivery(
            value,
            parsed,
            &held,
            "env".to_owned(),
            opening.clone(),
            computed.clone(),
        )
    };
    let json = |text: &str| serde_json::from_str::<serde_json::Value>(text).unwrap_or_default();
    let whole = json(r#"{"franking_tag":"tag","node_id":"node","accepted_at":3}"#);
    let kept = keep(Some(&whole), Ok(stated("commitment")))?;
    let kept = kept.and_then(|metadata| metadata.franking_report);
    let kept = kept.ok_or_else(|| SdkError::LocalBus("a report is kept".to_owned()))?;
    assert_eq!(kept.node_id, "node");
    assert_eq!(kept.franking_timestamp, 3);
    assert_eq!(kept.envelope_id, "env");
    assert_eq!(kept.header_hash, "hh");
    let partial = json(r#"{"franking_tag":"tag","node_id":"node"}"#);
    assert_eq!(keep(Some(&partial), Ok(stated("commitment"))), Ok(None));
    assert_eq!(keep(None, Ok(stated("commitment"))), Ok(None));
    assert_eq!(
        keep(Some(&whole), Ok(stated("forged"))),
        Err(SdkError::LocalBus(
            "received franking metadata does not match DM ciphertext".to_owned()
        ))
    );
    assert_eq!(
        keep(Some(&whole), Err(SdkError::Json("bad".to_owned()))),
        Err(SdkError::Json("bad".to_owned()))
    );
    Ok(())
}

/// Stands in for a ratcheted session, which is kept as text.
#[derive(Clone, Debug, PartialEq)]
struct Session {
    session_id: String,
    send_counter: u64,
    receive_counter: u64,
}

fn seed_session(tag: u8) -> Session {
    Session { session_id: format!("session-{tag}"), send_counter: 0, receive_counter: 0 }
}

impl Session {
    fn snapshot(&self) -> Vec<u8> {
        format!("{}/{}/{}", self.session_id, self.send_counter, self.receive_counter).into_bytes()
    }

    fn from_snapshot(snapshot: &[u8]) -> Session {
        let text = String::from_utf8_lossy(snapshot).into_owned();
        let parts: Vec<&str> = text.split('/').collect();
        Session {
            session_id: parts[0].to_owned(),
            send_counter: parts[1].parse().unwrap_or(u64::MAX),
            receive_counter: parts[2].parse().unwrap_or(u64::MAX),
        }
    }

    fn encrypt(&mut self) {
        self.send_counter += 1;
    }
}

fn reload(
    client: &RamfluxClient,
    kept: &Kept,
    conversation_id: &str,
    direction: &str,
) -> Result<Session, SdkError> {
    let checkpoint = kept.checkpoint(client.dm_session_checkpoint(conversation_id, direction)?);
    let found = kept.event(&checkpoint);
    let snapshot = load_dm_session(conversation_id, direction, checkpoint, found)?;
    Ok(Session::from_snapshot(&snapshot))
}

#[test]
fn dm_session_reappend_with_changed_snapshot_is_rejected_fail_closed() -> Result<(), SdkError> {
    let mut kept = Kept::default();
    let client = unlocked();
    let first = seed_session(1);
    kept.keep(client.persist_dm_session_snapshot("conv_x", "env_1", "recv", &first.snapshot())?)?;
    let checkpoint = kept.checkpoint(client.dm_session_checkpoint("conv_x", "recv")?);
    assert!(client.recv_session_checkpoint_at("conv_x", "env_1", &checkpoint)?);

    // Resume re-persists the same coordinates (a different in-memory session value, same id).
    let replay = seed_session(9);
    let redo = client.persist_dm_session_snapshot("conv_x", "env_1", "recv", &replay.snapshot());
    let redo = redo.and_then(|write| kept.keep(write));
    assert!(
        matches!(
            redo,
            Err(SdkError::Storage(StorageError::EventIdConflict(ref event_id)))
                if event_id == &dm_session_event_id("conv_x", "recv", "env_1")
        ),
        "same event id with a changed snapshot must fail closed; got {redo:?}"
    );

    // The originally-committed row must be unchanged (checkpoint still points at env_1).
    let checkpoint = kept.checkpoint(client.dm_session_checkpoint("conv_x", "recv")?);
    assert!(client.recv_session_checkpoint_at("conv_x", "env_1", &checkpoint)?);
    assert_eq!(reload(&client, &kept, "conv_x", "recv")?, first);
    // The same snapshot again is accepted.
    kept.keep(client.persist_dm_session_snapshot("conv_x", "env_1", "recv", &first.snapshot())?)
}

#[test]
fn dm_recv_session_and_cursor_survive_client_reopen() -> Result<(), SdkError> {
    let mut kept = Kept::default();
    let client = unlocked();
    let mut session = seed_session(1);
    // advance the receive ratchet a few steps so a non-zero counter must round-trip
    session.receive_counter = 7;
    let snapshot = session.snapshot();
    kept.keep(client.persist_dm_session_snapshot("conv_r", "env_r", "recv", &snapshot)?)?;
    kept.carry_out(client.persist_gateway_receive_cursor("target_r", 42)?)?;
    drop(client);

    let restored = unlocked();
    let loaded = reload(&restored, &kept, "conv_r", "recv")?;
    assert_eq!(loaded.receive_counter, 7, "recv ratchet counter must persist across reopen");
    assert_eq!(loaded.session_id, session.session_id, "session identity must persist");
    let cursor = kept.checkpoint(restored.gateway_receive_cursor("target_r")?);
    assert_eq!(
        read_cursor_checkpoint(cursor)?,
        42,
        "gateway receive cursor must persist across reopen"
    );

    // Recovery-decision boundary against the durable checkpoint.
    let checkpoint = kept.checkpoint(restored.dm_session_checkpoint("conv_r", "recv")?);
    assert!(restored.recv_session_checkpoint_at("conv_r", "env_r", &checkpoint)?);
    assert!(!restored.recv_session_checkpoint_at("conv_r", "env_other", &checkpoint)?);
    assert_eq!(
        receive_terminal_recovery(true, true),
        ReceiveTerminalDecision::CursorCatchUp
    );
    assert_eq!(
        receive_terminal_recovery(true, false),
        ReceiveTerminalDecision::Decrypt,
        "projection present but checkpoint not current must still re-decrypt"
    );
    Ok(())
}

#[test]
fn send_session_reopen_reloads_persisted_counter_not_inflight_advance() -> Result<(), SdkError> {
    let mut kept = Kept::default();
    let client = unlocked();
    let mut session = seed_session(1);
    session.encrypt(); // send_counter 0 -> 1
    let persisted_counter = session.send_counter;
    let snapshot = session.snapshot();
    kept.keep(client.persist_dm_session_snapshot("conv_s", "env_s0", "send", &snapshot)?)?;
    // "submitted but not persisted" next message advances the in-memory counter only.
    session.encrypt(); // -> 2, never persisted
    assert_eq!(session.send_counter, persisted_counter + 1);
    drop(client);

    let restored = unlocked();
    let reloaded = reload(&restored, &kept, "conv_s", "send")?;
    assert_eq!(
        reloaded.send_counter, persisted_counter,
        "reopen must reload the persisted counter, not the un-persisted in-flight advance"
    );
    assert_eq!(
        load_dm_session("conv_t", "send", None, None),
        Err(SdkError::LocalBus("missing DM session for conv_t direction send".to_owned()))
    );
    Ok(())
}

#[test]
fn decrypt_object_key_slot_defers_slot_session_commit_until_committed() -> Result<(), SdkError> {
    let mut kept = Kept::default();
    let client = unlocked();
    let object_id = "object_slot_defer";
    let slot_conversation_id = "conv_slot_defer";
    let recipient_device_id = "recipient_device_slot";
    let mut recipient = seed_session(9);
    kept.keep(client.persist_dm_session_snapshot(
        slot_conversation_id,
        "slot-bootstrap",
        "recv",
        &recipient.snapshot(),
    )?)?;

    let checkpoint = |kept: &Kept| -> Result<Option<String>, SdkError> {
        Ok(kept.checkpoint(client.dm_session_checkpoint(slot_conversation_id, "recv")?))
    };
    let before = checkpoint(&kept)?;

    let object_key = [7_u8; 32];
    let slot = object_key_slot(
        object_id.to_owned(),
        slot_conversation_id.to_owned(),
        recipient_device_id.to_owned(),
        None,
        ciphertext(),
    );
    assert_eq!(slot.schema, "ramflux.sdk.object_key_slot.dm.v1");

    // Decrypt advances the in-memory ratchet but must leave the persisted slot checkpoint alone.
    recipient.receive_counter += 1;
    let deferred = decrypt_object_key_slot(&slot, &object_key.to_vec())?;
    assert!(deferred.object_key == object_key, "deferred slot must decrypt to the object key");
    assert!(
        checkpoint(&kept)? == before,
        "decrypt must not move the slot recv checkpoint before commit",
    );

    // Commit moves the checkpoint to the object-slot event id, and only then.
    kept.keep(client.commit_object_key_slot_session(&deferred, &recipient.snapshot())?)?;
    let expected =
        dm_session_event_id(slot_conversation_id, "recv", &format!("object-slot:{object_id}"));
    assert_eq!(checkpoint(&kept)?, Some(expected));
    assert_eq!(reload(&client, &kept, slot_conversation_id, "recv")?.receive_counter, 1);
    Ok(())
}

#[test]
fn names_of_sessions_and_cursors_are_told_apart() -> Result<(), SdkError> {
    assert_eq!(dm_session_checkpoint_name("c", "recv"), "dm_session:c:recv");
    assert_ne!(dm_session_event_id("c", "recv", "e1"), dm_session_event_id("c", "recv", "e2"));
    assert_eq!(gateway_cursor_checkpoint_name("t"), "gateway_cursor:t");
    assert_eq!(gateway_receive_cursor_checkpoint_name("t"), "gateway_receive_cursor:t");
    assert_eq!(dm_associated_data("conv"), b"conv");
    let (main, slot) = fingerprint_checkpoints("c", "o", "d");
    assert_eq!(main, "dm_session:c:recv");
    assert_eq!(slot, "dm_session:dm.attachment.slot:c:o:d:recv");
    let fingerprint = unlocked().recv_commit_fingerprint(
        Some("event".to_owned()),
        None,
        Some("12".to_owned()),
    )?;
    assert_eq!(fingerprint.receive_cursor, 12);
    Ok(())
}

#[test]
fn a_message_is_taken_in_step_by_step() {
    let mut receive = DmReceive::start(true);
    let mut steps = Vec::new();
    loop {
        steps.push(receive.step);
        let event = match receive.step {
            ReceiveStep::LookUp => ReceiveEvent::LookedUp {
                projection_present: true,
                session_checkpoint_current: false,
            },
            ReceiveStep::ApplyReceipt => ReceiveEvent::Receipt { applied: false },
            ReceiveStep::CheckSender => ReceiveEvent::Sender { turned_away: false },
            ReceiveStep::DecodeBody => ReceiveEvent::Body { attachments: 2 },
            ReceiveStep::Deliver | ReceiveStep::Skip | ReceiveStep::Stop => break,
            _ => ReceiveEvent::Done,
        };
        receive.advance(event);
    }
    assert_eq!(
        steps,
        vec![
            ReceiveStep::AppendDelivery,
            ReceiveStep::LookUp,
            ReceiveStep::Decrypt,
            ReceiveStep::ApplyContactEvent,
            ReceiveStep::ApplyReceipt,
            ReceiveStep::CheckSender,
            ReceiveStep::DecodeBody,
            ReceiveStep::ImportAttachment(0),
            ReceiveStep::ImportAttachment(1),
            ReceiveStep::AppendProjection,
            ReceiveStep::CommitSession,
            ReceiveStep::PersistCursor,
            ReceiveStep::Deliver,
        ]
    );
    assert!(receive.session_committed && receive.cursor_persisted);
}

#[test]
fn a_failed_attachment_keeps_session_and_cursor() {
    let mut receive = DmReceive::start(true);
    for event in [
        ReceiveEvent::Done,
        ReceiveEvent::LookedUp { projection_present: false, session_checkpoint_current: false },
        ReceiveEvent::Done,
        ReceiveEvent::Done,
        ReceiveEvent::Receipt { applied: false },
        ReceiveEvent::Sender { turned_away: false },
        ReceiveEvent::Body { attachments: 1 },
        ReceiveEvent::Failed,
    ] {
        receive.advance(event);
    }
    assert_eq!(receive.step, ReceiveStep::Stop);
    receive.advance(ReceiveEvent::Done);
    assert!(!receive.session_committed && !receive.cursor_persisted);
}

#[test]
fn a_message_whose_session_is_kept_only_moves_the_cursor() {
    let mut receive = DmReceive::start(false);
    receive.advance(ReceiveEvent::Done);
    receive.advance(ReceiveEvent::LookedUp {
        projection_present: false,
        session_checkpoint_current: true,
    });
    assert_eq!(receive.step, ReceiveStep::PersistCursor);
    receive.advance(ReceiveEvent::Done);
    assert_eq!(receive.step, ReceiveStep::Skip);
}

#[test]
fn receipts_and_rejected_messages_are_not_handed_out() {
    for (applied, turned_away) in [(true, false), (false, true)] {
        let mut receive = DmReceive::start(true);
        receive.advance(ReceiveEvent::Done);
        receive.advance(ReceiveEvent::LookedUp {
            projection_present: false,
            session_checkpoint_current: false,
        });
        receive.advance(ReceiveEvent::Done);
        receive.advance(ReceiveEvent::Done);
        receive.advance(ReceiveEvent::Receipt { applied });
        if turned_away {
            receive.advance(ReceiveEvent::Sender { turned_away });
            assert_eq!(receive.step, ReceiveStep::RejectMessage);
            receive.advance(ReceiveEvent::Done);
        }
        assert_eq!(receive.step, ReceiveStep::CommitSession);
        receive.advance(ReceiveEvent::Done);
        receive.advance(ReceiveEvent::Done);
        assert_eq!(receive.step, ReceiveStep::Skip);
    }
}

#[test]
fn a_session_is_kept_before_anything_leaves() {
    let mut send = DmSend::start(true);
    let mut steps = Vec::new();
    while send.step != SendStep::Sent {
        steps.push(send.step);
        assert!(send.step != SendStep::Submit || send.session_persisted);
        send.advance(true);
    }
    assert_eq!(
        steps,
        vec![SendStep::Encrypt, SendStep::Project, SendStep::PersistSession, SendStep::Submit]
    );
    let mut send = DmSend::start(false);
    send.advance(true);
    assert_eq!(send.step, SendStep::PersistSession);
    send.advance(false);
    send.advance(true);
    assert_eq!(send.step, SendStep::Stop);
    let mut control = ControlStep::AppendDelivery;
    for expected in [
        ControlStep::Decrypt,
        ControlStep::ReadEvent,
        ControlStep::CommitSession,
        ControlStep::PersistCursor,
        ControlStep::Deliver,
    ] {
        control = control.advanced(true);
        assert_eq!(control, expected);
    }
    assert_eq!(ControlStep::ReadEvent.advanced(false), ControlStep::Stop);
    assert_eq!(ControlStep::Stop.advanced(true), ControlStep::Stop);
}

#[test]
fn an_attachment_is_acknowledged_once_it_is_kept() {
    let mut import = AttachmentImport::start(true, 2);
    let mut steps = Vec::new();
    while import.step != ImportStep::Imported {
        steps.push(import.step);
        import.advance(true);
    }
    assert_eq!(
        steps,
        vec![
            ImportStep::DecryptKey,
            ImportStep::ReadOptions,
            ImportStep::VerifyGrant,
            ImportStep::Download,
            ImportStep::CheckManifest,
            ImportStep::PersistObject,
            ImportStep::PersistTransfer,
            ImportStep::CheckPlaintext,
            ImportStep::Acknowledge(0),
            ImportStep::Acknowledge(1),
            ImportStep::CommitKeySession,
        ]
    );
    let mut failed = AttachmentImport::start(true, 2);
    for _ in 0..9 {
        failed.advance(true);
    }
    failed.advance(false);
    failed.advance(true);
    assert_eq!(failed.step, ImportStep::Stop);
    assert!(!failed.session_committed);
    let mut silent = AttachmentImport::start(false, 2);
    for _ in 0..8 {
        silent.advance(true);
    }
    assert_eq!(silent.step, ImportStep::CommitKeySession);
    assert_eq!(silent.acknowledged, 0);
    let mut ungranted = AttachmentImport::start(true, 2);
    ungranted.advance(true);
    ungranted.advance(true);
    assert_eq!(ungranted.step, ImportStep::VerifyGrant);
    ungranted.advance(false);
    ungranted.advance(true);
    assert_eq!((ungranted.step, ungranted.grant_verified), (ImportStep::Stop, false));
}

#[test]
fn a_sent_message_is_read_back() -> Result<(), SdkError> {
    let client = unlocked();
    let mut messages: Vec<DirectMessageRecord> = vec![stored(None)];
    let metadata = MessageMetadata { franking_report: Some(report()) };
    for request in [
        client.send_direct_message("conv", "m1", "alice_device", b"one")?,
        client.send_direct_message_with_metadata("conv", "m2", "alice_device", b"two", metadata)?,
    ] {
        let (conversation_id, message_id, sender_id, encrypted_body, metadata) = match request {
            AccountDbRequest::SendDirectMessage {
                conversation_id,
                message_id,
                sender_id,
                encrypted_body,
            } => {
                let metadata = MessageMetadata { franking_report: None };
                (conversation_id, message_id, sender_id, encrypted_body, metadata)
            }
            AccountDbRequest::SendDirectMessageWithMetadata {
                conversation_id,
                message_id,
                sender_id,
                encrypted_body,
                metadata,
            } => (conversation_id, message_id, sender_id, encrypted_body, metadata),
            other => panic!("unexpected request {other:?}"),
        };
        messages.push(DirectMessageRecord {
            conversation_id,
            message_id,
            sender_id,
            encrypted_body,
            metadata,
            deleted: false,
            created_at: 1,
        });
    }
    let asked = client.direct_messages("conv")?;
    assert_eq!(asked, AccountDbRequest::DirectMessages { conversation_id: "conv".to_owned() });
    let listed: Vec<&DirectMessageRecord> =
        messages.iter().filter(|message| message.conversation_id == "conv").collect();
    assert_eq!(listed.len(), 2);
    assert_eq!((listed[0].message_id.as_str(), listed[1].message_id.as_str()), ("m1", "m2"));
    let asked = client.direct_message_by_id("m2")?;
    assert_eq!(asked, AccountDbRequest::DirectMessageById { message_id: "m2".to_owned() });
    assert_eq!(listed[1].encrypted_body, b"two".to_vec());
    assert_eq!(listed[1].metadata.franking_report, Some(report()));
    Ok(())
}

#[test]
fn messages_are_recorded_once() -> Result<(), SdkError> {
    let client = unlocked();
    let appended = client.append_gateway_delivery(&entry(), false, b"canonical")?;
    assert_eq!(
        appended,
        Some(AccountDbRequest::AppendEvent {
            event_id: "env_franking".to_owned(),
            event_type: "gateway.deliver.opaque".to_owned(),
            body: b"canonical".to_vec()
        })
    );
    assert_eq!(client.append_gateway_delivery(&entry(), true, b"canonical")?, None);
    let listed =
        client.append_plaintext_projection_once("conv", &entry(), &vec![], b"plain", None)?;
    assert_eq!(
        listed,
        Some(AccountDbRequest::SendDirectMessage {
            conversation_id: "conv".to_owned(),
            message_id: "env_franking".to_owned(),
            sender_id: "principal_alice".to_owned(),
            encrypted_body: b"plain".to_vec()
        })
    );
    let mut known = stored(None);
    known.message_id = "env_franking".to_owned();
    assert!(message_is_listed(&vec![known.clone()], "env_franking"));
    assert_eq!(
        client.append_plaintext_projection_once("conv", &entry(), &vec![known], b"plain", None)?,
        None
    );
    assert_eq!(
        client.reject_inbox_message("conv", &entry(), "friend.blocked", 9)?,
        AccountDbRequest::RejectInboxMessage {
            conversation_id: "conv".to_owned(),
            envelope_id: "env_franking".to_owned(),
            source_principal_id: "principal_alice".to_owned(),
            reason: "friend.blocked".to_owned(),
            rejected_at: 9
        }
    );
    let cursor = GatewayCursor {
        target_delivery_id: "t".to_owned(),
        inbox_seq: 8,
        last_envelope_id: None,
        acked_envelope_ids: vec![],
        nacked_envelope_ids: vec![],
    };
    assert_eq!(
        client.ack_gateway_delivery(&cursor)?,
        AccountDbRequest::SetProjectionCheckpoint {
            projection_name: "gateway_cursor:t".to_owned(),
            last_event_id: "8".to_owned()
        }
    );
    let ack = gateway_ack("env", "device", 4).with_signature("s".to_owned());
    assert_eq!(ack.ack_id, "ack_env_device");
    assert_eq!(ack.signed.signature, "s");
    Ok(())
}

#[test]
fn bodies_are_read_with_their_attachments() {
    let wrapped = dm_attachment_envelope("Ym9keQ".to_owned(), vec![]);
    let decode = |parsed, decoded| decode_dm_attachment_body(b"raw".to_vec(), parsed, decoded);
    assert_eq!(
        decode(Some(wrapped.clone()), Ok(b"body".to_vec())),
        Ok((b"body".to_vec(), vec![]))
    );
    assert_eq!(decode(None, Ok(vec![])), Ok((b"raw".to_vec(), vec![])));
    let mut other = wrapped.clone();
    other.schema = "another".to_owned();
    assert_eq!(decode(Some(other), Err("x".to_owned())), Ok((b"raw".to_vec(), vec![])));
    assert_eq!(
        decode(Some(wrapped), Err("x".to_owned())),
        Err(SdkError::LocalBus("invalid DM attachment body: x".to_owned()))
    );
}

fn bundle() -> PrekeyBundle {
    PrekeyBundle {
        device_id: "bob_device".to_owned(),
        device_epoch: 1,
        identity_key: [1; 32],
        signed_prekey_id: "bob_device:signed:1".to_owned(),
        signed_prekey: [2; 32],
        one_time_prekey_id: Some("once".to_owned()),
    }
}

#[test]
fn sessions_are_begun_with_the_right_prekeys() -> Result<(), SdkError> {
    let device = Some("bob_device".to_owned());
    assert_eq!(send_session_source(true, &None), Ok(SendSessionSource::Kept));
    assert_eq!(
        send_session_source(false, &device),
        Ok(SendSessionSource::Bootstrap("bob_device".to_owned()))
    );
    let refused = |words: &str| Err(SdkError::LocalBus(words.to_owned()));
    assert_eq!(
        send_session_source(false, &None),
        refused("recipient_device_id is required to bootstrap a new X3DH DM session")
    );
    assert_eq!(
        send_session_source_with_prekey_url(false, &device, &None),
        refused("prekey_http_url is required to fetch recipient prekeys")
    );
    let header = send_session_header(
        BootstrapMaterial {
            identity_public: [3; 32],
            ephemeral_public: [4; 32],
            own_device_id_hash: [5; 32],
            recipient_device_id_hash: [6; 32],
            prekey_bundle_hash: [7; 32],
            bootstrap_transcript_hash: [8; 32],
            session_id: "session".to_owned(),
        },
        "bob_device",
        bundle(),
    );
    assert_eq!(header.recipient_one_time_prekey_id, Some("once".to_owned()));
    assert_eq!(needed_header("conv", Some(&header)), Ok(&header));
    assert_eq!(
        needed_header("conv", None),
        Err(SdkError::LocalBus(
            "missing X3DH header for new inbound DM session conv".to_owned()
        ))
    );
    assert_eq!(check_bootstrap_transcript(&[8; 32], &header), Ok(()));
    assert_eq!(
        check_bootstrap_transcript(&[9; 32], &header),
        Err(SdkError::LocalBus("X3DH bootstrap transcript hash mismatch".to_owned()))
    );
    assert_eq!(signed_prekey_id("bob_device"), "bob_device:signed:1");
    let mut own = x3dh_private_state("bob_device", [1; 32], [2; 32], bundle());
    assert_eq!(check_signed_prekey(&own, &header), Ok(()));
    own.signed_prekey_id = "other".to_owned();
    assert_eq!(
        check_signed_prekey(&own, &header),
        Err(SdkError::LocalBus("signed prekey id mismatch for bob_device".to_owned()))
    );
    assert_eq!(
        load_x3dh_private_state("bob_device", None, None),
        Err(SdkError::LocalBus("missing X3DH private state for bob_device".to_owned()))
    );
    assert_eq!(
        load_x3dh_private_state("bob_device", Some("event".to_owned()), None),
        Err(SdkError::LocalBus("missing X3DH private event event".to_owned()))
    );
    Ok(())
}

fn branch_proof() -> BranchProofDocument {
    BranchProofDocument {
        principal_id: "principal_alice".to_owned(),
        device_id: "alice_device".to_owned(),
        device_epoch: 1,
    }
}

#[test]
fn identities_are_registered_with_their_device() -> Result<(), SdkError> {
    let mut client = unlocked();
    assert_eq!(client.authorize_current_device().map(|_| ()), Err(SdkError::IdentityRootMissing));
    client.create_identity_root(IdentityRoot {
        principal_id: "principal_alice".to_owned(),
        public_key: "root-key".to_owned(),
    });
    assert!(client.authorize_current_device().is_ok());
    let request = client.mvp1_identity_registration_request(
        "alice_device",
        "target",
        "session",
        "commitment",
        branch_proof(),
        100,
    )?;
    assert_eq!(request.root_public_key, "root-key");
    assert_eq!(request.branch_public_key, "alice-key");
    assert_eq!(request.session_id, "session");
    let terms = registration_proof_terms(100);
    assert!(terms.expires_at > terms.issued_at);
    let plan = client.initialize_and_publish_prekey_bundle(
        "commitment",
        "alice_device",
        "target",
        Some("http://prekeys"),
        b"encoded",
        bundle(),
        branch_proof(),
        100,
    )?;
    assert!(matches!(plan.publication, Ok(Some(publication)) if publication.url == "http://prekeys"));
    let plan = client.initialize_and_publish_prekey_bundle(
        "commitment",
        "alice_device",
        "target",
        None,
        b"encoded",
        bundle(),
        branch_proof(),
        100,
    )?;
    assert_eq!(plan.publication, Ok(None));
    Ok(())
}

fn route() -> LocalBusFederationRoute {
    LocalBusFederationRoute {
        federation_url: "http://federation".to_owned(),
        source_node_id: "node-a".to_owned(),
        target_node_id: "node-b".to_owned(),
        required_capability: "ramflux.federation.envelope_forward".to_owned(),
        admin_token: None,
        recipient_prekey_url: None,
    }
}

#[test]
fn federated_envelopes_name_their_nodes() {
    let request = federated_forward_request(&route(), envelope(None));
    assert_eq!(request.source_node_id, "node-a");
    assert_eq!(request.target_node_id, "node-b");
    assert_eq!(request.signed.signing_key_id, "node-a#federation");
    assert_eq!(request.required_capability, "ramflux.federation.envelope_forward");
    assert_eq!(request.envelope, envelope(None));
    let session = Some("http://session".to_owned());
    assert_eq!(federated_prekey_url(&route(), &session), session);
    let mut own = route();
    own.recipient_prekey_url = Some("http://own".to_owned());
    assert_eq!(federated_prekey_url(&own, &session), Some("http://own".to_owned()));
}

fn contact_request() -> LocalBusContactFederatedRequest {
    LocalBusContactFederatedRequest {
        link_id: "l".to_owned(),
        requester_id: "a".to_owned(),
        target_id: "b".to_owned(),
        conversation_id: "c".to_owned(),
        message_id: "m".to_owned(),
        envelope_id: "e".to_owned(),
        source_principal_id: "p".to_owned(),
        sender_id: "s".to_owned(),
        recipient_device_id: "d".to_owned(),
        target_delivery_id: "t".to_owned(),
        federation: route(),
    }
}

#[test]
fn a_contact_reads_what_was_sent_to_it() -> Result<(), SdkError> {
    let send = |event_type: &str| {
        unlocked().send_plaintext_federated_contact_event(event_type, &contact_request(), 50)
    };
    let sent = send("friend.requested");
    assert_eq!(sent.message.envelope_id, "e");
    assert_eq!(sent.message.recipient_device_id, Some("d".to_owned()));
    assert_eq!((sent.message.created_at, sent.message.ttl), (50, 300));
    let (link_id, requester_id, target_id) = ("l".to_owned(), "a".to_owned(), "b".to_owned());
    assert_eq!(
        contact_event_of_plaintext(&sent.plaintext)?,
        ContactAction::RecordPending {
            link_id: link_id.clone(),
            requester_id: requester_id.clone(),
            target_id: target_id.clone(),
        }
    );
    assert_eq!(
        contact_event_of_plaintext(&send("friend.accepted").plaintext)?,
        ContactAction::Establish { link_id: link_id.clone(), requester_id, target_id }
    );
    assert_eq!(
        contact_event_of_plaintext(&send("friend.removed").plaintext)?,
        ContactAction::Remove { link_id: link_id.clone(), scope: "both".to_owned() }
    );
    assert_eq!(
        contact_event_of_plaintext(&send("friend.blocked").plaintext)?,
        ContactAction::Block { link_id: link_id.clone() }
    );
    assert_eq!(
        contact_event_of_plaintext(&send("friend.unblocked").plaintext)?,
        ContactAction::Unblock { link_id }
    );
    assert_eq!(
        contact_event_of_plaintext(&send("friend.waved").plaintext)?,
        ContactAction::Ignore
    );
    Ok(())
}

#[test]
fn texts_that_stand_for_no_bytes_are_refused() {
    let refused = |words: &str| Err(SdkError::LocalBus(words.to_owned()));
    assert_eq!(control_payload(Ok(vec![1])), Ok(vec![1]));
    assert_eq!(
        control_payload(Err("bad text".to_owned())),
        refused("invalid A2I encrypted payload: bad text")
    );
    assert_eq!(attachment_plaintext(Ok(vec![2])), Ok(vec![2]));
    assert_eq!(
        attachment_plaintext(Err("bad text".to_owned())),
        refused("invalid attachment body: bad text")
    );
    let committed = identity_root_public_key_commitment(Ok(vec![3]));
    assert_eq!(
        committed.map(|input| (input.domain, input.bytes)),
        Ok(("ramflux.identity.root_public_key.commitment.v1".to_owned(), vec![3]))
    );
    assert_eq!(
        identity_root_public_key_commitment(Err("bad text".to_owned())).map(|_| ()),
        Err(SdkError::LocalBus("invalid root public key: bad text".to_owned()))
    );
    assert_eq!(needed_manifest(Some(5), "id"), Ok(5));
    assert_eq!(
        needed_manifest(None::<u8>, "id"),
        Err(SdkError::LocalBus("missing device manifest for id".to_owned()))
    );
}

#[test]
fn hashes_are_made_under_their_domains() {
    assert_eq!(identity_seed_input(&[7; 32]).domain, "ramflux.sdk.x3dh.identity.v1");
    assert_eq!(identity_seed_input(&[7; 32]).bytes, vec![7; 32]);
    let signed = signed_prekey_seed_input(&[8; 32]);
    assert_eq!(signed.domain, "ramflux.sdk.x3dh.signed_prekey.v1");
    assert_eq!(signed.bytes, vec![8; 32]);
    let recipient = recipient_device_hash_input("bob");
    assert_eq!(recipient.domain, "ramflux.object_relay.recipient_device.v1");
    assert_eq!(recipient.bytes, b"bob".to_vec());
    assert_eq!(grant_binding_input(vec![1]).domain, "ramflux.object_access_grant.binding.v3");
    assert_eq!(
        owner_proof_binding_input(vec![1]).domain,
        "ramflux.owner_authorization_proof.binding.v3"
    );
    let token = resume_token_hash_input("token");
    assert_eq!(token.domain, "ramflux.gateway.resume_token.v1");
    assert_eq!(token.bytes, b"token".to_vec());
}

fn registration(session_bound: bool) -> SdkMvp1IdentityRegistrationResponse {
    SdkMvp1IdentityRegistrationResponse {
        principal_id: "p".to_owned(),
        device_id: "alice_device".to_owned(),
        device_epoch: 1,
        target_delivery_id: "t".to_owned(),
        session_bound,
        registration_trust_tier: "tier".to_owned(),
    }
}

#[test]
fn prekeys_are_published_under_a_bound_session() -> Result<(), SdkError> {
    let mut client = unlocked();
    let rootless = client.initialize_and_publish_prekey_bundle_via_gateway(
        "session",
        "commitment",
        "alice_device",
        "target",
        b"encoded",
        branch_proof(),
        100,
    )?;
    assert_eq!(rootless.register, Err(SdkError::IdentityRootMissing));
    client.create_identity_root(IdentityRoot {
        principal_id: "principal_alice".to_owned(),
        public_key: "root-key".to_owned(),
    });
    let plan = client.initialize_and_publish_prekey_bundle_via_gateway(
        "session",
        "commitment",
        "alice_device",
        "target",
        b"encoded",
        branch_proof(),
        100,
    )?;
    assert_eq!(plan.keep, client.create_and_store_prekey_bundle("alice_device", b"encoded")?);
    assert_eq!(plan.register?.session_id, "session");
    let early = client.initialize_and_publish_prekey_bundle_via_gateway_request(
        "commitment",
        "alice_device",
        "target",
        b"encoded",
        branch_proof(),
        100,
    )?;
    assert_eq!(early.register?.session_id, "pre_session_for_alice_device");
    let locked = RamfluxClient::new();
    assert_eq!(
        locked
            .initialize_and_publish_prekey_bundle_via_gateway_request(
                "commitment",
                "alice_device",
                "target",
                b"encoded",
                branch_proof(),
                100,
            )
            .err(),
        Some(SdkError::IdentityRootMissing)
    );
    let publish = prekeys_to_publish(Ok(registration(true)), "alice_device", bundle())?;
    assert_eq!((publish.device_id.as_str(), publish.bundle), ("alice_device", bundle()));
    assert_eq!(
        prekeys_to_publish(Ok(registration(false)), "alice_device", bundle()),
        Err(SdkError::GatewaySessionRejected(
            "identity registration did not bind the gateway session".to_owned()
        ))
    );
    let failed = SdkError::LocalBus("no gateway".to_owned());
    assert_eq!(
        prekeys_to_publish(Err(failed.clone()), "alice_device", bundle()),
        Err(failed)
    );
    Ok(())
}

#[test]
fn control_events_travel_in_their_own_conversation() -> Result<(), SdkError> {
    assert_eq!(a2i_control_conversation_id("a", "b"), "a2i.control:a:b");
    let event = A2iControlEvent {
        event_id: "event".to_owned(),
        source_device_id: "alice_device".to_owned(),
        target_device_id: "bob_device".to_owned(),
        created_at: 5,
    };
    let message = unlocked().send_a2i_control_event_via_gateway(
        &event,
        "principal_alice",
        Some("target_bob".to_owned()),
        None,
    )?;
    assert_eq!(message.conversation_id, "a2i.control:alice_device:bob_device");
    assert_eq!(message.target_delivery_id, "target_bob");
    Ok(())
}
