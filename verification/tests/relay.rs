//! Exchanges with a relay, and transfers over them.
use ramflux_sdk::chunks::{
    ciphertext_slice, has_chunk, join_chunks, missing_chunks, resumed_bytes, with_chunk,
};
use ramflux_sdk::client::state::RamfluxClient;
use ramflux_sdk::error::{SdkError, SyncError, TransportError};
use ramflux_sdk::gateway::protocol::RelayTokenV3;
use ramflux_sdk::object::{
    DeviceBranch, EncryptedObject, GatewayIssuerCertificate, ObjectRelayCapability,
    RelayTokenProvider, RelayTransferOptions, RelayV3Protocol, SdkObjectRelayPutResponse,
    SdkRelayChunkStatus, SignatureOutcome,
};
use ramflux_sdk::records::{AccountDbRequest, ObjectTransferRecord, ObjectTransferWrite};
use ramflux_sdk::relay_requests::{
    chunk_descriptor, chunk_pop_to_sign, chunk_request, find_object, own_grant_to_sign, owner_chunk_lineage,
    owner_chunk_token_request, owner_lineage, put_proof_to_sign, put_token_request,
    relay_quic_success_body, tombstone_request, unix_seconds, ChunkBinding,
    ChunkDescriptor, ChunkOperation, ExchangeStep, GatewayQuicRequest, GatewayQuicResponse,
    OwnerLineage, RelayExchange, RelayQuicRequestError, Requester, TombstoneDescriptor,
};
use ramflux_sdk::tombstone_flow::{RemoteTombstone, TombstoneEvent, TombstoneStep};
use ramflux_sdk::transfer::{
    check_chunk_hash, download_chunk_size, persist_object_transfer, relay_expires_at,
    DownloadStep, ObjectDownload, ObjectUpload, TransferRoute, TransferSubject, UploadStep,
    DEFAULT_CHUNK_SIZE,
};

#[test]
fn relay_quic_success_body_rejects_non_200_without_fallback() -> Result<(), SdkError> {
    // 200 -> body passes through unchanged.
    let ok = GatewayQuicResponse { status: 200, body: r#"{"chunk":"opaque"}"#.to_owned() };
    assert_eq!(relay_quic_success_body(ok)?, r#"{"chunk":"opaque"}"#);

    // Any non-200 relay response (business rejection or transport-mapped status) is terminal
    // CapabilityDenied. The v3 QUIC object path must never downgrade to HTTP on a non-200.
    for status in [400_u16, 401, 403, 404, 409, 500, 503] {
        let response = GatewayQuicResponse { status, body: r#"{"error":"denied"}"#.to_owned() };
        assert!(
            matches!(relay_quic_success_body(response), Err(SdkError::CapabilityDenied(_))),
            "status {status} must fail closed as CapabilityDenied"
        );
    }
    assert_eq!(
        relay_quic_success_body(GatewayQuicResponse { status: 409, body: "{}".to_owned() }),
        Err(SdkError::CapabilityDenied(
            "relay v3 request rejected with HTTP status 409: {}".to_owned()
        ))
    );
    Ok(())
}

// A first failure that is reconnect-retryable triggers exactly one retry with the byte-identical
// frame; complete HTTP responses and every other typed failure return on the first attempt.

fn frame() -> GatewayQuicRequest {
    GatewayQuicRequest {
        method: "POST".to_owned(),
        path: "/relay/v1/object/put_chunk".to_owned(),
        body: concat_body("tok-1", "sdk-pop-1700000000-0", "opaque-ciphertext"),
    }
}

fn concat_body(token_id: &str, nonce: &str, chunk: &str) -> String {
    format!(
        "{{\"token\":{{\"token_id\":\"{token_id}\",\"nonce\":\"{nonce}\"}},\"chunk\":\"{chunk}\"}}"
    )
}

fn ok(status: u16) -> Result<GatewayQuicResponse, RelayQuicRequestError> {
    Ok(GatewayQuicResponse { status, body: r#"{"ok":true}"#.to_owned() })
}

fn drive(
    request: &GatewayQuicRequest,
    outcomes: Vec<Result<GatewayQuicResponse, RelayQuicRequestError>>,
) -> (Result<GatewayQuicResponse, SdkError>, Vec<GatewayQuicRequest>) {
    let mut seen = Vec::new();
    let mut queue = outcomes.into_iter();
    let mut exchange = RelayExchange::post(&request.path, request.body.clone());
    loop {
        seen.push(exchange.request.clone());
        let outcome = queue.next().unwrap_or_else(|| {
            Err(RelayQuicRequestError::Config("no more programmed outcomes".to_owned()))
        });
        match exchange.outcome(outcome) {
            ExchangeStep::Answered(response) => return (Ok(response), seen),
            ExchangeStep::Failed(error) => return (Err(error), seen),
            ExchangeStep::SendAgain => {}
        }
    }
}

#[test]
fn connection_lost_then_success_retries_once_with_identical_frame() {
    let request = frame();
    let (result, seen) = drive(
        &request,
        vec![Err(RelayQuicRequestError::ConnectionLost("reset".to_owned())), ok(200)],
    );
    assert!(matches!(&result, Ok(r) if r.status == 200));
    assert_eq!(seen.len(), 2, "exactly two attempts");
    assert_eq!(seen[0], seen[1], "retry re-sends the byte-identical frame");
    assert_eq!(seen[1], request, "no token/nonce/body rebuild between attempts");
}

#[test]
fn request_timeout_then_success_retries_once_with_identical_frame() {
    let request = frame();
    let (result, seen) = drive(
        &request,
        vec![Err(RelayQuicRequestError::RequestTimeout("deadline".to_owned())), ok(200)],
    );
    assert!(matches!(&result, Ok(r) if r.status == 200));
    assert_eq!(seen.len(), 2);
    assert_eq!(seen[0], seen[1]);
    assert_eq!(seen[1], request);
}

#[test]
fn complete_403_returns_on_first_attempt() {
    let request = frame();
    let (result, seen) = drive(&request, vec![ok(403)]);
    assert!(matches!(&result, Ok(r) if r.status == 403), "complete 403 passes through");
    assert_eq!(seen.len(), 1, "a complete HTTP response is never retried");
}

#[test]
fn complete_503_returns_on_first_attempt() {
    let request = frame();
    let (result, seen) = drive(&request, vec![ok(503)]);
    assert!(
        matches!(&result, Ok(r) if r.status == 503),
        "complete 5xx passes through, not retried"
    );
    assert_eq!(seen.len(), 1);
}

#[test]
fn handshake_failure_is_not_retried() {
    let request = frame();
    let (result, seen) =
        drive(&request, vec![Err(RelayQuicRequestError::Handshake("tls".to_owned()))]);
    assert!(matches!(result, Err(SdkError::Transport(_))));
    assert_eq!(seen.len(), 1, "handshake failure is not reconnect-retryable");
}

#[test]
fn peer_auth_failure_is_not_retried() {
    let request = frame();
    let (result, seen) =
        drive(&request, vec![Err(RelayQuicRequestError::PeerAuth("bad ca".to_owned()))]);
    assert!(matches!(result, Err(SdkError::Transport(_))));
    assert_eq!(seen.len(), 1);
}

#[test]
fn protocol_failure_is_not_retried() {
    let request = frame();
    let (result, seen) =
        drive(&request, vec![Err(RelayQuicRequestError::Protocol("partial".to_owned()))]);
    assert!(matches!(result, Err(SdkError::Transport(_))));
    assert_eq!(seen.len(), 1, "a complete-but-invalid frame is not reconnect-retryable");
}

#[test]
fn backpressure_maps_to_transport_capacity_not_capability_denied() {
    let request = frame();
    let (result, seen) = drive(
        &request,
        vec![Err(RelayQuicRequestError::Backpressure { capacity: 8, in_flight: 9 })],
    );
    assert_eq!(seen.len(), 1, "backpressure is not retried");
    assert!(
        matches!(
            &result,
            Err(SdkError::Transport(TransportError::BackpressureRejected {
                capacity: 8,
                in_flight: 9,
            }))
        ),
        "backpressure must stay a transport/capacity error, never CapabilityDenied: {result:?}"
    );
}

#[test]
fn two_retryable_failures_stop_at_two_attempts_and_return_the_second() {
    let request = frame();
    let (result, seen) = drive(
        &request,
        vec![
            Err(RelayQuicRequestError::ConnectionLost("first".to_owned())),
            Err(RelayQuicRequestError::RequestTimeout("second".to_owned())),
        ],
    );
    assert_eq!(seen.len(), 2, "at most one retry, no third attempt");
    assert_eq!(seen[0], seen[1], "the single retry re-sent the identical frame");
    // The second (post-retry) error is returned verbatim, mapped to a transport error.
    assert!(
        matches!(
            &result,
            Err(SdkError::Transport(TransportError::Quic(message))) if message.contains("second")
        ),
        "expected the second attempt's transport error verbatim: {result:?}"
    );
}

fn protocol() -> RelayV3Protocol {
    RelayV3Protocol {
        object_access_grant_schema: "grant".to_owned(),
        owner_authorization_proof_schema: "proof".to_owned(),
        requester_pop_schema: "pop".to_owned(),
        gateway_issuer_certificate_schema: "certificate".to_owned(),
        proof_version: 3,
    }
}

fn device() -> DeviceBranch {
    DeviceBranch {
        principal_id: "principal".to_owned(),
        device_id: "device".to_owned(),
        device_epoch: 5,
        public_key: "key".to_owned(),
        device_hash: "hash".to_owned(),
    }
}

fn object(ciphertext: &[u8]) -> EncryptedObject {
    EncryptedObject {
        object_id: "o".to_owned(),
        manifest_hash: "m".to_owned(),
        nonce: "n".to_owned(),
        ciphertext: ciphertext.to_vec(),
        plaintext_hash: "p".to_owned(),
        tombstoned: false,
        backup_excluded: false,
    }
}

fn options() -> RelayTransferOptions {
    RelayTransferOptions {
        relay_endpoint: "http://relay".to_owned(),
        token_provider: RelayTokenProvider::GatewayIssued,
        interrupt_after_chunks: None,
        relay_quic_peer_addr: Some("127.0.0.1:9000".to_owned()),
        relay_quic_server_name: Some("ramflux-relay".to_owned()),
        relay_quic_ca_cert: Some("/tmp/ca.pem".to_owned()),
        relay_owner_home_node_id: Some("node".to_owned()),
        relay_owner_principal_id: Some("principal".to_owned()),
        relay_audience_node_id: Some("audience".to_owned()),
    }
}

fn minting() -> RelayTransferOptions {
    RelayTransferOptions {
        token_provider: RelayTokenProvider::LocalMint { relay_service_key: vec![1] },
        ..options()
    }
}

fn token() -> RelayTokenV3 {
    RelayTokenV3 {
        token_id: "token".to_owned(),
        object_id: "o".to_owned(),
        manifest_hash: "m".to_owned(),
        chunk_id: "chunk".to_owned(),
        issuer_certificate: GatewayIssuerCertificate {
            schema: "certificate".to_owned(),
            version: 3,
            cert_id: String::new(),
            node_id: String::new(),
            gateway_instance_id: String::new(),
            attestation_public_key: String::new(),
            attestation_key_id: String::new(),
            not_before: 0,
            not_after: 0,
            issued_at: 0,
            node_root_signing_key_id: String::new(),
            node_root_signature: String::new(),
            revoked_at: None,
        },
    }
}

#[test]
fn chunk_requests_have_their_names_and_times() {
    let owner = chunk_request(Requester::Owner, ChunkOperation::Put, "o", "m", 7, 100, 340);
    assert_eq!(owner.chunk_id, "object-relay:o:m:7");
    assert_eq!(owner.nonce, "sdk-put-100-7");
    assert_eq!(owner.pop_nonce, "sdk-pop-100-7");
    assert_eq!(owner.path, "/relay/v1/object/put_chunk");
    assert_eq!(owner.body_hash_domain, None);
    assert_eq!((owner.issued_at, owner.expires_at), (100, 340));
    let grantee = chunk_request(Requester::Grantee, ChunkOperation::Ack, "o", "m", 7, 100, 340);
    assert_eq!(grantee.nonce, "sdk-ack-100-7");
    assert_eq!(grantee.pop_nonce, "sdk-pop-ack-100-7");
    assert_eq!(grantee.path, "/relay/v1/object/ack");
    assert_eq!(grantee.expires_at, 220);
    assert_eq!(
        grantee.body_hash_domain.as_deref(),
        Some("ramflux.object_relay.v3.ack.body")
    );
    let late =
        chunk_request(Requester::Grantee, ChunkOperation::Get, "o", "m", 7, u64::MAX, 340);
    assert_eq!(late.expires_at, u64::MAX);
    assert_eq!(late.path, "/relay/v1/object/get_chunk");
    assert_eq!(late.body_hash_domain.as_deref(), Some("ramflux.object_relay.v3.get.body"));
    let other = chunk_request(Requester::Owner, ChunkOperation::Put, "o", "m", 8, 100, 340);
    assert_ne!(owner.nonce, other.nonce);
    let pop = chunk_pop_to_sign(
        &protocol(),
        &device(),
        &token(),
        &grantee,
        &ChunkBinding::Ack { descriptor_hash: "body".to_owned() },
    );
    assert_eq!(pop.body_hash, "body");
    assert_eq!(pop.token_id, "token");
    assert_eq!(pop.request_nonce, "sdk-pop-ack-100-7");
    assert_eq!(pop.capability, ObjectRelayCapability::Ack);
    assert_eq!((pop.issued_at, pop.expires_at), (100, 220));
    let stored = chunk_pop_to_sign(
        &protocol(),
        &device(),
        &token(),
        &owner,
        &ChunkBinding::Put { chunk_cipher_hash: "cipher".to_owned() },
    );
    assert_eq!(stored.capability, ObjectRelayCapability::Put);
    assert_eq!(stored.body_hash, "cipher");
    assert_eq!(unix_seconds(-3), 0);
    assert_eq!(unix_seconds(3), 3);
}

#[test]
fn requests_are_bound_by_what_they_ask_for() -> Result<(), SdkError> {
    let request = chunk_request(Requester::Grantee, ChunkOperation::Get, "o", "m", 7, 100, 340);
    assert_eq!(
        chunk_descriptor(ChunkOperation::Get, &request, "o", "m"),
        Some(ChunkDescriptor {
            domain: "ramflux.object_relay.v3.get.body".to_owned(),
            capability: "get".to_owned(),
            chunk_id: "object-relay:o:m:7".to_owned(),
            manifest_hash: "m".to_owned(),
            object_id: "o".to_owned(),
        })
    );
    let acknowledged = chunk_descriptor(ChunkOperation::Ack, &request, "o", "m");
    assert_eq!(acknowledged.map(|d| d.capability).as_deref(), Some("ack"));
    assert_eq!(chunk_descriptor(ChunkOperation::Put, &request, "o", "m"), None);
    let binding = ChunkBinding::Get { descriptor_hash: "d".to_owned() };
    assert_eq!((binding.operation(), binding.body_hash().as_str()), (ChunkOperation::Get, "d"));
    let burial =
        tombstone_request(&options(), &vec![object(b"abc")], "o", Some(&device()), 100)?;
    assert_eq!(
        burial.descriptor(),
        TombstoneDescriptor {
            domain: "ramflux.object_relay.tombstone.v3".to_owned(),
            expires_at: 220,
            manifest_hash: "m".to_owned(),
            object_id: "o".to_owned(),
            signed_at: 100,
            source_event_id: "object-tombstone:o:100".to_owned(),
        }
    );
    Ok(())
}

fn relayed(status: u16) -> Result<GatewayQuicResponse, RelayQuicRequestError> {
    Ok(GatewayQuicResponse { status, body: "{}".to_owned() })
}

fn lost() -> Result<GatewayQuicResponse, RelayQuicRequestError> {
    Err(RelayQuicRequestError::ConnectionLost("gone".to_owned()))
}

fn burying() -> RamfluxClient {
    let mut client = RamfluxClient::new();
    client.open_account_index("/accounts".to_owned());
    client.account_unlocked("acct");
    client
}

#[test]
fn an_object_stays_live_until_the_relay_has_buried_it() {
    let client = burying();
    let buried = Some(AccountDbRequest::SetObjectTombstoned { object_id: "o".to_owned() });
    assert_eq!(client.tombstone_answered("o", relayed(200)), Ok(buried));
    assert_eq!(RamfluxClient::new().tombstone_answered("o", relayed(200)), Ok(None));
    for status in [201, 400, 403, 503] {
        assert_eq!(
            client.tombstone_answered("o", relayed(status)),
            Err(SdkError::CapabilityDenied(format!(
                "relay v3 request rejected with HTTP status {status}: {{}}"
            )))
        );
    }
    assert_eq!(
        client.tombstone_answered("o", lost()),
        Err(SdkError::Transport(TransportError::Quic("gone".to_owned())))
    );
    let full = RelayQuicRequestError::Backpressure { capacity: 1, in_flight: 1 };
    assert_eq!(
        client.tombstone_answered("o", Err(full)),
        Err(SdkError::Transport(TransportError::BackpressureRejected {
            capacity: 1,
            in_flight: 1
        }))
    );
}

#[test]
fn a_burial_goes_through_its_steps() {
    let run = |events: Vec<TombstoneEvent>| {
        let request =
            tombstone_request(&options(), &vec![object(b"abc")], "o", Some(&device()), 100);
        let mut burial = RemoteTombstone::start(&request);
        for event in &events {
            burial.advance(event);
        }
        burial
    };
    let issued = || TombstoneEvent::Token { issued: true };
    let buried = || TombstoneEvent::Burial { succeeded: true };
    assert_eq!(run(vec![]).step, TombstoneStep::IssueToken);
    assert_eq!(run(vec![issued()]).step, TombstoneStep::SendRequest);
    let granted = run(vec![issued(), TombstoneEvent::Answer(relayed(200))]);
    assert_eq!((granted.step, granted.granted), (TombstoneStep::Bury, true));
    let done = run(vec![issued(), TombstoneEvent::Answer(relayed(200)), buried()]);
    assert_eq!(done.step, TombstoneStep::Buried);
    // A refusal ends the burial, whatever follows.
    let refused = run(vec![
        issued(),
        TombstoneEvent::Answer(relayed(503)),
        TombstoneEvent::Answer(relayed(200)),
        buried(),
    ]);
    assert_eq!((refused.step, refused.granted), (TombstoneStep::Stop, false));
    // A lost connection lets the request be sent once more, and no further time.
    let again = run(vec![issued(), TombstoneEvent::Answer(lost())]);
    assert_eq!((again.step, again.attempts), (TombstoneStep::SendRequest, 2));
    let twice = run(vec![issued(), TombstoneEvent::Answer(lost()), TombstoneEvent::Answer(lost())]);
    assert_eq!(twice.step, TombstoneStep::Stop);
    // Nothing is buried first.
    assert_eq!(run(vec![buried()]).step, TombstoneStep::Stop);
    let none = tombstone_request(&options(), &vec![], "o", Some(&device()), 100);
    assert_eq!(RemoteTombstone::start(&none).step, TombstoneStep::Stop);
}

#[test]
fn a_chunk_with_another_hash_is_not_recorded() -> Result<(), SdkError> {
    let mut download = ObjectDownload::start(
        Some(&device()),
        object(b"abc"),
        3,
        1,
        &options(),
        TransferRoute::GatewayQuic,
        true,
        None,
        100,
    )?;
    assert!(matches!(download.step(1), DownloadStep::Get { chunk_index: 0 }));
    assert_eq!(
        download.chunk_received("claimed", "recomputed", Ok(b"abc".to_vec()), 2),
        Err(SdkError::LocalBus("object relay chunk hash mismatch".to_owned()))
    );
    assert!(download.completed.is_empty());
    assert_eq!((download.done_bytes, download.chunks[0].clone()), (0, None));
    let undecrypted = Err(SdkError::Crypto("bad tag".to_owned()));
    assert_eq!(
        download.chunk_received("h", "h", undecrypted, 2),
        Err(SdkError::Crypto("bad tag".to_owned()))
    );
    assert!(download.completed.is_empty());
    let (write, acknowledged) = download.chunk_received("h", "h", Ok(b"abc".to_vec()), 3)?;
    assert_eq!((write.completed_chunks, acknowledged), (vec![0], Some(0)));
    Ok(())
}

#[test]
fn owners_need_their_lineage() {
    let lineage = OwnerLineage {
        home_node_id: "node".to_owned(),
        principal_id: "principal".to_owned(),
        audience_node_id: "audience".to_owned(),
    };
    assert_eq!(owner_lineage(&options(), "owner PUT"), Ok(lineage));
    let denied = |words: &str| Err(SdkError::CapabilityDenied(words.to_owned()));
    let mut partial = options();
    partial.relay_audience_node_id = None;
    assert_eq!(
        owner_lineage(&partial, "owner PUT"),
        denied("v3 owner PUT requires RAMFLUX_SDK_RELAY_AUDIENCE_NODE_ID")
    );
    partial.relay_owner_principal_id = None;
    assert_eq!(
        owner_lineage(&partial, "owner GET"),
        denied("v3 owner GET requires RAMFLUX_SDK_RELAY_OWNER_PRINCIPAL_ID")
    );
    partial.relay_owner_home_node_id = None;
    assert_eq!(
        owner_lineage(&partial, "tombstone"),
        denied("v3 tombstone requires RAMFLUX_SDK_RELAY_OWNER_HOME_NODE_ID")
    );
    assert_eq!(
        owner_chunk_lineage(&minting(), ChunkOperation::Get),
        denied("v3 relay GET requires gateway-issued token material")
    );
    assert_eq!(
        owner_chunk_lineage(&minting(), ChunkOperation::Ack),
        denied("v3 relay ACK requires gateway-issued token material")
    );
    assert!(owner_chunk_lineage(&minting(), ChunkOperation::Put).is_ok());
}

#[test]
fn owners_ask_for_tokens_of_their_own_objects() -> Result<(), SdkError> {
    let lineage = owner_chunk_lineage(&options(), ChunkOperation::Get)?;
    let request = chunk_request(Requester::Owner, ChunkOperation::Get, "o", "m", 1, 100, 340);
    let grant = own_grant_to_sign(
        &protocol(),
        &device(),
        &object(b"abc"),
        ObjectRelayCapability::Get,
        100,
        340,
    );
    assert_eq!(grant.grantee_device_hash, "hash");
    assert_eq!(grant.capabilities, vec![ObjectRelayCapability::Get]);
    let body = owner_chunk_token_request(
        &protocol(),
        &grant,
        &device(),
        &object(b"abc"),
        ChunkOperation::Get,
        &request,
        &lineage,
        &SignatureOutcome::Valid,
        "binding",
    )?;
    assert_eq!(body.chunk_id, "object-relay:o:m:1");
    assert_eq!(body.nonce, "sdk-get-100-1");
    assert_eq!(body.owner_device_epoch, 5);
    assert_eq!(body.audience_node_id, "audience");
    let request = chunk_request(Requester::Owner, ChunkOperation::Put, "o", "m", 1, 100, 340);
    let proof = put_proof_to_sign(
        &protocol(),
        &device(),
        &object(b"abc"),
        &request,
        &lineage,
        "chunk-hash",
    );
    assert_eq!(proof.capability, ObjectRelayCapability::Put);
    assert_eq!(proof.body_hash, "chunk-hash");
    assert_eq!(proof.chunk_id, Some("object-relay:o:m:1".to_owned()));
    let body = put_token_request(
        &protocol(),
        &device(),
        &object(b"abc"),
        &request,
        &lineage,
        "binding",
    )?;
    assert_eq!(body.capabilities, vec![ObjectRelayCapability::Put]);
    Ok(())
}

#[test]
fn objects_are_buried_by_their_owner() -> Result<(), SdkError> {
    let objects = vec![object(b"abc")];
    assert_eq!(find_object(&objects, "o"), Some(0));
    assert_eq!(find_object(&objects, "x"), None);
    let request = tombstone_request(&options(), &objects, "o", Some(&device()), 100)?;
    assert_eq!(request.chunk_id, "object-relay:o:m:tombstone");
    assert_eq!(request.nonce, "sdk-tombstone-100");
    assert_eq!(request.pop_nonce, "sdk-pop-100");
    assert_eq!(request.source_event_id, "object-tombstone:o:100");
    assert_eq!(request.path, "/relay/v1/object/tombstone");
    assert_eq!(request.expires_at, 220);
    let proof = request.proof_to_sign(&protocol(), &device(), "grave");
    assert_eq!(proof.chunk_id, None);
    assert_eq!(proof.body_hash, "grave");
    let body = request.token_request(&protocol(), &device(), &objects[0], "binding")?;
    assert_eq!(body.capabilities, vec![ObjectRelayCapability::Tombstone]);
    let pop = request.pop_to_sign(&protocol(), &device(), &token(), "grave".to_owned());
    assert_eq!(pop.request_nonce, "sdk-pop-100");

    let needs_quic = Err(SdkError::CapabilityDenied(
        "v3 relay tombstone requires gateway-issued QUIC configuration".to_owned(),
    ));
    assert_eq!(tombstone_request(&minting(), &objects, "o", Some(&device()), 1), needs_quic);
    let mut none = options();
    none.relay_quic_peer_addr = None;
    assert_eq!(
        tombstone_request(&none, &objects, "o", Some(&device()), 1),
        Err(SdkError::LocalBus("relay QUIC configuration is incomplete".to_owned()))
    );
    none.relay_quic_server_name = None;
    none.relay_quic_ca_cert = None;
    assert_eq!(tombstone_request(&none, &objects, "o", Some(&device()), 1), needs_quic);
    assert_eq!(
        tombstone_request(&options(), &objects, "x", Some(&device()), 1),
        Err(SdkError::Sync(SyncError::ObjectNotFound))
    );
    assert_eq!(
        tombstone_request(&options(), &objects, "o", None, 1),
        Err(SdkError::LocalBus("object relay requires a device branch".to_owned()))
    );
    Ok(())
}

#[test]
fn ciphertexts_are_cut_and_joined() {
    assert_eq!(ciphertext_slice(b"abcdefg", 3, 0), Some(&b"abc"[..]));
    assert_eq!(ciphertext_slice(b"abcdefg", 3, 2), Some(&b"g"[..]));
    assert_eq!(ciphertext_slice(b"abcdefg", 3, 3), None);
    assert_eq!(ciphertext_slice(b"abcdefg", usize::MAX, 2), None);
    assert_eq!(resumed_bytes(&b"abcdefg".to_vec(), 3, &vec![0, 2, 9]), 4);
    assert_eq!(missing_chunks(4, &vec![2, 0]), vec![1, 3]);
    assert_eq!(with_chunk(&vec![5, 1], 3), vec![1, 3, 5]);
    assert_eq!(with_chunk(&vec![1, 3], 3), vec![1, 3]);
    assert!(has_chunk(&vec![1, 3], 3));
    assert_eq!(
        join_chunks(&vec![Some(b"abc".to_vec()), Some(b"d".to_vec())]),
        Some(b"abcd".to_vec())
    );
    assert_eq!(join_chunks(&vec![Some(b"abc".to_vec()), None]), None);
}

fn answer(index: u32) -> SdkObjectRelayPutResponse {
    SdkObjectRelayPutResponse {
        chunk_id: format!("object-relay:o:m:{index}"),
        object_id: "o".to_owned(),
        manifest_hash: "m".to_owned(),
        expires_at: 0,
        status: SdkRelayChunkStatus::Available,
    }
}

fn record_of(write: &ObjectTransferWrite) -> ObjectTransferRecord {
    ObjectTransferRecord {
        transfer_id: write.transfer_id.clone(),
        object_id: write.object_id.clone(),
        manifest_hash: write.manifest_hash.clone(),
        direction: write.direction.clone(),
        state: write.state.clone(),
        chunk_size: write.chunk_size,
        total_bytes: write.total_bytes,
        done_bytes: write.done_bytes,
        total_chunks: write.total_chunks,
        completed_chunks: write.completed_chunks.clone(),
        next_chunk_index: write.next_chunk_index,
        last_error: write.last_error.clone(),
        updated_at: write.updated_at,
    }
}

#[test]
fn interrupted_upload_resumes_and_completes() -> Result<(), SdkError> {
    let stopping = RelayTransferOptions { interrupt_after_chunks: Some(1), ..options() };
    let route = TransferRoute::GatewayQuic;
    let device = device();
    let content = b"abcdefg";
    let mut upload =
        ObjectUpload::start(Some(&device), object(content), 3, 3, &stopping, route, None, 100)?;
    assert_eq!(upload.expires_at, 340);
    match upload.step(1) {
        UploadStep::Put { chunk_index, bytes } => {
            assert_eq!((chunk_index, bytes), (0, b"abc".to_vec()));
        }
        _ => panic!("the first chunk is stored"),
    }
    // An answer about another chunk changes nothing.
    assert_eq!(
        upload.put_answered(&answer(1), 2),
        Err(SdkError::LocalBus("object relay put response binding mismatch".to_owned()))
    );
    let write = upload.put_answered(&answer(0), 2)?;
    assert_eq!((write.state.as_str(), write.done_bytes), ("running", 3));
    assert_eq!(write.missing_chunks, vec![1, 2]);
    let paused = match upload.step(3) {
        UploadStep::Paused { write, error } => {
            assert_eq!(
                error,
                SdkError::LocalBus("object relay upload interrupted".to_owned())
            );
            write
        }
        _ => panic!("the run stops after one chunk"),
    };
    assert_eq!((paused.state.as_str(), paused.next_chunk_index), ("paused", Some(1)));

    let record = Some(record_of(&paused));
    let mut upload =
        ObjectUpload::start(Some(&device), object(content), 3, 3, &options(), route, record, 100)?;
    assert_eq!(upload.done_bytes, 3);
    let mut sent = Vec::new();
    let complete = loop {
        match upload.step(4) {
            UploadStep::Put { chunk_index, bytes } => {
                sent.push((chunk_index, bytes));
                upload.put_answered(&answer(chunk_index), 5)?;
            }
            UploadStep::Complete { write } => break write,
            _ => panic!("the rest is stored"),
        }
    };
    assert_eq!(sent, vec![(1, b"def".to_vec()), (2, b"g".to_vec())]);
    assert_eq!((complete.state.as_str(), complete.done_bytes), ("complete", 7));
    assert_eq!(complete.completed_chunks, vec![0, 1, 2]);
    assert!(complete.missing_chunks.is_empty());
    assert_eq!((complete.next_chunk_index, complete.expires_at), (None, Some(340)));
    Ok(())
}

#[test]
fn uploads_keep_to_their_route() -> Result<(), SdkError> {
    assert_eq!(
        ObjectUpload::start(
            None,
            object(b"abc"),
            3,
            1,
            &options(),
            TransferRoute::GatewayQuic,
            None,
            0
        )
        .err(),
        Some(SdkError::LocalBus("object relay requires a device branch".to_owned()))
    );
    let device = device();
    let step = |options: &RelayTransferOptions, route: TransferRoute| {
        let mut upload =
            ObjectUpload::start(Some(&device), object(b"abc"), 3, 1, options, route, None, 0)?;
        match upload.step(0) {
            UploadStep::Refused { error } => Err(error),
            _ => Ok(()),
        }
    };
    assert_eq!(step(&options(), TransferRoute::GatewayQuic), Ok(()));
    assert_eq!(step(&minting(), TransferRoute::LocalMint), Ok(()));
    assert_eq!(
        step(&minting(), TransferRoute::GatewayQuic),
        Err(SdkError::CapabilityDenied(
            "gateway object PUT requires gateway-issued v3 QUIC transport".to_owned()
        ))
    );
    assert_eq!(
        step(&options(), TransferRoute::LocalMint),
        Err(SdkError::LocalBus(
            "object relay requires gateway-issued token; local mint is disabled".to_owned()
        ))
    );
    Ok(())
}

#[test]
fn interrupted_download_resumes_and_assembles() -> Result<(), SdkError> {
    let stopping = RelayTransferOptions { interrupt_after_chunks: Some(1), ..options() };
    let route = TransferRoute::GatewayQuic;
    let device = device();
    let start = |options: &RelayTransferOptions, record: Option<ObjectTransferRecord>| {
        ObjectDownload::start(
            Some(&device),
            object(b"abcdefg"),
            3,
            3,
            options,
            route,
            true,
            record,
            100,
        )
    };
    let mut download = start(&stopping, None)?;
    assert!(matches!(download.step(1), DownloadStep::Get { chunk_index: 0 }));
    let (write, acknowledged) = download.chunk_received("h", "h", Ok(b"abc".to_vec()), 2)?;
    assert_eq!((write.state.as_str(), write.done_bytes), ("running", 3));
    assert_eq!(acknowledged, Some(0));
    let paused = match download.step(3) {
        DownloadStep::Paused { write, error } => {
            assert_eq!(
                error,
                SdkError::LocalBus("object relay download interrupted".to_owned())
            );
            write
        }
        _ => panic!("the run stops after one chunk"),
    };
    assert_eq!(
        download.assemble(3),
        Err(SdkError::LocalBus("object relay download incomplete".to_owned()))
    );

    let mut download = start(&options(), Some(record_of(&paused)))?;
    assert!(matches!(download.step(4), DownloadStep::Get { chunk_index: 1 }));
    download.chunk_received("h", "h", Ok(b"def".to_vec()), 5)?;
    assert!(matches!(download.step(6), DownloadStep::Get { chunk_index: 2 }));
    download.chunk_received("h", "h", Ok(b"g".to_vec()), 7)?;
    assert!(matches!(download.step(8), DownloadStep::Assemble));
    let complete = download.assemble(9)?;
    assert_eq!((complete.state.as_str(), complete.done_bytes), ("complete", 7));
    assert_eq!(complete.direction, "download");
    assert_eq!(complete.completed_chunks, vec![0, 1, 2]);

    // What does not make the object is not complete.
    let mut download = start(&options(), Some(record_of(&paused)))?;
    download.step(4);
    download.chunk_received("h", "h", Ok(b"DEF".to_vec()), 5)?;
    download.step(6);
    download.chunk_received("h", "h", Ok(b"g".to_vec()), 7)?;
    assert!(matches!(download.step(8), DownloadStep::Assemble));
    assert_eq!(
        download.assemble(9),
        Err(SdkError::LocalBus("object relay assembled ciphertext mismatch".to_owned()))
    );
    Ok(())
}

#[test]
fn downloads_keep_to_their_route() -> Result<(), SdkError> {
    let device = device();
    let step = |options: &RelayTransferOptions, route: TransferRoute| {
        let mut download = ObjectDownload::start(
            Some(&device),
            object(b"abc"),
            3,
            1,
            options,
            route,
            false,
            None,
            0,
        )?;
        match download.step(0) {
            DownloadStep::Refused { error } => Err(error),
            _ => Ok(download.chunk_received("h", "h", Ok(b"abc".to_vec()), 1)?.1),
        }
    };
    assert_eq!(step(&minting(), TransferRoute::LocalMint), Ok(None));
    assert_eq!(
        step(&minting(), TransferRoute::GatewayQuic),
        Err(SdkError::CapabilityDenied(
            "gateway object GET requires gateway-issued v3 QUIC transport".to_owned()
        ))
    );
    assert_eq!(
        step(&options(), TransferRoute::LocalMint),
        Err(SdkError::LocalBus(
            "object relay requires gateway-issued token; local mint is disabled".to_owned()
        ))
    );
    assert_eq!(check_chunk_hash("a", "a"), Ok(()));
    assert_eq!(
        check_chunk_hash("a", "b"),
        Err(SdkError::LocalBus("object relay chunk hash mismatch".to_owned()))
    );
    Ok(())
}

#[test]
fn transfers_are_recorded_under_their_peer() {
    let subject = TransferSubject {
        object_id: "o",
        manifest_hash: "m",
        total_bytes: 10,
        direction: "download",
        relay_endpoint: "http://relay",
        chunk_size: 4,
        total_chunks: 3,
        expires_at: u64::MAX,
    };
    let write = persist_object_transfer(None, &subject, &vec![1], 4, "running", 8);
    assert_eq!(write.peer_device_id, "local-device");
    assert_eq!(write.transfer_id, "download:o:m");
    assert_eq!(write.missing_chunks, vec![0, 2]);
    assert_eq!(write.next_chunk_index, Some(0));
    assert_eq!(write.expires_at, Some(i64::MAX));
    let mut record = record_of(&write);
    assert_eq!(download_chunk_size(&Some(record.clone())), 4);
    record.chunk_size = 0;
    assert_eq!(download_chunk_size(&Some(record)), 1);
    assert_eq!(download_chunk_size(&None), DEFAULT_CHUNK_SIZE);
    assert_eq!(relay_expires_at(60), 300);
    assert_eq!(relay_expires_at(u64::MAX), u64::MAX);
}
