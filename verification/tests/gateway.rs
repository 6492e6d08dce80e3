//! Sessions with a gateway, and the requests that go with them.
use ramflux_sdk::constants::crate_name;
use ramflux_sdk::error::SdkError;
use ramflux_sdk::gateway::engine::{
    check_session_bound, cursor_frame, gateway_timeout_error, heartbeat_frame, http_method,
    identity_frame, must_reconnect, prekey_frame, prekey_published_frame, relay_token_frame,
    relay_token_v3_frame, FrameStep, GatewaySessionEngine,
};
use ramflux_sdk::gateway::entries::{dedup_gateway_entries, pending_entries};
use ramflux_sdk::gateway::helpers::{
    auth_request_to_sign, build_gateway_signed_request, device_proof_to_sign,
    gateway_open_frame_with_nonce, gateway_session_state, gateway_stream_nonce_text,
    sdk_device_signed_fields, sdk_signed_fields,
};
use ramflux_sdk::gateway::protocol::{
    DeliveryClass, Envelope, GatewayCursor, GatewayInboxEntry, GatewayOpenFrame,
    GatewayOwnDeviceFanoutResponse, GatewayQuicEndpointConfig, GatewayServerFrame,
    GatewaySessionConfig, GatewaySessionEstablishedFrame, GatewaySessionTransportKind,
    GatewayTcpTlsEndpointConfig, HttpMethod, Priority, SignedRequest,
};
use ramflux_sdk::gateway::requests::{GatewayClientFrame, SessionOperation};
use ramflux_sdk::object::DeviceBranch;
use ramflux_sdk::prekey::{
    active_kind, fallback_route, first_route, gateway_success_body, http_get_head,
    http_post_head, needed_bundle, prekey_path, sdk_http_host_port, GatewayRoute,
    HttpResponseHead, PrekeyBundle, SdkMvp1IdentityRegistrationResponse, SdkMvp1PrekeyResponse,
};

fn branch() -> DeviceBranch {
    DeviceBranch {
        principal_id: "principal_test".to_owned(),
        device_id: "device_test".to_owned(),
        device_epoch: 1,
        public_key: "key".to_owned(),
        device_hash: "hash".to_owned(),
    }
}

fn endpoint() -> GatewayQuicEndpointConfig {
    GatewayQuicEndpointConfig {
        bind_addr: "0.0.0.0:0".to_owned(),
        gateway_addr: "127.0.0.1:443".to_owned(),
        server_name: "localhost".to_owned(),
        ca_cert: "test-ca.pem".to_owned(),
        principal_id: "principal_test".to_owned(),
        device_id: "device_test".to_owned(),
        target_delivery_id: "target_test".to_owned(),
        prekey_http_url: None,
    }
}

// A config whose auth window is stamped far in the past: a persistent session that connected
// long ago and never refreshed.
fn aged_config() -> GatewaySessionConfig {
    let mut config = GatewaySessionConfig::quic(endpoint(), 0).with_device_branch(branch());
    config.now = 1_000;
    config.auth_expires_at = 1_300; // 1_000 + 300s, long expired vs wall clock.
    config
}

/// A stand-in for a hash: it tells any two texts apart.
fn hash(text: &str) -> String {
    format!("hash({text})")
}

/// What a replay guard remembers of a request.
fn replay_tuple_key(request: &SignedRequest) -> (String, String, String) {
    (request.source_device_id.clone(), request.request_id.clone(), request.nonce.clone())
}

fn signed_request(
    config: &mut GatewaySessionConfig,
    wall: i64,
    request_counter: u64,
) -> Result<SignedRequest, SdkError> {
    let mut at_wall = config.clone();
    at_wall.refresh_auth_window(wall);
    let nonce = hash(&gateway_stream_nonce_text(&at_wall, request_counter));
    build_gateway_signed_request(
        config,
        wall,
        "session_test",
        request_counter,
        HttpMethod::POST,
        "/relay/v1/token/issue",
        "already_authed",
        &hash("body"),
        &nonce,
    )
}

#[test]
fn signed_request_restamps_a_fresh_window_after_aging() -> Result<(), SdkError> {
    let mut config = aged_config();
    let frozen_expires = config.auth_expires_at;
    let wall = 1_760_000_000;
    let req = signed_request(&mut config, wall, 0)?;
    // The frozen deadline is gone: the new request is stamped from a refreshed window.
    assert!(
        req.created_at >= wall - 5,
        "created_at must be fresh (near now), got {}",
        req.created_at
    );
    assert!(req.expires_at > frozen_expires, "expires_at must advance past the frozen value");
    assert_eq!(req.expires_at - req.created_at, 300, "window stays exactly the 300s TTL");
    assert!(req.expires_at > wall, "a freshly-stamped request is not expired");
    // config itself was refreshed (so a subsequent request also starts fresh).
    assert_eq!(config.now, req.created_at);
    assert_eq!(config.auth_expires_at, req.expires_at);
    Ok(())
}

#[test]
fn consecutive_requests_keep_unique_replay_identity_after_refresh() -> Result<(), SdkError> {
    let mut config = aged_config();
    let r0 = signed_request(&mut config, 1_760_000_000, 0)?;
    let r1 = signed_request(&mut config, 1_760_000_000, 1)?;
    assert_ne!(r0.request_id, r1.request_id, "request_id must be unique per counter");
    assert_ne!(
        r0.nonce, r1.nonce,
        "nonce must be unique per counter even at the same refreshed now"
    );
    assert_ne!(
        replay_tuple_key(&r0),
        replay_tuple_key(&r1),
        "replay_tuple must be unique so the guard never coalesces two distinct requests"
    );
    // A true replay of the SAME request yields the SAME tuple.
    assert_eq!(replay_tuple_key(&r0), replay_tuple_key(&r0));
    Ok(())
}

#[test]
fn gateway_resume_auth_attempts_use_fresh_replay_keys() -> Result<(), SdkError> {
    let mut config = GatewaySessionConfig::quic(endpoint(), 0).with_device_branch(branch());
    config.previous_session_id = Some("session_previous".to_owned());
    config.resume_token = Some("resume_previous".to_owned());
    let auth = |open: &GatewayOpenFrame| {
        let proof = device_proof_to_sign(&config, open)?;
        auth_request_to_sign(&config, open, &hash(&proof.nonce), &hash(&open.stream_nonce))
    };

    let resume_hash = hash("resume_previous");
    let first_open = gateway_open_frame_with_nonce(&config, hash("1"), resume_hash.clone());
    let first_auth = auth(&first_open)?;
    let second_open = gateway_open_frame_with_nonce(&config, hash("2"), resume_hash.clone());
    let second_auth = auth(&second_open)?;

    assert_ne!(first_open.stream_nonce, second_open.stream_nonce);
    assert_ne!(first_auth.request_id, second_auth.request_id);
    assert_ne!(replay_tuple_key(&first_auth), replay_tuple_key(&second_auth));
    assert_eq!(replay_tuple_key(&first_auth), replay_tuple_key(&first_auth));
    assert_eq!(first_open.previous_session_id, Some("session_previous".to_owned()));
    assert_eq!(first_open.resume_token_hash, Some(resume_hash));
    assert_eq!(first_auth.path, "/gateway/session/auth");
    Ok(())
}

#[test]
fn frames_of_a_fresh_session_have_their_fields() -> Result<(), SdkError> {
    let config = GatewaySessionConfig::quic(endpoint(), 50);
    let open = gateway_open_frame_with_nonce(&config, "nonce".to_owned(), hash("none"));
    assert_eq!(open.protocol_version, "ramflux.gateway_session.v1");
    assert_eq!(open.transport_kind, "quic_quinn");
    assert_eq!(open.client_instance_id, "rf_sdk_device_test");
    assert_eq!(open.resume_token_hash, None);
    assert_eq!(open.last_seen_inbox_seq, Some(0));
    let missing = Err(SdkError::GatewaySessionRejected(
        "missing registered device branch for device_test".to_owned(),
    ));
    assert_eq!(device_proof_to_sign(&config, &open).map(|_| ()), missing);
    assert_eq!(auth_request_to_sign(&config, &open, "a", "b").map(|_| ()), missing);
    let config = config.with_device_branch(branch());
    let proof = device_proof_to_sign(&config, &open)?;
    assert_eq!(proof.nonce, "nonce");
    assert_eq!(proof.expires_at, 350);
    assert_eq!(proof.capability_scope, vec!["gateway.session".to_owned()]);
    assert_eq!(proof.signed, sdk_device_signed_fields("device_test", ""));
    assert_eq!(proof.signed.signing_key_id, "device:device_test");
    assert_eq!(sdk_signed_fields("s").signing_key_id, "fixture");
    assert_eq!(gateway_stream_nonce_text(&config, 7), "rf_sdk_device_test:device_test:target_test:50:7");
    Ok(())
}

#[test]
fn session_settings_start_from_their_endpoint() {
    let auto = GatewaySessionConfig::auto(endpoint(), i64::MAX)
        .with_tcp_gateway_addr("127.0.0.1:444".to_owned())
        .with_quic_fallback_timeout(9);
    assert_eq!(auto.transport_kind, GatewaySessionTransportKind::Auto);
    assert_eq!(auto.tcp_addr(), "127.0.0.1:444");
    assert_eq!(auto.quic_fallback_timeout, 9);
    assert_eq!(auto.auth_expires_at, i64::MAX);
    let tcp = GatewaySessionConfig::tcp_tls(
        GatewayTcpTlsEndpointConfig {
            bind_addr: "0.0.0.0:0".to_owned(),
            gateway_addr: "127.0.0.1:443".to_owned(),
            server_name: "localhost".to_owned(),
            ca_cert: "ca.pem".to_owned(),
            principal_id: "p".to_owned(),
            device_id: "d".to_owned(),
            target_delivery_id: "t".to_owned(),
            prekey_http_url: None,
        },
        10,
    );
    assert_eq!(tcp.transport_kind.wire_name(), "tcp_tls");
    assert_eq!(tcp.tcp_addr(), "127.0.0.1:443");
    assert_eq!((tcp.timeout, tcp.quic_fallback_timeout), (10_000, 1_500));
}

fn entry(inbox_seq: u64, envelope_id: &str) -> GatewayInboxEntry {
    GatewayInboxEntry {
        inbox_seq,
        target_delivery_id: "target_test".to_owned(),
        envelope: Envelope {
            schema: "ramflux.envelope.v1".to_owned(),
            version: 1,
            domain: "ramflux.envelope.v1".to_owned(),
            franking: None,
            signed: sdk_signed_fields(""),
            envelope_id: envelope_id.to_owned(),
            source_principal_id: "source".to_owned(),
            source_device_id: "source_device".to_owned(),
            target_delivery_id: "target_test".to_owned(),
            routing_set_id: None,
            delivery_class: DeliveryClass::OpaqueEvent,
            priority: Priority::Normal,
            ttl: 60,
            created_at: 1,
            encrypted_payload: "payload".to_owned(),
            payload_hash: "hash".to_owned(),
        },
    }
}

fn cursor(inbox_seq: u64) -> GatewayCursor {
    GatewayCursor {
        target_delivery_id: "target_test".to_owned(),
        inbox_seq,
        last_envelope_id: None,
        acked_envelope_ids: vec![],
        nacked_envelope_ids: vec![],
    }
}

fn established(accepted_cursor: Option<GatewayCursor>) -> GatewaySessionEstablishedFrame {
    GatewaySessionEstablishedFrame {
        session_id: "session".to_owned(),
        gateway_id: "gateway".to_owned(),
        accepted_cursor,
        resume_token: "resume".to_owned(),
        resume_window_seconds: 30,
    }
}

fn engine() -> Result<GatewaySessionEngine, SdkError> {
    let config = GatewaySessionConfig::auto(endpoint(), 0).with_device_branch(branch());
    GatewaySessionEngine::established(
        config,
        GatewaySessionTransportKind::TcpTls,
        GatewayServerFrame::SessionEstablished { session: established(Some(cursor(12))) },
        "established",
    )
}

fn nack() -> GatewayServerFrame {
    GatewayServerFrame::Nack { reason: "no".to_owned() }
}

fn rejected<T>(words: &str) -> Result<T, SdkError> {
    Err(SdkError::GatewaySessionRejected(words.to_owned()))
}

#[test]
fn accepted_sessions_are_remembered() -> Result<(), SdkError> {
    let engine = engine()?;
    assert_eq!(engine.session().accepted_inbox_seq, 12);
    assert_eq!(engine.config.previous_session_id, Some("session".to_owned()));
    assert_eq!(engine.config.resume_token, Some("resume".to_owned()));
    assert_eq!(engine.config.last_seen_inbox_seq, 12);
    assert_eq!(engine.active_transport_kind(), GatewaySessionTransportKind::TcpTls);
    assert_eq!(engine.target_delivery_id(), "target_test");
    assert_eq!(gateway_session_state(&established(None), 5).accepted_inbox_seq, 5);
    let config = GatewaySessionConfig::auto(endpoint(), 0);
    let kind = GatewaySessionTransportKind::Quic;
    assert_eq!(
        GatewaySessionEngine::established(config.clone(), kind, nack(), "nack").err(),
        Some(SdkError::GatewaySessionRejected("no".to_owned()))
    );
    let heartbeat = GatewayServerFrame::Heartbeat { now: 1 };
    assert_eq!(
        GatewaySessionEngine::established(config, kind, heartbeat, "heartbeat").err(),
        Some(SdkError::GatewaySessionRejected("unexpected frame heartbeat".to_owned()))
    );
    Ok(())
}

#[test]
fn requests_of_a_session_are_numbered() -> Result<(), SdkError> {
    let mut engine = engine()?;
    let first = engine.operation_to_sign(SessionOperation::Submit, 100, "body", "n1")?;
    let second = engine.operation_to_sign(SessionOperation::RelayTokenV3, 100, "body", "n2")?;
    assert_eq!(first.request_id, "req_sdk_session_1");
    assert_eq!(second.request_id, "req_sdk_session_2");
    assert_eq!(first.path, "/gateway/session/submit");
    assert_eq!(second.path, "/relay/v1/token/v3/issue");
    assert_eq!((first.created_at, first.expires_at), (100, 400));
    assert_eq!(first.device_proof_hash, "already_authed");
    assert_eq!(
        engine.signed_request(100, "PATCH", "/", "p", "b", "n"),
        rejected("unsupported method PATCH")
    );
    assert_eq!(http_method("DELETE"), Ok(HttpMethod::DELETE));
    engine.config.device_branch = None;
    assert_eq!(
        engine.operation_to_sign(SessionOperation::OwnDeviceFanout, 100, "body", "n3"),
        rejected("missing registered device branch for device_test")
    );
    assert_eq!(engine.request_counter, 3);
    Ok(())
}

#[test]
fn deliveries_that_come_meanwhile_are_kept() -> Result<(), SdkError> {
    let mut engine = engine()?;
    let other = GatewayServerFrame::Deliver { entry: entry(1, "other") };
    assert_eq!(engine.submit_frame("mine", other.clone(), ""), FrameStep::ReadMore);
    let wake = GatewayServerFrame::InBandWake {
        target_delivery_id: "target_test".to_owned(),
        delivery_class: DeliveryClass::OpaqueEvent,
    };
    assert_eq!(engine.submit_frame("mine", wake.clone(), ""), FrameStep::ReadMore);
    let mine = GatewayServerFrame::Deliver { entry: entry(2, "mine") };
    assert_eq!(engine.submit_frame("mine", mine, ""), FrameStep::Done(entry(2, "mine")));
    assert_eq!(
        engine.submit_frame("mine", nack(), ""),
        FrameStep::Failed(SdkError::GatewaySessionRejected("no".to_owned()))
    );
    assert_eq!(
        engine.submit_frame("mine", GatewayServerFrame::Heartbeat { now: 1 }, "beat"),
        FrameStep::Failed(SdkError::GatewaySessionRejected(
            "expected deliver after submit, got beat".to_owned()
        ))
    );
    assert_eq!(engine.set_aside(other), None);
    assert_eq!(engine.set_aside(wake.clone()), None);
    assert_eq!(engine.set_aside(nack()), Some(nack()));
    let response = GatewayOwnDeviceFanoutResponse {
        principal_id: "p".to_owned(),
        source_device_id: "d".to_owned(),
        delivered: vec![],
    };
    assert_eq!(
        engine.fanout_frame(
            GatewayServerFrame::Deliver { entry: entry(3, "third") },
            ""
        ),
        FrameStep::ReadMore
    );
    assert_eq!(
        engine.fanout_frame(
            GatewayServerFrame::OwnDeviceFanout { response: response.clone() },
            ""
        ),
        FrameStep::Done(response)
    );
    assert!(matches!(engine.fanout_frame(wake, ""), FrameStep::ReadMore));
    assert!(matches!(engine.fanout_frame(nack(), ""), FrameStep::Failed(_)));

    // What was set aside and what comes meanwhile is handed over, each envelope once.
    let mut delivered = engine.take_pending_deliveries();
    assert_eq!(engine.pending_deliveries, vec![]);
    assert_eq!(delivered.len(), 3);
    let fourth = GatewayServerFrame::Deliver { entry: entry(4, "fourth") };
    assert_eq!(
        GatewaySessionEngine::resume_frame(&mut delivered, fourth, ""),
        FrameStep::ReadMore
    );
    let resumed = GatewayServerFrame::Resume { entries: vec![entry(3, "third"), entry(5, "fifth")] };
    let step = GatewaySessionEngine::resume_frame(&mut delivered, resumed, "");
    assert_eq!(
        step,
        FrameStep::Done(vec![
            entry(1, "other"),
            entry(3, "third"),
            entry(4, "fourth"),
            entry(5, "fifth")
        ])
    );
    assert!(matches!(
        GatewaySessionEngine::resume_frame(&mut delivered, nack(), ""),
        FrameStep::Failed(_)
    ));
    Ok(())
}

#[test]
fn entries_are_taken_up_once_and_in_order() {
    let entries = vec![entry(9, "c"), entry(3, "a"), entry(5, "b"), entry(5, "b2"), entry(2, "z")];
    assert_eq!(
        pending_entries(entries, 2),
        vec![entry(3, "a"), entry(5, "b"), entry(5, "b2"), entry(9, "c")]
    );
    let once = dedup_gateway_entries(vec![entry(1, "a"), entry(2, "b"), entry(3, "a")]);
    assert_eq!(once, vec![entry(1, "a"), entry(2, "b")]);
    assert_eq!(dedup_gateway_entries(once.clone()), once);
}

#[test]
fn acknowledgements_move_the_cursor() -> Result<(), SdkError> {
    let mut engine = engine()?;
    let acked = engine.ack_frame(GatewayServerFrame::Ack { cursor: cursor(20) }, "")?;
    assert_eq!(engine.config.last_seen_inbox_seq, 20);
    let none = GatewayServerFrame::Cursor { cursor: None };
    assert_eq!(engine.cursor_after_ack_frame(acked.clone(), none, ""), Ok(cursor(20)));
    let later = GatewayServerFrame::Cursor { cursor: Some(cursor(21)) };
    assert_eq!(engine.cursor_after_ack_frame(acked.clone(), later, ""), Ok(cursor(21)));
    assert_eq!(engine.config.last_seen_inbox_seq, 21);
    assert_eq!(engine.ack_frame(nack(), ""), rejected("no"));
    let beat = GatewayServerFrame::Heartbeat { now: 1 };
    assert_eq!(engine.ack_frame(beat.clone(), "beat"), rejected("expected ack cursor, got beat"));
    assert_eq!(
        engine.cursor_after_ack_frame(acked, beat, "beat"),
        rejected("expected cursor after ack, got beat")
    );
    engine.prepare_reconnect(3);
    assert_eq!(engine.config.last_seen_inbox_seq, 3);
    Ok(())
}

#[test]
fn frames_are_asked_for() -> Result<(), SdkError> {
    let engine = engine()?;
    assert_eq!(
        engine.cursor(),
        GatewayClientFrame::Cursor { target_delivery_id: "target_test".to_owned() }
    );
    match engine.resume_after(7, 50) {
        GatewayClientFrame::Resume { resume } => {
            assert_eq!((resume.after_inbox_seq, resume.limit), (7, 50));
            assert_eq!(resume.resume_token, "resume");
        }
        other => panic!("unexpected frame {other:?}"),
    }
    assert_eq!(engine.heartbeat(8), GatewayClientFrame::Heartbeat { now: 8 });
    assert_eq!(engine.close("bye"), GatewayClientFrame::Close { reason: "bye".to_owned() });
    Ok(())
}

#[test]
fn answers_are_taken_for_what_they_are() {
    let beat = || GatewayServerFrame::Heartbeat { now: 1 };
    assert_eq!(heartbeat_frame(beat(), ""), Ok(()));
    assert_eq!(heartbeat_frame(nack(), ""), rejected("no"));
    let empty = GatewayServerFrame::Cursor { cursor: None };
    assert_eq!(heartbeat_frame(empty.clone(), "c"), rejected("expected heartbeat frame, got c"));
    assert!(!must_reconnect(&Some(Ok(()))));
    assert!(must_reconnect(&Some(rejected("no"))));
    assert!(must_reconnect(&None));
    assert_eq!(cursor_frame(empty, ""), Ok(None));
    assert_eq!(cursor_frame(beat(), "b"), rejected("expected cursor frame, got b"));
    let mut response = SdkMvp1IdentityRegistrationResponse {
        principal_id: "p".to_owned(),
        device_id: "d".to_owned(),
        device_epoch: 1,
        target_delivery_id: "t".to_owned(),
        session_bound: true,
        registration_trust_tier: "tier".to_owned(),
    };
    let registered = GatewayServerFrame::IdentityRegistered { response: response.clone() };
    assert_eq!(identity_frame(registered, ""), Ok(response.clone()));
    assert_eq!(identity_frame(beat(), "b"), rejected("expected identity_registered frame, got b"));
    assert_eq!(check_session_bound(&response), Ok(()));
    response.session_bound = false;
    assert_eq!(
        check_session_bound(&response),
        rejected("identity registration did not bind the gateway session")
    );
    assert_eq!(prekey_published_frame(beat(), "b"), rejected("expected prekey_published frame, got b"));
    assert_eq!(prekey_frame(beat(), "b"), rejected("expected prekey frame, got b"));
    assert_eq!(relay_token_frame(beat(), "b"), rejected("expected relay_token_issued frame, got b"));
    assert_eq!(
        relay_token_v3_frame(beat(), "b"),
        rejected("expected relay_token_v3_issued frame, got b")
    );
    assert_eq!(relay_token_v3_frame(nack(), "b"), rejected("no"));
    assert_eq!(
        gateway_timeout_error("gateway heartbeat"),
        SdkError::GatewaySessionRejected("gateway heartbeat timed out after 15s".to_owned())
    );
}

fn prekeys(bundle: Option<PrekeyBundle>) -> SdkMvp1PrekeyResponse {
    SdkMvp1PrekeyResponse {
        device_id: "bob".to_owned(),
        principal_commitment: "commitment".to_owned(),
        bundle,
        target_delivery_id: None,
    }
}

#[test]
fn prekeys_are_needed() {
    let bundle = PrekeyBundle {
        device_id: "bob".to_owned(),
        device_epoch: 1,
        identity_key: [1; 32],
        signed_prekey_id: "s".to_owned(),
        signed_prekey: [2; 32],
        one_time_prekey_id: None,
    };
    assert_eq!(needed_bundle(prekeys(Some(bundle.clone())), "bob"), Ok(bundle));
    assert!(needed_bundle(prekeys(None), "bob").is_err());
    assert_eq!(prekey_path("bob"), "/mvp1/prekey/bob");
}

#[test]
fn requests_take_their_route() {
    let auto = GatewaySessionTransportKind::Auto;
    assert_eq!(first_route(auto, 10, 2), GatewayRoute::Quic { wait: 2 });
    assert_eq!(fallback_route(auto), Some(GatewayRoute::TcpTls));
    let quic = GatewaySessionTransportKind::Quic;
    assert_eq!(first_route(quic, 10, 2), GatewayRoute::Quic { wait: 10 });
    assert_eq!(fallback_route(quic), None);
    assert_eq!(active_kind(GatewayRoute::TcpTls), GatewaySessionTransportKind::TcpTls);
    assert_eq!(gateway_success_body("GET", "/x", 200, "{}".to_owned()), Ok("{}".to_owned()));
    assert_eq!(
        gateway_success_body("GET", "/x", 404, "{}".to_owned()),
        rejected("gateway request GET /x rejected with status 404: {}")
    );
}

#[test]
fn http_heads_are_written_and_read() -> Result<(), SdkError> {
    assert_eq!(sdk_http_host_port("http://127.0.0.1:80/base"), Ok("127.0.0.1:80".to_owned()));
    assert_eq!(
        sdk_http_host_port("https://host"),
        Err(SdkError::LocalBus("unsupported prekey URL: https://host".to_owned()))
    );
    assert_eq!(
        http_post_head("http://h", "/p", 12)?,
        "POST /p HTTP/1.1\r\nHost: h\r\nContent-Type: application/json\r\nContent-Length: 12\r\n\
         Connection: close\r\n\r\n"
    );
    assert_eq!(
        http_get_head("http://h", "/p")?,
        "GET /p HTTP/1.1\r\nHost: h\r\nConnection: close\r\n\r\n"
    );
    let mut head = HttpResponseHead::start("HTTP/1.1 200 OK\r\n")?;
    assert_eq!(
        head.body_length(),
        Err(SdkError::LocalBus("SDK HTTP response missing Content-Length".to_owned()))
    );
    assert_eq!(head.line("Server: x\r\n"), Ok(true));
    assert_eq!(head.line("Content-Length: 12\r\n"), Ok(true));
    assert_eq!(head.line("\r\n"), Ok(false));
    assert_eq!(head.body_length(), Ok(12));
    assert_eq!(head.check_status(""), Ok(()));
    assert_eq!(
        head.line(""),
        Err(SdkError::LocalBus("SDK HTTP response ended before header terminator".to_owned()))
    );
    for (value, words) in [
        ("", "cannot parse integer from empty string"),
        ("x", "invalid digit found in string"),
        ("99999999999999999999", "number too large to fit in target type"),
    ] {
        assert_eq!(
            head.line(&format!("Content-Length: {value}\r\n")),
            Err(SdkError::LocalBus(format!("bad SDK HTTP response content length: {words}")))
        );
    }
    assert_eq!(
        HttpResponseHead::start(""),
        Err(SdkError::LocalBus("SDK HTTP response missing status line".to_owned()))
    );
    let refused = HttpResponseHead::start("HTTP/1.1 500 Oops\r\n")?;
    assert_eq!(
        refused.check_status("why"),
        Err(SdkError::LocalBus("SDK HTTP request failed: HTTP/1.1 500 Oops: why".to_owned()))
    );
    assert_eq!(crate_name(), "ramflux-sdk");
    Ok(())
}
