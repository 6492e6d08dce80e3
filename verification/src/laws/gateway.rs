//! The session with the gateway: how it is opened and gone on with, what is signed in it, and that
//! nothing that is delivered in it is lost or handed out twice.
use crate::digest::HashInput;
use crate::error::SdkError;
use crate::gateway::engine::{
    check_session_bound, cursor_frame, gateway_timeout_error, heartbeat_frame, identity_frame,
    must_reconnect, prekey_frame, prekey_published_frame, relay_token_frame, relay_token_v3_frame,
    FrameStep, GatewaySessionEngine,
};
use crate::gateway::entries::{dedup_gateway_entries, pending_entries};
use crate::gateway::helpers::{
    auth_request_to_sign, copy_texts, device_proof_to_sign, gateway_open_frame_with_nonce,
    gateway_stream_nonce_text, resume_token_hash_input, sdk_signed_fields,
};
use crate::gateway::protocol::{
    Ack, DeviceProof, Envelope, GatewayCursor, GatewayInboxEntry, GatewayOpenFrame,
    GatewayOwnDeviceFanoutResponse, GatewayQuicEndpointConfig, GatewayServerFrame,
    GatewaySessionConfig, GatewaySessionEstablishedFrame, GatewaySessionTransportKind,
    GatewayTcpTlsEndpointConfig, HttpMethod, RelayTokenV3, SignedFields, SignedRequest,
};
use crate::gateway::requests::{GatewayClientFrame, SessionOperation};
use crate::object::{DeviceBranch, SdkRelayToken};
use crate::prekey::{
    active_kind, fallback_route, first_route, GatewayRoute, SdkMvp1IdentityRegistrationResponse,
    SdkMvp1PrekeyResponse,
};
use crate::text::{decimal, decimal_int};
use vstd::prelude::*;

verus! {

// ---- opening a session ----

/// What every new setting for a session starts from, whatever it is made of: nothing seen yet, no
/// session to go on with, and five minutes to show the authorization in.
pub open spec fn starts_afresh(config: GatewaySessionConfig, device_id: Seq<char>, now: i64) -> bool {
    &&& config.client_instance_id@ == "rf_sdk_"@ + device_id
    &&& config.device_id@ == device_id
    &&& config.device_epoch == 1
    &&& config.branch_proof_hash@ == "sdk_branch_proof_hash"@
    &&& config.device_branch is None
    &&& config.capability_scope@.len() == 1
    &&& config.capability_scope@[0]@ == "gateway.session"@
    &&& config.now == now
    &&& now <= i64::MAX - 300 ==> config.auth_expires_at == now + 300
    &&& now > i64::MAX - 300 ==> config.auth_expires_at == i64::MAX
    &&& config.timeout == 10_000
    &&& config.quic_fallback_timeout == 1_500
    &&& config.previous_session_id is None
    &&& config.resume_token is None
    &&& config.last_seen_inbox_seq == 0
    &&& config.pre_auth_cookie is None
    &&& config.pre_auth_now is None
    &&& config.source_ip_hash is None
    &&& config.max_inflight_downstream == 64
    &&& config.max_inflight_upstream == 64
}

/// The settings for a session are those of its endpoint, by the transport they were asked for; only
/// those for QUIC alone have no address for the other transport to fall back on.
pub proof fn law_session_goes_to_its_endpoint(
    endpoint: GatewayQuicEndpointConfig,
    tcp_endpoint: GatewayTcpTlsEndpointConfig,
    now: i64,
    quic: GatewaySessionConfig,
    auto: GatewaySessionConfig,
    tcp: GatewaySessionConfig,
)
    requires
        call_ensures(GatewaySessionConfig::quic, (endpoint, now), quic),
        call_ensures(GatewaySessionConfig::auto, (endpoint, now), auto),
        call_ensures(GatewaySessionConfig::tcp_tls, (tcp_endpoint, now), tcp),
    ensures
        quic.transport_kind is Quic && auto.transport_kind is Auto && tcp.transport_kind is TcpTls,
        quic.bind_addr == endpoint.bind_addr && auto.bind_addr == endpoint.bind_addr,
        quic.gateway_addr == endpoint.gateway_addr && auto.gateway_addr == endpoint.gateway_addr,
        quic.tcp_gateway_addr is None && auto.tcp_gateway_addr == Some(endpoint.gateway_addr),
        quic.server_name == endpoint.server_name && auto.server_name == endpoint.server_name,
        quic.ca_cert == endpoint.ca_cert && auto.ca_cert == endpoint.ca_cert,
        quic.principal_id == endpoint.principal_id && auto.principal_id == endpoint.principal_id,
        quic.target_delivery_id == endpoint.target_delivery_id && auto.target_delivery_id
            == endpoint.target_delivery_id,
        quic.prekey_http_url == endpoint.prekey_http_url && auto.prekey_http_url
            == endpoint.prekey_http_url,
        starts_afresh(quic, endpoint.device_id@, now),
        starts_afresh(auto, endpoint.device_id@, now),
        tcp.bind_addr == tcp_endpoint.bind_addr,
        tcp.gateway_addr == tcp_endpoint.gateway_addr,
        tcp.tcp_gateway_addr == Some(tcp_endpoint.gateway_addr),
        tcp.server_name == tcp_endpoint.server_name,
        tcp.ca_cert == tcp_endpoint.ca_cert,
        tcp.principal_id == tcp_endpoint.principal_id,
        tcp.target_delivery_id == tcp_endpoint.target_delivery_id,
        tcp.prekey_http_url == tcp_endpoint.prekey_http_url,
        starts_afresh(tcp, tcp_endpoint.device_id@, now),
{
}

/// Each of the settings that can be changed changes that one, and the identity of a device changes
/// with the device.
pub proof fn law_setting_changes_what_it_names(
    config: GatewaySessionConfig,
    addr: String,
    timeout: u64,
    branch: DeviceBranch,
    with_addr: GatewaySessionConfig,
    with_timeout: GatewaySessionConfig,
    with_branch: GatewaySessionConfig,
    tcp_addr: &str,
    plain_addr: &str,
)
    requires
        call_ensures(GatewaySessionConfig::with_tcp_gateway_addr, (config, addr), with_addr),
        call_ensures(
            GatewaySessionConfig::with_quic_fallback_timeout,
            (config, timeout),
            with_timeout,
        ),
        call_ensures(GatewaySessionConfig::with_device_branch, (config, branch), with_branch),
        call_ensures(GatewaySessionConfig::tcp_addr, (&with_addr,), tcp_addr),
        call_ensures(GatewaySessionConfig::tcp_addr, (&config,), plain_addr),
    ensures
        tcp_addr@ == addr@,
        config.tcp_gateway_addr is None ==> plain_addr@ == config.gateway_addr@,
        config.tcp_gateway_addr matches Some(known) ==> plain_addr@ == known@,
        with_addr == (GatewaySessionConfig {
            tcp_gateway_addr: with_addr.tcp_gateway_addr,
            ..config
        }),
        with_timeout.quic_fallback_timeout == timeout,
        with_timeout == (GatewaySessionConfig {
            quic_fallback_timeout: with_timeout.quic_fallback_timeout,
            ..config
        }),
        with_branch.device_branch == Some(branch),
        with_branch.principal_id == branch.principal_id,
        with_branch.device_id == branch.device_id,
        with_branch.device_epoch == branch.device_epoch,
        with_branch.target_delivery_id == config.target_delivery_id,
        with_branch.gateway_addr == config.gateway_addr,
        with_branch.now == config.now && with_branch.auth_expires_at == config.auth_expires_at,
        with_branch.resume_token == config.resume_token,
        with_branch.last_seen_inbox_seq == config.last_seen_inbox_seq,
{
}

/// A session is opened by the transport it was set to, QUIC first where both are allowed, with the
/// shorter wait; there is another way only then, and it is named by the way that was taken.
pub proof fn law_transport_is_the_one_asked_for(
    kind: GatewaySessionTransportKind,
    wait: u64,
    fallback_wait: u64,
    first: GatewayRoute,
    fallback: Option<GatewayRoute>,
    route: GatewayRoute,
    active: GatewaySessionTransportKind,
    name: &str,
)
    requires
        call_ensures(first_route, (kind, wait, fallback_wait), first),
        call_ensures(fallback_route, (kind,), fallback),
        call_ensures(active_kind, (route,), active),
        call_ensures(GatewaySessionTransportKind::wire_name, (kind,), name),
    ensures
        first is TcpTls <==> kind is TcpTls,
        kind is Quic ==> first == (GatewayRoute::Quic { wait }),
        kind is Auto ==> first == (GatewayRoute::Quic { wait: fallback_wait }),
        fallback is Some <==> kind is Auto,
        fallback matches Some(other) ==> other is TcpTls,
        active is Quic <==> route is Quic,
        active is TcpTls <==> route is TcpTls,
        kind is Auto ==> name@ == "auto"@,
        kind is Quic ==> name@ == "quic_quinn"@,
        kind is TcpTls ==> name@ == "tcp_tls"@,
{
}

/// The first frame of a session, the proof of the device and the signed request that follow it say who
/// the device is and hold one nonce; the session that it goes on with is the one of the settings.
pub proof fn law_session_is_opened_by_its_device(
    config: &GatewaySessionConfig,
    stream_nonce: String,
    resume_token_hash: String,
    open: GatewayOpenFrame,
    device_proof: Result<DeviceProof, SdkError>,
    device_proof_hash: &str,
    open_hash: &str,
    request: Result<SignedRequest, SdkError>,
)
    requires
        call_ensures(
            gateway_open_frame_with_nonce,
            (config, stream_nonce, resume_token_hash),
            open,
        ),
        call_ensures(device_proof_to_sign, (config, &open), device_proof),
        call_ensures(
            auth_request_to_sign,
            (config, &open, device_proof_hash, open_hash),
            request,
        ),
    ensures
        open.protocol_version@ == "ramflux.gateway_session.v1"@,
        open.device_id@ == config.device_id@,
        open.target_delivery_id@ == config.target_delivery_id@,
        open.client_instance_id@ == config.client_instance_id@,
        open.stream_nonce@ == stream_nonce@,
        open.previous_session_id == config.previous_session_id,
        open.resume_token_hash is Some <==> config.resume_token is Some,
        open.resume_token_hash matches Some(hash) ==> hash@ == resume_token_hash@,
        open.last_seen_inbox_seq == Some(config.last_seen_inbox_seq),
        open.max_inflight_downstream == config.max_inflight_downstream,
        open.max_inflight_upstream == config.max_inflight_upstream,
        open.pre_auth_cookie == config.pre_auth_cookie,
        open.pre_auth_now == config.pre_auth_now,
        open.source_ip_hash == config.source_ip_hash,
        config.transport_kind is Quic ==> open.transport_kind@ == "quic_quinn"@,
        config.transport_kind is TcpTls ==> open.transport_kind@ == "tcp_tls"@,
        config.transport_kind is Auto ==> open.transport_kind@ == "auto"@,
        device_proof is Ok <==> config.device_branch is Some,
        request is Ok <==> config.device_branch is Some,
        device_proof matches Ok(p) ==> {
            &&& p.device_id@ == config.device_id@
            &&& p.principal_id@ == config.principal_id@
            &&& p.device_epoch == config.device_epoch
            &&& p.branch_proof_hash@ == config.branch_proof_hash@
            &&& p.capability_scope@ == config.capability_scope@
            &&& p.nonce@ == stream_nonce@
            &&& p.expires_at == config.auth_expires_at
            &&& p.schema@ == "ramflux.device_proof.v1"@
            &&& p.domain@ == p.schema@
            &&& p.version == 1
            &&& p.signed.signing_key_id@ == "device:"@ + config.device_id@
            &&& p.signed.signature@ == ""@
        },
        request matches Ok(q) ==> {
            &&& q.source_device_id@ == config.device_id@
            &&& q.nonce@ == stream_nonce@
            &&& q.request_id@ == "req_sdk_auth_"@ + stream_nonce@
            &&& q.method is POST
            &&& q.path@ == "/gateway/session/auth"@
            &&& q.device_proof_hash@ == device_proof_hash@
            &&& q.body_hash@ == open_hash@
            &&& q.created_at == config.now
            &&& q.expires_at == config.auth_expires_at
            &&& q.schema@ == "ramflux.signed_request.v1"@
            &&& q.domain@ == q.schema@
            &&& q.version == 1
            &&& q.signed.signing_key_id@ == "device:"@ + config.device_id@
            &&& q.signed.signature@ == ""@
        },
{
}

/// What is signed later in a session is named by the session and by a number that grows by one with
/// each; it lives five minutes, and no delivery is touched by it.
pub proof fn law_operation_is_signed_as_asked(
    engine: &mut GatewaySessionEngine,
    operation: SessionOperation,
    now: i64,
    body_hash: &str,
    nonce: &str,
    r: Result<SignedRequest, SdkError>,
)
    requires
        call_ensures(
            GatewaySessionEngine::operation_to_sign,
            (engine, operation, now, body_hash, nonce),
            r,
        ),
    ensures
        r is Ok <==> old(engine).config.device_branch is Some,
        final(engine).session == old(engine).session,
        final(engine).pending_deliveries == old(engine).pending_deliveries,
        final(engine).config.target_delivery_id == old(engine).config.target_delivery_id,
        final(engine).config.device_branch == old(engine).config.device_branch,
        final(engine).config.last_seen_inbox_seq == old(engine).config.last_seen_inbox_seq,
        final(engine).config.resume_token == old(engine).config.resume_token,
        final(engine).config.now == now,
        r is Ok && old(engine).request_counter < u64::MAX ==> final(engine).request_counter == old(engine).request_counter + 1,
        r is Err ==> final(engine).request_counter == old(engine).request_counter,
        r matches Ok(q) ==> {
            &&& q.request_id@ == "req_sdk_"@ + old(engine).session.session_id@ + "_"@ + decimal(
                old(engine).request_counter as nat,
            )
            &&& q.source_device_id@ == old(engine).config.device_id@
            &&& q.method is POST
            &&& q.path@ == match operation {
                SessionOperation::Submit => "/gateway/session/submit"@,
                SessionOperation::OwnDeviceFanout => "/gateway/session/own-device-fanout"@,
                SessionOperation::RelayToken => "/relay/v1/token/issue"@,
                SessionOperation::RelayTokenV3 => "/relay/v1/token/v3/issue"@,
            }
            &&& q.device_proof_hash@ == "already_authed"@
            &&& q.body_hash@ == body_hash@
            &&& q.nonce@ == nonce@
            &&& q.created_at == now
            &&& now <= i64::MAX - 300 ==> q.expires_at == now + 300
            &&& q.signed.signing_key_id@ == "device:"@ + old(engine).config.device_id@
        },
{
}

/// A request of any method is signed in the same way, if it is one of the four that there are.
pub proof fn law_request_is_signed_as_asked(
    engine: &mut GatewaySessionEngine,
    now: i64,
    method: &str,
    path: &str,
    device_proof_hash: &str,
    body_hash: &str,
    nonce: &str,
    r: Result<SignedRequest, SdkError>,
)
    requires
        call_ensures(
            GatewaySessionEngine::signed_request,
            (engine, now, method, path, device_proof_hash, body_hash, nonce),
            r,
        ),
    ensures
        r is Ok <==> old(engine).config.device_branch is Some && (method@ == "POST"@ || method@
            == "GET"@ || method@ == "PUT"@ || method@ == "DELETE"@),
        final(engine).session == old(engine).session,
        final(engine).pending_deliveries == old(engine).pending_deliveries,
        r is Ok && old(engine).request_counter < u64::MAX ==> final(engine).request_counter == old(engine).request_counter + 1,
        r is Err ==> final(engine).request_counter == old(engine).request_counter,
        r matches Ok(q) ==> {
            &&& q.request_id@ == "req_sdk_"@ + old(engine).session.session_id@ + "_"@ + decimal(
                old(engine).request_counter as nat,
            )
            &&& q.source_device_id@ == old(engine).config.device_id@
            &&& q.path@ == path@
            &&& q.device_proof_hash@ == device_proof_hash@
            &&& q.body_hash@ == body_hash@
            &&& q.nonce@ == nonce@
            &&& q.created_at == now
            &&& now <= i64::MAX - 300 ==> q.expires_at == now + 300
            &&& q.method is POST ==> method@ == "POST"@
            &&& q.method is GET ==> method@ == "GET"@
            &&& q.method is PUT ==> method@ == "PUT"@
            &&& q.method is DELETE ==> method@ == "DELETE"@
        },
{
    reveal_strlit("POST");
    reveal_strlit("GET");
    reveal_strlit("PUT");
    reveal_strlit("DELETE");
}

/// A nonce is made of the client, its device, its box, the time and the number of the request.
pub proof fn law_nonce_is_made_of_its_request(
    config: &GatewaySessionConfig,
    counter: u64,
    text: String,
    token: &str,
    input: HashInput,
    signature: &str,
    fields: SignedFields,
    texts: &Vec<String>,
    copy: Vec<String>,
    operation: &str,
    late: SdkError,
)
    requires
        call_ensures(gateway_stream_nonce_text, (config, counter), text),
        call_ensures(resume_token_hash_input, (token,), input),
        call_ensures(sdk_signed_fields, (signature,), fields),
        call_ensures(copy_texts, (texts,), copy),
        call_ensures(gateway_timeout_error, (operation,), late),
    ensures
        text@ == config.client_instance_id@ + ":"@ + config.device_id@ + ":"@
            + config.target_delivery_id@ + ":"@ + decimal_int(config.now as int) + ":"@ + decimal(
            counter as nat,
        ),
        input.domain@ == "ramflux.gateway.resume_token.v1"@,
        input.bytes@ == vstd::utf8::encode_utf8(token@),
        fields.signing_key_id@ == "fixture"@ && fields.signature@ == signature@,
        copy@ == texts@,
        late matches SdkError::GatewaySessionRejected(words) && words@ == operation@
            + " timed out after 15s"@,
{
}

/// A session is there exactly if the gateway says so; it then has what the gateway gave it, and the
/// next one goes on with it, from the place that the gateway accepted.
pub proof fn law_session_goes_on_where_it_was(
    config: GatewaySessionConfig,
    kind: GatewaySessionTransportKind,
    frame: GatewayServerFrame,
    shown: &str,
    r: Result<GatewaySessionEngine, SdkError>,
)
    requires
        call_ensures(GatewaySessionEngine::established, (config, kind, frame, shown), r),
    ensures
        r is Ok <==> frame is SessionEstablished,
        r matches Ok(engine) ==> {
            let session = frame->SessionEstablished_session;
            &&& engine.session.session_id == session.session_id
            &&& engine.session.gateway_id == session.gateway_id
            &&& engine.session.resume_token == session.resume_token
            &&& engine.session.resume_window_seconds == session.resume_window_seconds
            &&& session.accepted_cursor matches Some(cursor) ==> engine.session.accepted_inbox_seq
                == cursor.inbox_seq
            &&& session.accepted_cursor is None ==> engine.session.accepted_inbox_seq
                == config.last_seen_inbox_seq
            &&& engine.config.last_seen_inbox_seq == engine.session.accepted_inbox_seq
            &&& engine.config.previous_session_id == Some(session.session_id)
            &&& engine.config.resume_token == Some(session.resume_token)
            &&& engine.config.transport_kind == kind
            &&& engine.config.target_delivery_id == config.target_delivery_id
            &&& engine.config.device_id == config.device_id
            &&& engine.config.principal_id == config.principal_id
            &&& engine.config.device_branch == config.device_branch
            &&& engine.config.device_epoch == config.device_epoch
            &&& engine.config.now == config.now
            &&& engine.config.auth_expires_at == config.auth_expires_at
            &&& engine.request_counter == 1
            &&& engine.pending_deliveries@.len() == 0
        },
{
}

/// What is read of a session is what it holds.
pub proof fn law_session_is_read_as_it_is(
    engine: &GatewaySessionEngine,
    session: &crate::gateway::protocol::GatewaySessionState,
    target: &str,
    kind: GatewaySessionTransportKind,
)
    requires
        call_ensures(GatewaySessionEngine::session, (engine,), session),
        call_ensures(GatewaySessionEngine::target_delivery_id, (engine,), target),
        call_ensures(GatewaySessionEngine::active_transport_kind, (engine,), kind),
    ensures
        *session == engine.session,
        target@ == engine.config.target_delivery_id@,
        kind == engine.config.transport_kind,
{
}

// ---- what is sent ----

/// A frame holds what it was made of, and asks for the box and with the token of its session.
pub proof fn law_frame_holds_what_was_given(
    engine: &GatewaySessionEngine,
    signed_request: SignedRequest,
    envelope: Envelope,
    principal_id: String,
    source_device_id: String,
    ack: Ack,
    after_inbox_seq: u64,
    limit: usize,
    now: u64,
    reason: &str,
    submit: GatewayClientFrame,
    fanout: GatewayClientFrame,
    acked: GatewayClientFrame,
    cursor: GatewayClientFrame,
    resume: GatewayClientFrame,
    beat: GatewayClientFrame,
    close: GatewayClientFrame,
    request: crate::gateway::protocol::GatewayResumeFrame,
)
    requires
        call_ensures(
            GatewaySessionEngine::submit_envelope,
            (engine, signed_request, envelope),
            submit,
        ),
        call_ensures(
            GatewaySessionEngine::own_device_fanout,
            (engine, signed_request, principal_id, source_device_id, envelope),
            fanout,
        ),
        call_ensures(GatewaySessionEngine::ack, (engine, ack), acked),
        call_ensures(GatewaySessionEngine::cursor, (engine,), cursor),
        call_ensures(GatewaySessionEngine::resume_after, (engine, after_inbox_seq, limit), resume),
        call_ensures(GatewaySessionEngine::resume_request, (engine, after_inbox_seq, limit), request),
        call_ensures(GatewaySessionEngine::heartbeat, (engine, now), beat),
        call_ensures(GatewaySessionEngine::close, (engine, reason), close),
    ensures
        submit matches GatewayClientFrame::Submit { submit: s } && s.signed_request == signed_request
            && s.envelope == envelope,
        fanout matches GatewayClientFrame::OwnDeviceFanout { fanout: f } && f.signed_request
            == signed_request && f.envelope == envelope && f.principal_id == principal_id
            && f.source_device_id == source_device_id,
        acked matches GatewayClientFrame::Ack { ack: a } && a == ack,
        cursor matches GatewayClientFrame::Cursor { target_delivery_id } && target_delivery_id
            == engine.config.target_delivery_id,
        resume matches GatewayClientFrame::Resume { resume: q } && q.after_inbox_seq
            == after_inbox_seq && q.limit == limit && q.target_delivery_id
            == engine.config.target_delivery_id && q.resume_token == engine.session.resume_token
            && q == request,
        beat matches GatewayClientFrame::Heartbeat { now: at } && at == now,
        close matches GatewayClientFrame::Close { reason: words } && words@ == reason@,
{
}

// ---- what is read ----

/// A delivery that comes in the midst of something else is put by, in the order in which it came, and
/// every other frame is handed on; all that is put by is handed out once.
pub proof fn law_no_delivery_is_lost(
    engine: &mut GatewaySessionEngine,
    frame: GatewayServerFrame,
    r: Option<GatewayServerFrame>,
    later: &mut GatewaySessionEngine,
    taken: Vec<GatewayInboxEntry>,
)
    requires
        call_ensures(GatewaySessionEngine::set_aside, (engine, frame), r),
        *old(later) == *final(engine),
        call_ensures(GatewaySessionEngine::take_pending_deliveries, (later,), taken),
    ensures
        r is Some <==> !(frame is Deliver || frame is InBandWake),
        r matches Some(handed) ==> handed == frame,
        frame is Deliver ==> taken@ == old(engine).pending_deliveries@.push(frame->entry),
        !(frame is Deliver) ==> taken@ == old(engine).pending_deliveries@,
        final(engine).config == old(engine).config,
        final(engine).session == old(engine).session,
        final(engine).request_counter == old(engine).request_counter,
        final(later).pending_deliveries@.len() == 0,
        final(later).config == old(engine).config,
        final(later).session == old(engine).session,
        final(later).request_counter == old(engine).request_counter,
{
}

/// What a submission waits for is the delivery of its own envelope; another delivery is put by.
pub proof fn law_submission_waits_for_its_envelope(
    engine: &mut GatewaySessionEngine,
    envelope_id: &str,
    frame: GatewayServerFrame,
    shown: &str,
    r: FrameStep<GatewayInboxEntry>,
)
    requires
        call_ensures(
            GatewaySessionEngine::submit_frame,
            (engine, envelope_id, frame, shown),
            r,
        ),
    ensures
        r is Done <==> frame is Deliver && frame->entry.envelope.envelope_id@ == envelope_id@,
        r matches FrameStep::Done(entry) ==> entry == frame->entry,
        r is ReadMore <==> frame is InBandWake || (frame is Deliver
            && frame->entry.envelope.envelope_id@ != envelope_id@),
        frame is Deliver && frame->entry.envelope.envelope_id@ != envelope_id@ ==> final(engine).pending_deliveries@ == old(engine).pending_deliveries@.push(frame->entry),
        !(frame is Deliver) || r is Done ==> final(engine).pending_deliveries@ == old(engine).pending_deliveries@,
        final(engine).config == old(engine).config,
        final(engine).session == old(engine).session,
        final(engine).request_counter == old(engine).request_counter,
{
}

/// What a fan-out waits for is its answer; a delivery that comes first is put by.
pub proof fn law_fanout_waits_for_its_answer(
    engine: &mut GatewaySessionEngine,
    frame: GatewayServerFrame,
    shown: &str,
    r: FrameStep<GatewayOwnDeviceFanoutResponse>,
)
    requires
        call_ensures(GatewaySessionEngine::fanout_frame, (engine, frame, shown), r),
    ensures
        r is Done <==> frame is OwnDeviceFanout,
        r matches FrameStep::Done(response) ==> response == frame->OwnDeviceFanout_response,
        r is ReadMore <==> frame is Deliver || frame is InBandWake,
        frame is Deliver ==> final(engine).pending_deliveries@ == old(engine).pending_deliveries@.push(frame->entry),
        !(frame is Deliver) ==> final(engine).pending_deliveries@ == old(engine).pending_deliveries@,
        final(engine).config == old(engine).config,
        final(engine).session == old(engine).session,
        final(engine).request_counter == old(engine).request_counter,
{
}

/// Whether entries hold an envelope of a name.
pub open spec fn holds(entries: Seq<GatewayInboxEntry>, envelope_id: Seq<char>) -> bool {
    exists|i: int|
        0 <= i < entries.len() && (#[trigger] entries[i]).envelope.envelope_id@ == envelope_id
}

/// Whether no two entries hold one envelope.
pub open spec fn each_once(entries: Seq<GatewayInboxEntry>) -> bool {
    forall|i: int, j: int|
        0 <= i < j < entries.len() ==> (#[trigger] entries[i]).envelope.envelope_id@ != (
        #[trigger] entries[j]).envelope.envelope_id@
}

/// What is taken up again is all that was delivered before the answer and all that the answer holds,
/// each envelope once.
pub proof fn law_taken_up_again_is_all_once(
    delivered: &mut Vec<GatewayInboxEntry>,
    frame: GatewayServerFrame,
    shown: &str,
    r: FrameStep<Vec<GatewayInboxEntry>>,
)
    requires
        call_ensures(GatewaySessionEngine::resume_frame, (delivered, frame, shown), r),
    ensures
        r is Done <==> frame is Resume,
        r is ReadMore <==> frame is Deliver || frame is InBandWake,
        frame is Deliver ==> final(delivered)@ == old(delivered)@.push(frame->entry),
        !(frame is Deliver) && !(frame is Resume) ==> final(delivered)@ == old(delivered)@,
        r matches FrameStep::Done(all) ==> {
            let given = old(delivered)@ + frame->entries@;
            &&& each_once(all@)
            &&& forall|id: Seq<char>| #[trigger] holds(given, id) <==> holds(all@, id)
            &&& forall|i: int| 0 <= i < all@.len() ==> given.contains(#[trigger] all@[i])
            &&& final(delivered)@.len() == 0
        },
{
    if r is Done {
        let given = old(delivered)@ + frame->entries@;
        lemma_once(given, r->Done_0@);
    }
}

proof fn lemma_once(given: Seq<GatewayInboxEntry>, kept: Seq<GatewayInboxEntry>)
    requires
        kept == crate::gateway::entries::deduped(given),
    ensures
        each_once(kept),
        forall|id: Seq<char>| #[trigger] holds(given, id) <==> holds(kept, id),
        forall|i: int| 0 <= i < kept.len() ==> given.contains(#[trigger] kept[i]),
{
    crate::gateway::entries::law_deduped_keeps_each_envelope_once(given);
    assert forall|id: Seq<char>| #[trigger] holds(given, id) <==> holds(kept, id) by {
        assert(crate::gateway::entries::has_envelope(given, id)
            <==> crate::gateway::entries::has_envelope(kept, id));
        assert(holds(given, id) == crate::gateway::entries::has_envelope(given, id));
        assert(holds(kept, id) == crate::gateway::entries::has_envelope(kept, id));
    }
}

/// Entries are handed out once each, the first of each name, in the order in which they came.
pub proof fn law_entries_are_kept_once(
    entries: Vec<GatewayInboxEntry>,
    r: Vec<GatewayInboxEntry>,
)
    requires
        call_ensures(dedup_gateway_entries, (entries,), r),
    ensures
        each_once(r@),
        forall|id: Seq<char>| #[trigger] holds(entries@, id) <==> holds(r@, id),
        forall|i: int| 0 <= i < r@.len() ==> entries@.contains(#[trigger] r@[i]),
        each_once(entries@) ==> r@ == entries@,
        entries@.len() > 0 ==> r@.len() > 0 && r@[0] == entries@[0],
{
    lemma_once(entries@, r@);
    lemma_first_is_kept(entries@);
    if each_once(entries@) {
        lemma_apart_is_kept(entries@);
    }
}

proof fn lemma_apart_is_kept(s: Seq<GatewayInboxEntry>)
    requires
        each_once(s),
    ensures
        crate::gateway::entries::deduped(s) == s,
    decreases s.len(),
{
    if s.len() > 0 {
        let rest = s.drop_last();
        lemma_apart_is_kept(rest);
        let id = s.last().envelope.envelope_id@;
        if crate::gateway::entries::has_envelope(rest, id) {
            let i = choose|i: int|
                0 <= i < rest.len() && (#[trigger] rest[i]).envelope.envelope_id@ == id;
            assert(s[i].envelope.envelope_id@ != s[s.len() - 1].envelope.envelope_id@);
        }
        assert(rest.push(s.last()) =~= s);
    }
}

proof fn lemma_first_is_kept(s: Seq<GatewayInboxEntry>)
    ensures
        s.len() > 0 ==> crate::gateway::entries::deduped(s).len() > 0
            && crate::gateway::entries::deduped(s)[0] == s[0],
    decreases s.len(),
{
    if s.len() > 1 {
        lemma_first_is_kept(s.drop_last());
        assert(s.drop_last()[0] == s[0]);
    } else if s.len() == 1 {
        assert(crate::gateway::entries::deduped(s.drop_last()).len() == 0);
        assert(!crate::gateway::entries::has_envelope(
            crate::gateway::entries::deduped(s.drop_last()),
            s.last().envelope.envelope_id@,
        ));
    }
}

/// The entries after a place are those of a later number, all of them, in the order of their numbers.
pub proof fn law_entries_after_a_place_come_in_order(
    entries: Vec<GatewayInboxEntry>,
    after: u64,
    r: Vec<GatewayInboxEntry>,
)
    requires
        call_ensures(pending_entries, (entries, after), r),
    ensures
        forall|e: GatewayInboxEntry| #[trigger]
            r@.contains(e) <==> entries@.contains(e) && e.inbox_seq > after,
        forall|i: int, j: int|
            0 <= i <= j < r@.len() ==> (#[trigger] r@[i]).inbox_seq <= (
            #[trigger] r@[j]).inbox_seq,
        r@.len() <= entries@.len(),
{
    crate::gateway::entries::law_entries_after_are_in_order(entries@, after);
    lemma_no_more_after(entries@, after);
}

proof fn lemma_no_more_after(entries: Seq<GatewayInboxEntry>, after: u64)
    ensures
        crate::gateway::entries::entries_after(entries, after).len() <= entries.len(),
    decreases entries.len(),
{
    if entries.len() > 0 {
        let before = entries.drop_last();
        lemma_no_more_after(before, after);
        crate::gateway::entries::law_entries_after_are_in_order(before, after);
        let rest = crate::gateway::entries::entries_after(before, after);
        lemma_place_is_inside(rest, entries.last().inbox_seq);
    }
}

proof fn lemma_place_is_inside(sorted: Seq<GatewayInboxEntry>, inbox_seq: u64)
    ensures
        0 <= crate::gateway::entries::place_for(sorted, inbox_seq) <= sorted.len(),
    decreases sorted.len(),
{
    if sorted.len() > 0 && sorted.last().inbox_seq > inbox_seq {
        lemma_place_is_inside(sorted.drop_last(), inbox_seq);
    }
}

/// After an acknowledgement the session has seen what the gateway says it has, and nothing else of it
/// changes; the cursor that the gateway then tells counts more than that of the acknowledgement.
pub proof fn law_acknowledgement_moves_the_session_on(
    engine: &mut GatewaySessionEngine,
    frame: GatewayServerFrame,
    shown: &str,
    r: Result<GatewayCursor, SdkError>,
)
    requires
        call_ensures(GatewaySessionEngine::ack_frame, (engine, frame, shown), r),
    ensures
        r is Ok <==> frame is Ack,
        r matches Ok(cursor) ==> cursor == frame->Ack_cursor && final(engine).config.last_seen_inbox_seq == cursor.inbox_seq,
        r is Err ==> *final(engine) == *old(engine),
        final(engine).session == old(engine).session,
        final(engine).pending_deliveries == old(engine).pending_deliveries,
        final(engine).request_counter == old(engine).request_counter,
        final(engine).config == (GatewaySessionConfig {
            last_seen_inbox_seq: final(engine).config.last_seen_inbox_seq,
            ..old(engine).config
        }),
{
}

/// The cursor that follows an acknowledgement is the one that the gateway tells, and the one of the
/// acknowledgement where it tells none.
pub proof fn law_told_cursor_counts_more(
    engine: &mut GatewaySessionEngine,
    ack_cursor: GatewayCursor,
    frame: GatewayServerFrame,
    shown: &str,
    r: Result<GatewayCursor, SdkError>,
)
    requires
        call_ensures(
            GatewaySessionEngine::cursor_after_ack_frame,
            (engine, ack_cursor, frame, shown),
            r,
        ),
    ensures
        r is Ok <==> frame is Cursor,
        frame matches GatewayServerFrame::Cursor { cursor: Some(told) } ==> r
            == Ok::<GatewayCursor, SdkError>(told) && final(engine).config.last_seen_inbox_seq
            == told.inbox_seq,
        frame matches GatewayServerFrame::Cursor { cursor: None } ==> r
            == Ok::<GatewayCursor, SdkError>(ack_cursor) && *final(engine) == *old(engine),
        r is Err ==> *final(engine) == *old(engine),
        final(engine).session == old(engine).session,
        final(engine).pending_deliveries == old(engine).pending_deliveries,
        final(engine).request_counter == old(engine).request_counter,
{
}

/// A reconnection goes on from the given place, and with everything else of the session.
pub proof fn law_reconnection_goes_on_from_its_place(
    engine: &mut GatewaySessionEngine,
    last_seen_inbox_seq: u64,
    config: &mut GatewaySessionConfig,
    now: i64,
)
    requires
        call_ensures(GatewaySessionEngine::prepare_reconnect, (engine, last_seen_inbox_seq), ()),
        call_ensures(GatewaySessionConfig::refresh_auth_window, (config, now), ()),
    ensures
        final(engine).config.last_seen_inbox_seq == last_seen_inbox_seq,
        final(engine).config == (GatewaySessionConfig {
            last_seen_inbox_seq: final(engine).config.last_seen_inbox_seq,
            ..old(engine).config
        }),
        final(engine).session == old(engine).session,
        final(engine).pending_deliveries == old(engine).pending_deliveries,
        final(engine).request_counter == old(engine).request_counter,
        final(config).now == now,
        now <= i64::MAX - 300 ==> final(config).auth_expires_at == now + 300,
        now > i64::MAX - 300 ==> final(config).auth_expires_at == i64::MAX,
        *final(config) == (GatewaySessionConfig {
            now: final(config).now,
            auth_expires_at: final(config).auth_expires_at,
            ..*old(config)
        }),
{
}

/// Of each frame that answers a request, what it holds is handed out, and a frame of another kind is
/// refused; a refusal of the gateway is told in its own words.
pub proof fn law_answer_is_read_from_its_frame(
    frame: GatewayServerFrame,
    shown: &str,
    beat: Result<(), SdkError>,
    cursor: Result<Option<GatewayCursor>, SdkError>,
    identity: Result<SdkMvp1IdentityRegistrationResponse, SdkError>,
    published: Result<SdkMvp1PrekeyResponse, SdkError>,
    prekey: Result<SdkMvp1PrekeyResponse, SdkError>,
    token: Result<SdkRelayToken, SdkError>,
    token_v3: Result<RelayTokenV3, SdkError>,
)
    requires
        call_ensures(heartbeat_frame, (frame, shown), beat),
        call_ensures(cursor_frame, (frame, shown), cursor),
        call_ensures(identity_frame, (frame, shown), identity),
        call_ensures(prekey_published_frame, (frame, shown), published),
        call_ensures(prekey_frame, (frame, shown), prekey),
        call_ensures(relay_token_frame, (frame, shown), token),
        call_ensures(relay_token_v3_frame, (frame, shown), token_v3),
    ensures
        beat is Ok <==> frame is Heartbeat,
        cursor is Ok <==> frame is Cursor,
        cursor matches Ok(c) ==> c == frame->Cursor_cursor,
        identity is Ok <==> frame is IdentityRegistered,
        identity matches Ok(a) ==> a == frame->IdentityRegistered_response,
        published is Ok <==> frame is PrekeyPublished,
        published matches Ok(a) ==> a == frame->PrekeyPublished_response,
        prekey is Ok <==> frame is Prekey,
        prekey matches Ok(a) ==> a == frame->Prekey_response,
        token is Ok <==> frame is RelayTokenIssued,
        token matches Ok(t) ==> t == frame->RelayTokenIssued_response.relay_token,
        token_v3 is Ok <==> frame is RelayTokenV3Issued,
        token_v3 matches Ok(t) ==> t == frame->relay_token,
        frame matches GatewayServerFrame::Nack { reason } ==> {
            &&& beat matches Err(SdkError::GatewaySessionRejected(m)) && m@ == reason@
            &&& cursor matches Err(SdkError::GatewaySessionRejected(m)) && m@ == reason@
            &&& identity matches Err(SdkError::GatewaySessionRejected(m)) && m@ == reason@
            &&& published matches Err(SdkError::GatewaySessionRejected(m)) && m@ == reason@
            &&& prekey matches Err(SdkError::GatewaySessionRejected(m)) && m@ == reason@
            &&& token matches Err(SdkError::GatewaySessionRejected(m)) && m@ == reason@
            &&& token_v3 matches Err(SdkError::GatewaySessionRejected(m)) && m@ == reason@
        },
{
}

/// A session is opened anew unless it has just answered; an identity is bound to its session or the
/// registration does not count.
pub proof fn law_silent_session_is_opened_anew(
    heartbeat: &Option<Result<(), SdkError>>,
    again: bool,
    response: &SdkMvp1IdentityRegistrationResponse,
    bound: Result<(), SdkError>,
)
    requires
        call_ensures(must_reconnect, (heartbeat,), again),
        call_ensures(check_session_bound, (response,), bound),
    ensures
        !again <==> (*heartbeat is Some && heartbeat->0 is Ok),
        bound is Ok <==> response.session_bound,
{
}

} // verus!
