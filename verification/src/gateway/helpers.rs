//! The frames that open and authenticate a session, before they are signed.
use crate::constants::GATEWAY_SESSION_PROTOCOL_VERSION;
use crate::digest::{hashes, HashInput};
use crate::error::{is_rejected, SdkError};
use crate::gateway::protocol::{
    DeviceProof, GatewayOpenFrame, GatewaySessionConfig, GatewaySessionEstablishedFrame,
    GatewaySessionState, HttpMethod, SignatureAlg, SignedFields, SignedRequest,
};
use crate::text::{copy_opt, decimal, decimal_i64, decimal_int, decimal_u64};
use vstd::prelude::*;

verus! {

/// A copy of a list of texts.
pub fn copy_texts(texts: &Vec<String>) -> (r: Vec<String>)
    ensures
        r@ == texts@,
{
    let mut r: Vec<String> = Vec::new();
    let mut i: usize = 0;
    while i < texts.len()
        invariant
            i <= texts.len(),
            r@ == texts@.take(i as int),
        decreases texts.len() - i,
    {
        r.push(texts[i].clone());
        i = i + 1;
        assert(texts@.take(i as int) =~= texts@.take(i - 1).push(texts@[i - 1]));
    }
    assert(texts@.take(i as int) =~= texts@);
    r
}

/// The session that a gateway has accepted. Where the gateway names no cursor, the client's own
/// place in the inbox holds.
pub fn gateway_session_state(
    session: &GatewaySessionEstablishedFrame,
    fallback_inbox_seq: u64,
) -> (r: GatewaySessionState)
    ensures
        r == (GatewaySessionState {
            session_id: session.session_id,
            gateway_id: session.gateway_id,
            resume_token: session.resume_token,
            resume_window_seconds: session.resume_window_seconds,
            accepted_inbox_seq: match session.accepted_cursor {
                Some(cursor) => cursor.inbox_seq,
                None => fallback_inbox_seq,
            },
        }),
{
    let accepted_inbox_seq: u64 = match &session.accepted_cursor {
        Some(cursor) => cursor.inbox_seq,
        None => fallback_inbox_seq,
    };
    GatewaySessionState {
        session_id: session.session_id.clone(),
        gateway_id: session.gateway_id.clone(),
        resume_token: session.resume_token.clone(),
        resume_window_seconds: session.resume_window_seconds,
        accepted_inbox_seq,
    }
}

/// What the hash of a token to resume with is made of.
pub fn resume_token_hash_input(token: &str) -> (r: HashInput)
    ensures
        hashes(r, "ramflux.gateway.resume_token.v1"@, vstd::utf8::encode_utf8(token@)),
{
    HashInput {
        domain: "ramflux.gateway.resume_token.v1".to_owned(),
        bytes: token.as_bytes_vec(),
    }
}

/// The frame that opens a session. `resume_token_hash` is the hash of the token to resume with, and
/// is left out where the session has none.
pub fn gateway_open_frame_with_nonce(
    config: &GatewaySessionConfig,
    stream_nonce: String,
    resume_token_hash: String,
) -> (r: GatewayOpenFrame)
    ensures
        r.protocol_version@ == "ramflux.gateway_session.v1"@,
        r.transport_kind@ == config.transport_kind.name(),
        r.client_instance_id == config.client_instance_id,
        r.device_id == config.device_id,
        r.target_delivery_id == config.target_delivery_id,
        r.stream_nonce == stream_nonce,
        r.previous_session_id == config.previous_session_id,
        r.resume_token_hash == (if config.resume_token is Some {
            Some(resume_token_hash)
        } else {
            None
        }),
        r.last_seen_inbox_seq == Some(config.last_seen_inbox_seq),
        r.max_inflight_downstream == config.max_inflight_downstream,
        r.max_inflight_upstream == config.max_inflight_upstream,
        r.pre_auth_cookie == config.pre_auth_cookie,
        r.pre_auth_now == config.pre_auth_now,
        r.source_ip_hash == config.source_ip_hash,
{
    let resume_token_hash = match &config.resume_token {
        Some(token) => Some(resume_token_hash),
        None => None,
    };
    GatewayOpenFrame {
        protocol_version: GATEWAY_SESSION_PROTOCOL_VERSION.to_owned(),
        transport_kind: config.transport_kind.wire_name().to_owned(),
        client_instance_id: config.client_instance_id.clone(),
        device_id: config.device_id.clone(),
        target_delivery_id: config.target_delivery_id.clone(),
        stream_nonce,
        previous_session_id: copy_opt(&config.previous_session_id),
        resume_token_hash,
        last_seen_inbox_seq: Some(config.last_seen_inbox_seq),
        max_inflight_downstream: config.max_inflight_downstream,
        max_inflight_upstream: config.max_inflight_upstream,
        pre_auth_cookie: copy_opt(&config.pre_auth_cookie),
        pre_auth_now: config.pre_auth_now,
        source_ip_hash: copy_opt(&config.source_ip_hash),
    }
}

/// Whether `f` names a device as the signer, and carries the given signature.
pub open spec fn is_device_signed(f: SignedFields, device_id: Seq<char>, signature: Seq<char>) -> bool {
    f.signing_key_id@ == "device:"@ + device_id && f.signature_alg is Ed25519 && f.signature@
        == signature
}

/// The signature fields of a fixture key.
pub fn sdk_signed_fields(signature: &str) -> (r: SignedFields)
    ensures
        r.signing_key_id@ == "fixture"@,
        r.signature_alg is Ed25519,
        r.signature@ == signature@,
{
    SignedFields {
        signing_key_id: "fixture".to_owned(),
        signature_alg: SignatureAlg::Ed25519,
        signature: signature.to_owned(),
    }
}

/// The signature fields of a device's key.
pub fn sdk_device_signed_fields(device_id: &str, signature: &str) -> (r: SignedFields)
    ensures
        is_device_signed(r, device_id@, signature@),
{
    SignedFields {
        signing_key_id: "device:".to_owned().concat(device_id),
        signature_alg: SignatureAlg::Ed25519,
        signature: signature.to_owned(),
    }
}

/// The complaint that a session has no device key.
pub open spec fn missing_branch_text(device_id: Seq<char>) -> Seq<char> {
    "missing registered device branch for "@ + device_id
}

fn missing_branch(device_id: &str) -> (e: SdkError)
    ensures
        e matches SdkError::GatewaySessionRejected(m) && m@ == missing_branch_text(device_id@),
{
    SdkError::GatewaySessionRejected(
        "missing registered device branch for ".to_owned().concat(device_id),
    )
}

/// The proof of who the device is, before it is signed. Its nonce is that of the opening frame.
pub fn device_proof_to_sign(config: &GatewaySessionConfig, open: &GatewayOpenFrame) -> (r: Result<
    DeviceProof,
    SdkError,
>)
    ensures
        if config.device_branch is None {
            is_rejected(r, missing_branch_text(config.device_id@))
        } else {
            r matches Ok(p) && {
                &&& p.schema@ == "ramflux.device_proof.v1"@
                &&& p.version == 1
                &&& p.domain@ == "ramflux.device_proof.v1"@
                &&& is_device_signed(p.signed, config.device_id@, ""@)
                &&& p.principal_id == config.principal_id
                &&& p.device_id == config.device_id
                &&& p.device_epoch == config.device_epoch
                &&& p.branch_proof_hash == config.branch_proof_hash
                &&& p.capability_scope@ == config.capability_scope@
                &&& p.nonce == open.stream_nonce
                &&& p.expires_at == config.auth_expires_at
            }
        },
{
    if config.device_branch.is_none() {
        return Err(missing_branch(config.device_id.as_str()));
    }
    Ok(
        DeviceProof {
            schema: "ramflux.device_proof.v1".to_owned(),
            version: 1,
            domain: "ramflux.device_proof.v1".to_owned(),
            signed: sdk_device_signed_fields(config.device_id.as_str(), ""),
            principal_id: config.principal_id.clone(),
            device_id: config.device_id.clone(),
            device_epoch: config.device_epoch,
            branch_proof_hash: config.branch_proof_hash.clone(),
            capability_scope: copy_texts(&config.capability_scope),
            nonce: open.stream_nonce.clone(),
            expires_at: config.auth_expires_at,
        },
    )
}

/// Whether `q` is a request of the session's device, valid in the session's window, not yet signed.
pub open spec fn is_session_request(
    q: SignedRequest,
    config: GatewaySessionConfig,
    request_id: Seq<char>,
    method: HttpMethod,
    path: Seq<char>,
    device_proof_hash: Seq<char>,
    body_hash: Seq<char>,
    nonce: Seq<char>,
) -> bool {
    &&& q.schema@ == "ramflux.signed_request.v1"@
    &&& q.version == 1
    &&& q.domain@ == "ramflux.signed_request.v1"@
    &&& is_device_signed(q.signed, config.device_id@, ""@)
    &&& q.source_device_id == config.device_id
    &&& q.request_id@ == request_id
    &&& q.method == method
    &&& q.path@ == path
    &&& q.device_proof_hash@ == device_proof_hash
    &&& q.body_hash@ == body_hash
    &&& q.nonce@ == nonce
    &&& q.created_at == config.now
    &&& q.expires_at == config.auth_expires_at
}

fn session_request(
    config: &GatewaySessionConfig,
    request_id: String,
    method: HttpMethod,
    path: &str,
    device_proof_hash: &str,
    body_hash: &str,
    nonce: &str,
) -> (r: SignedRequest)
    ensures
        is_session_request(
            r,
            *config,
            request_id@,
            method,
            path@,
            device_proof_hash@,
            body_hash@,
            nonce@,
        ),
{
    SignedRequest {
        schema: "ramflux.signed_request.v1".to_owned(),
        version: 1,
        domain: "ramflux.signed_request.v1".to_owned(),
        signed: sdk_device_signed_fields(config.device_id.as_str(), ""),
        source_device_id: config.device_id.clone(),
        request_id,
        method,
        path: path.to_owned(),
        device_proof_hash: device_proof_hash.to_owned(),
        body_hash: body_hash.to_owned(),
        nonce: nonce.to_owned(),
        created_at: config.now,
        expires_at: config.auth_expires_at,
    }
}

/// The request that authenticates a session, before it is signed. Its name and its nonce are bound
/// to the opening frame.
pub fn auth_request_to_sign(
    config: &GatewaySessionConfig,
    open: &GatewayOpenFrame,
    device_proof_hash: &str,
    open_hash: &str,
) -> (r: Result<SignedRequest, SdkError>)
    ensures
        if config.device_branch is None {
            is_rejected(r, missing_branch_text(config.device_id@))
        } else {
            r matches Ok(q) && is_session_request(
                q,
                *config,
                "req_sdk_auth_"@ + open.stream_nonce@,
                HttpMethod::POST,
                "/gateway/session/auth"@,
                device_proof_hash@,
                open_hash@,
                open.stream_nonce@,
            )
        },
{
    if config.device_branch.is_none() {
        return Err(missing_branch(config.device_id.as_str()));
    }
    let request_id = "req_sdk_auth_".to_owned().concat(open.stream_nonce.as_str());
    Ok(
        session_request(
            config,
            request_id,
            HttpMethod::POST,
            "/gateway/session/auth",
            device_proof_hash,
            open_hash,
            open.stream_nonce.as_str(),
        ),
    )
}

/// The text whose hash is the nonce of a request.
pub open spec fn nonce_text(config: GatewaySessionConfig, counter: nat) -> Seq<char> {
    config.client_instance_id@ + ":"@ + config.device_id@ + ":"@ + config.target_delivery_id@ + ":"@
        + decimal_int(config.now as int) + ":"@ + decimal(counter)
}

/// The text whose hash is the nonce of a request.
pub fn gateway_stream_nonce_text(config: &GatewaySessionConfig, counter: u64) -> (r: String)
    ensures
        r@ == nonce_text(*config, counter as nat),
{
    let now = decimal_i64(config.now);
    let count = decimal_u64(counter);
    config.client_instance_id.clone().concat(":").concat(config.device_id.as_str()).concat(
        ":",
    ).concat(config.target_delivery_id.as_str()).concat(":").concat(now.as_str()).concat(
        ":",
    ).concat(count.as_str())
}

/// The name of a request of a session.
pub open spec fn request_name(session_id: Seq<char>, counter: nat) -> Seq<char> {
    "req_sdk_"@ + session_id + "_"@ + decimal(counter)
}

/// A request of a session, before it is signed. The window in which it is valid starts anew at
/// `now`, so that no request of a long session is stale. `nonce` is the hash of the nonce text.
pub fn build_gateway_signed_request(
    config: &mut GatewaySessionConfig,
    now: i64,
    session_id: &str,
    request_counter: u64,
    method: HttpMethod,
    path: &str,
    device_proof_hash: &str,
    body_hash: &str,
    nonce: &str,
) -> (r: Result<SignedRequest, SdkError>)
    ensures
        *final(config) == old(config).refreshed(now),
        if old(config).device_branch is None {
            is_rejected(r, missing_branch_text(old(config).device_id@))
        } else {
            r matches Ok(q) && is_session_request(
                q,
                *final(config),
                request_name(session_id@, request_counter as nat),
                method,
                path@,
                device_proof_hash@,
                body_hash@,
                nonce@,
            )
        },
{
    config.refresh_auth_window(now);
    if config.device_branch.is_none() {
        return Err(missing_branch(config.device_id.as_str()));
    }
    let count = decimal_u64(request_counter);
    let request_id = "req_sdk_".to_owned().concat(session_id).concat("_").concat(count.as_str());
    Ok(
        session_request(
            config,
            request_id,
            method,
            path,
            device_proof_hash,
            body_hash,
            nonce,
        ),
    )
}

/// A request is never stale when it is made: where the window of the session was started anew at
/// its time, it lives for the whole window from then on.
pub proof fn law_fresh_request_lives_its_window(
    config: GatewaySessionConfig,
    q: SignedRequest,
    request_id: Seq<char>,
    method: HttpMethod,
    path: Seq<char>,
    device_proof_hash: Seq<char>,
    body_hash: Seq<char>,
    nonce: Seq<char>,
)
    requires
        is_session_request(
            q,
            config,
            request_id,
            method,
            path,
            device_proof_hash,
            body_hash,
            nonce,
        ),
        config.auth_expires_at == crate::gateway::protocol::saturated_sum(config.now as int, 300),
        config.now <= i64::MAX - 300,
    ensures
        q.created_at == config.now,
        q.expires_at - q.created_at == 300,
{
}

/// Two requests of one session have different names and different nonce texts, even at one time.
pub proof fn law_requests_are_told_apart(config: GatewaySessionConfig, a: nat, b: nat)
    requires
        a != b,
    ensures
        forall|session_id: Seq<char>| #[trigger]
            request_name(session_id, a) != request_name(session_id, b),
        nonce_text(config, a) != nonce_text(config, b),
{
    assert forall|session_id: Seq<char>| #[trigger]
        request_name(session_id, a) != request_name(session_id, b) by {
        if request_name(session_id, a) == request_name(session_id, b) {
            let before = "req_sdk_"@ + session_id + "_"@;
            assert(before + decimal(a) + Seq::<char>::empty() =~= before + decimal(a));
            assert(before + decimal(b) + Seq::<char>::empty() =~= before + decimal(b));
            crate::text::law_part_is_bound(before, decimal(a), decimal(b), Seq::empty());
            crate::text::law_decimal_injective(a, b);
        }
    }
    if nonce_text(config, a) == nonce_text(config, b) {
        let before = config.client_instance_id@ + ":"@ + config.device_id@ + ":"@
            + config.target_delivery_id@ + ":"@ + decimal_int(config.now as int) + ":"@;
        assert(before + decimal(a) + Seq::<char>::empty() =~= before + decimal(a));
        assert(before + decimal(b) + Seq::<char>::empty() =~= before + decimal(b));
        crate::text::law_part_is_bound(before, decimal(a), decimal(b), Seq::empty());
        crate::text::law_decimal_injective(a, b);
    }
}

/// A number that stands behind the last colon of a text is bound by the text.
proof fn lemma_last_number_is_bound(first: Seq<char>, second: Seq<char>, a: nat, b: nat)
    requires
        first + ":"@ + decimal(a) == second + ":"@ + decimal(b),
    ensures
        a == b,
{
    reveal_strlit(":");
    let x = first + ":"@ + decimal(a);
    let y = second + ":"@ + decimal(b);
    let n = x.len() as int;
    let la = decimal(a).len() as int;
    let lb = decimal(b).len() as int;
    crate::text::lemma_decimal_digits(a);
    crate::text::lemma_decimal_digits(b);
    assert(x[n - la - 1] == ':');
    assert(y[n - lb - 1] == ':');
    if la < lb {
        assert(y[n - la - 1] == decimal(b)[lb - la - 1]);
        assert(crate::text::is_digit(decimal(b)[lb - la - 1]));
    } else if lb < la {
        assert(x[n - lb - 1] == decimal(a)[la - lb - 1]);
        assert(crate::text::is_digit(decimal(a)[la - lb - 1]));
    } else {
        assert(decimal(a) =~= x.skip(n - la));
        assert(decimal(b) =~= y.skip(n - lb));
        crate::text::law_decimal_injective(a, b);
    }
}

/// Two requests of one session are told apart whenever each was made, and each is fresh then. However
/// old the window of the session is, each request has its own from its own time on: the whole of it,
/// beyond the old one wherever that is over by then, and the session keeps it for the next request.
/// The names of the two differ, the texts whose hashes are their nonces differ, and so do the nonces,
/// unless two different texts have one hash.
pub proof fn law_consecutive_requests_are_fresh_and_apart(
    aged: GatewaySessionConfig,
    now0: i64,
    now1: i64,
    session_id: Seq<char>,
    a: nat,
    b: nat,
    q: SignedRequest,
    q_method: HttpMethod,
    q_path: Seq<char>,
    q_body_hash: Seq<char>,
    p: SignedRequest,
    p_method: HttpMethod,
    p_path: Seq<char>,
    p_body_hash: Seq<char>,
    device_proof_hash: Seq<char>,
    nonce: spec_fn(Seq<char>) -> Seq<char>,
)
    requires
        a != b,
        now0 <= i64::MAX - 300,
        now1 <= i64::MAX - 300,
        is_session_request(
            q,
            aged.refreshed(now0),
            request_name(session_id, a),
            q_method,
            q_path,
            device_proof_hash,
            q_body_hash,
            nonce(nonce_text(aged.refreshed(now0), a)),
        ),
        is_session_request(
            p,
            aged.refreshed(now0).refreshed(now1),
            request_name(session_id, b),
            p_method,
            p_path,
            device_proof_hash,
            p_body_hash,
            nonce(nonce_text(aged.refreshed(now0).refreshed(now1), b)),
        ),
    ensures
        q.request_id@ != p.request_id@,
        nonce_text(aged.refreshed(now0), a) != nonce_text(
            aged.refreshed(now0).refreshed(now1),
            b,
        ),
        ({
            let first = nonce_text(aged.refreshed(now0), a);
            let second = nonce_text(aged.refreshed(now0).refreshed(now1), b);
            nonce(first) == nonce(second) ==> first == second
        }) ==> q.nonce@ != p.nonce@,
        q.created_at == now0 && q.expires_at == now0 + 300,
        p.created_at == now1 && p.expires_at == now1 + 300,
        aged.auth_expires_at <= now0 ==> q.expires_at > aged.auth_expires_at,
        aged.auth_expires_at <= now1 ==> p.expires_at > aged.auth_expires_at,
        aged.refreshed(now0).now == q.created_at,
        aged.refreshed(now0).auth_expires_at == q.expires_at,
        aged.refreshed(now0).refreshed(now1).now == p.created_at,
        aged.refreshed(now0).refreshed(now1).auth_expires_at == p.expires_at,
{
    let first = aged.refreshed(now0);
    let second = first.refreshed(now1);
    law_requests_are_told_apart(first, a, b);
    if nonce_text(first, a) == nonce_text(second, b) {
        lemma_last_number_is_bound(
            first.client_instance_id@ + ":"@ + first.device_id@ + ":"@ + first.target_delivery_id@
                + ":"@ + decimal_int(first.now as int),
            second.client_instance_id@ + ":"@ + second.device_id@ + ":"@
                + second.target_delivery_id@ + ":"@ + decimal_int(second.now as int),
            a,
            b,
        );
    }
}

/// Two attempts to authenticate with different nonces have different names.
pub proof fn law_auth_attempts_are_told_apart(first: Seq<char>, second: Seq<char>)
    requires
        first != second,
    ensures
        "req_sdk_auth_"@ + first != "req_sdk_auth_"@ + second,
{
    if "req_sdk_auth_"@ + first == "req_sdk_auth_"@ + second {
        let before = "req_sdk_auth_"@;
        assert(before + first + Seq::<char>::empty() =~= before + first);
        assert(before + second + Seq::<char>::empty() =~= before + second);
        crate::text::law_part_is_bound(before, first, second, Seq::empty());
    }
}

} // verus!
