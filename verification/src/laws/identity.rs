//! The identity of a device and where others find it: registration, prekeys, the place that they are
//! fetched from, and what an identity is known by.
use crate::client::identity::{
    identity_seed_input, prekeys_to_publish, registration_proof_terms, signed_prekey_id,
    signed_prekey_seed_input, x3dh_private_state, BranchProofTerms, GatewayPrekeyPlan, PrekeyPlan,
    SdkMvp1PublishPrekeyRequest, SdkMvp1RegisterIdentityRequest,
};
use crate::client::state::{IdentityRoot, RamfluxClient};
use crate::digest::HashInput;
use crate::dm::SdkX3dhPrivateState;
use crate::error::SdkError;
use crate::manifest::{
    commitment_source, federated_commitment, manifest_path, needed_manifest, prekey_commitment,
    source_name, target_commitment, CommitmentSource,
};
use crate::object::DeviceBranch;
use crate::prekey::{
    gateway_success_body, http_get_head, http_post_head, identity_root_public_key_commitment,
    identity_root_public_key_commitment_for_seed, needed_bundle, prekey_path, sdk_http_host_port,
    BranchProofDocument, HttpResponseHead, PrekeyBundle, SdkMvp1IdentityRegistrationResponse,
    SdkMvp1PrekeyResponse,
};
use crate::records::{AccountDbRequest, EventWrite};
use crate::text::{decimal, occurs_in, starts_with, trimmed_end};
use vstd::prelude::*;

verus! {

/// Whether a request registers a device of an identity: under their keys, with the proof that is
/// given, for the box and the session that are named, at the given time, and without what only a
/// gateway knows.
pub open spec fn is_registration(
    q: SdkMvp1RegisterIdentityRequest,
    client: RamfluxClient,
    device_id: Seq<char>,
    target: Seq<char>,
    session_id: Seq<char>,
    commitment: Seq<char>,
    branch_proof: BranchProofDocument,
    now: i64,
) -> bool {
    &&& q.root_public_key@ == client.identity_root->0.public_key@
    &&& q.branch_public_key@ == client.device_branch->0.public_key@
    &&& q.principal_commitment@ == commitment
    &&& q.proof == branch_proof
    &&& q.target_delivery_id@ == target
    &&& q.session_id@ == session_id
    &&& q.gateway_id@ == "ramflux-gateway"@
    &&& q.push_alias_hash matches Some(alias) && alias@ == "push_alias_for_"@ + device_id
    &&& q.now == now
    &&& q.registration_pow is None
    &&& q.source_ip_hash is None
}

/// Whether a write keeps prekeys where the client looks for those of a device.
pub open spec fn keeps_keys_of(w: EventWrite, device_id: Seq<char>, encoded: Seq<u8>) -> bool {
    &&& w.event matches AccountDbRequest::AppendEvent { event_id, event_type, body } && body@
        == encoded && event_type@ == "x3dh.prekey.private"@ && event_id@ == "x3dh.prekey.private:"@
        + device_id
    &&& w.checkpoint matches AccountDbRequest::SetProjectionCheckpoint {
        projection_name,
        last_event_id,
    } && projection_name@ == "x3dh_private:"@ + device_id && last_event_id@
        == "x3dh.prekey.private:"@ + device_id
}

/// An identity and a device that are set are those that act, and nothing else of the client changes.
pub proof fn law_set_identity_acts(
    client: &mut RamfluxClient,
    root: IdentityRoot,
    later: &mut RamfluxClient,
    branch: DeviceBranch,
    both: Result<(&IdentityRoot, &DeviceBranch), SdkError>,
    any: &RamfluxClient,
    acting: Result<(&IdentityRoot, &DeviceBranch), SdkError>,
)
    requires
        call_ensures(RamfluxClient::create_identity_root, (client, root), ()),
        *old(later) == *final(client),
        call_ensures(RamfluxClient::create_device_branch, (later, branch), ()),
        call_ensures(RamfluxClient::authorize_current_device, (&*final(later),), both),
        call_ensures(RamfluxClient::authorize_current_device, (any,), acting),
    ensures
        both matches Ok((r, b)) && *r == root && *b == branch,
        acting is Ok <==> any.identity_root is Some && any.device_branch is Some,
        acting matches Ok((r, b)) ==> *r == any.identity_root->0 && *b == any.device_branch->0,
        final(client).device_branch == old(client).device_branch,
        final(client).active_account_db == old(client).active_account_db,
        final(client).account_index == old(client).account_index,
        final(client).vault_secret_source == old(client).vault_secret_source,
        final(later).active_account_db == old(client).active_account_db,
        final(later).account_index == old(client).account_index,
        final(later).vault_secret_source == old(client).vault_secret_source,
{
}

/// What the proof of a registration is good for: binding the box of the device at the node, for an
/// hour.
pub proof fn law_registration_is_proved_for_an_hour(now: i64, r: BranchProofTerms)
    requires
        call_ensures(registration_proof_terms, (now,), r),
    ensures
        r.audience@ == "ramflux-node"@,
        r.capability_scope@.len() == 1,
        r.capability_scope@[0]@ == "device.delivery.bind"@,
        r.issued_at == now,
        now <= i64::MAX - 3600 ==> r.expires_at == now + 3600,
        now > i64::MAX - 3600 ==> r.expires_at == i64::MAX,
{
}

/// The private half of a device's prekeys holds what they were made of, under the name that the public
/// half is used by; the two seeds come from the seed of the device in ways that are kept apart.
pub proof fn law_private_keys_go_with_their_bundle(
    device_id: &str,
    identity_seed: [u8; 32],
    signed_prekey_seed: [u8; 32],
    bundle: PrekeyBundle,
    r: SdkX3dhPrivateState,
    name: String,
    device_seed: &[u8; 32],
    identity_input: HashInput,
    prekey_input: HashInput,
)
    requires
        call_ensures(
            x3dh_private_state,
            (device_id, identity_seed, signed_prekey_seed, bundle),
            r,
        ),
        call_ensures(signed_prekey_id, (device_id,), name),
        call_ensures(identity_seed_input, (device_seed,), identity_input),
        call_ensures(signed_prekey_seed_input, (device_seed,), prekey_input),
    ensures
        r.device_id@ == device_id@,
        r.identity_seed == identity_seed,
        r.signed_prekey_seed == signed_prekey_seed,
        r.signed_prekey_id@ == name@,
        r.bundle == bundle,
        name@ == device_id@ + ":signed:1"@,
        identity_input.bytes@ == device_seed@ && prekey_input.bytes@ == device_seed@,
        identity_input.domain@ == "ramflux.sdk.x3dh.identity.v1"@,
        prekey_input.domain@ == "ramflux.sdk.x3dh.signed_prekey.v1"@,
        identity_input.domain@ != prekey_input.domain@,
{
    reveal_strlit("ramflux.sdk.x3dh.identity.v1");
    reveal_strlit("ramflux.sdk.x3dh.signed_prekey.v1");
    assert(identity_input.domain@.len() != prekey_input.domain@.len());
}

/// A registration is made of the identity and the device of the client, and prekeys are kept before
/// they are told to others.
pub proof fn law_device_is_registered_as_it_is(
    client: &RamfluxClient,
    device_id: &str,
    target: &str,
    session_id: &str,
    commitment: &str,
    branch_proof: BranchProofDocument,
    now: i64,
    encoded: &[u8],
    request: Result<SdkMvp1RegisterIdentityRequest, SdkError>,
    kept: Result<EventWrite, SdkError>,
    asked: Result<AccountDbRequest, SdkError>,
)
    requires
        call_ensures(
            RamfluxClient::mvp1_identity_registration_request,
            (client, device_id, target, session_id, commitment, branch_proof, now),
            request,
        ),
        call_ensures(
            RamfluxClient::create_and_store_prekey_bundle,
            (client, device_id, encoded),
            kept,
        ),
        call_ensures(RamfluxClient::x3dh_private_checkpoint, (client, device_id), asked),
    ensures
        request is Ok <==> client.identity_root is Some && client.device_branch is Some,
        request matches Ok(q) ==> is_registration(
            q,
            *client,
            device_id@,
            target@,
            session_id@,
            commitment@,
            branch_proof,
            now,
        ),
        kept is Ok <==> client.device_branch is Some && client.active_account_db is Some,
        kept matches Ok(w) ==> keeps_keys_of(w, device_id@, encoded@),
        asked is Ok <==> client.active_account_db is Some,
        asked is Err ==> asked->Err_0 is AccountDbNotUnlocked,
        kept is Ok ==> (asked matches Ok(AccountDbRequest::ProjectionCheckpoint { projection_name })
            && projection_name@
            == kept->Ok_0.checkpoint->SetProjectionCheckpoint_projection_name@),
{
}

/// Prekeys that go over a session are kept and registered in that session; before there is one, in one
/// that is named by the device.
pub proof fn law_prekeys_go_over_their_session(
    client: &RamfluxClient,
    session_id: &str,
    commitment: &str,
    device_id: &str,
    target: &str,
    encoded: &[u8],
    branch_proof: BranchProofDocument,
    now: i64,
    there: Result<GatewayPrekeyPlan, SdkError>,
    before: Result<GatewayPrekeyPlan, SdkError>,
)
    requires
        call_ensures(
            RamfluxClient::initialize_and_publish_prekey_bundle_via_gateway,
            (client, session_id, commitment, device_id, target, encoded, branch_proof, now),
            there,
        ),
        call_ensures(
            RamfluxClient::initialize_and_publish_prekey_bundle_via_gateway_request,
            (client, commitment, device_id, target, encoded, branch_proof, now),
            before,
        ),
    ensures
        there is Ok <==> client.device_branch is Some && client.active_account_db is Some,
        before is Ok <==> there is Ok,
        there matches Ok(plan) ==> {
            &&& keeps_keys_of(plan.keep, device_id@, encoded@)
            &&& plan.register is Ok <==> client.identity_root is Some
            &&& plan.register matches Ok(q) ==> is_registration(
                q,
                *client,
                device_id@,
                target@,
                session_id@,
                commitment@,
                branch_proof,
                now,
            )
        },
        before matches Ok(plan) ==> {
            &&& keeps_keys_of(plan.keep, device_id@, encoded@)
            &&& plan.register is Ok <==> client.identity_root is Some
            &&& plan.register matches Ok(q) ==> is_registration(
                q,
                *client,
                device_id@,
                target@,
                "pre_session_for_"@ + device_id@,
                commitment@,
                branch_proof,
                now,
            )
        },
{
}

/// Prekeys are told at the place that is named, if one is, and otherwise only kept.
pub proof fn law_prekeys_are_told_where_named(
    client: &RamfluxClient,
    commitment: &str,
    device_id: &str,
    target: &str,
    url: Option<&str>,
    encoded: &[u8],
    bundle: PrekeyBundle,
    branch_proof: BranchProofDocument,
    now: i64,
    r: Result<PrekeyPlan, SdkError>,
)
    requires
        call_ensures(
            RamfluxClient::initialize_and_publish_prekey_bundle,
            (client, commitment, device_id, target, url, encoded, bundle, branch_proof, now),
            r,
        ),
    ensures
        r is Ok <==> client.device_branch is Some && client.active_account_db is Some,
        r matches Ok(plan) ==> {
            &&& keeps_keys_of(plan.keep, device_id@, encoded@)
            &&& plan.publication is Ok <==> url is None || client.identity_root is Some
            &&& plan.publication matches Ok(told) ==> (told is Some <==> url is Some)
            &&& plan.publication matches Ok(Some(p)) ==> {
                &&& p.url@ == url->0@
                &&& p.publish.device_id@ == device_id@
                &&& p.publish.bundle == bundle
                &&& is_registration(
                    p.register,
                    *client,
                    device_id@,
                    target@,
                    "session_for_"@ + device_id@,
                    commitment@,
                    branch_proof,
                    now,
                )
            }
        },
{
}

/// Prekeys are published only after a registration that bound the session, and those of the device.
pub proof fn law_prekeys_follow_their_registration(
    registered: Result<SdkMvp1IdentityRegistrationResponse, SdkError>,
    device_id: &str,
    bundle: PrekeyBundle,
    r: Result<SdkMvp1PublishPrekeyRequest, SdkError>,
)
    requires
        call_ensures(prekeys_to_publish, (registered, device_id, bundle), r),
    ensures
        r is Ok <==> registered is Ok && registered->Ok_0.session_bound,
        r matches Ok(publish) ==> publish.device_id@ == device_id@ && publish.bundle == bundle,
        registered matches Err(error) ==> r == Err::<SdkMvp1PublishPrekeyRequest, SdkError>(error),
{
}

/// A bundle that was published is the one that is found, at the place of its device.
pub proof fn law_published_bundle_is_found(
    response: SdkMvp1PrekeyResponse,
    device_id: &str,
    r: Result<PrekeyBundle, SdkError>,
    path: String,
)
    requires
        call_ensures(needed_bundle, (response, device_id), r),
        call_ensures(prekey_path, (device_id,), path),
    ensures
        r is Ok <==> response.bundle is Some,
        r matches Ok(bundle) ==> Some(bundle) == response.bundle,
        path@ == "/mvp1/prekey/"@ + device_id@,
{
}

/// What a request over HTTP is sent to is the host of its place, and its head says what it asks for
/// and how long it is.
pub proof fn law_request_goes_to_its_host(
    base_url: &str,
    path: &str,
    len: usize,
    host: Result<String, SdkError>,
    post: Result<String, SdkError>,
    get: Result<String, SdkError>,
)
    requires
        call_ensures(sdk_http_host_port, (base_url,), host),
        call_ensures(http_post_head, (base_url, path, len), post),
        call_ensures(http_get_head, (base_url, path), get),
    ensures
        host is Ok <==> starts_with(base_url@, "http://"@),
        post is Ok <==> host is Ok,
        get is Ok <==> host is Ok,
        post matches Ok(head) ==> head@ == "POST "@ + path@ + " HTTP/1.1\r\nHost: "@ + host->Ok_0@
            + "\r\nContent-Type: application/json\r\nContent-Length: "@ + decimal(len as nat)
            + "\r\nConnection: close\r\n\r\n"@,
        get matches Ok(head) ==> head@ == "GET "@ + path@ + " HTTP/1.1\r\nHost: "@ + host->Ok_0@
            + "\r\nConnection: close\r\n\r\n"@,
{
}

/// What stands before the first slash behind the scheme is the host: it holds none, and what comes
/// behind it begins with one.
pub proof fn law_host_ends_at_the_first_slash(
    base_url: &str,
    host: Result<String, SdkError>,
    rest: Seq<char>,
)
    requires
        call_ensures(sdk_http_host_port, (base_url,), host),
        host is Ok,
        base_url@ == "http://"@ + rest,
    ensures
        !host->Ok_0@.contains('/'),
        host->Ok_0@.len() <= rest.len(),
        rest.take(host->Ok_0@.len() as int) == host->Ok_0@,
        rest.len() > host->Ok_0@.len() ==> rest[host->Ok_0@.len() as int] == '/',
{
    assert(base_url@.skip("http://"@.len() as int) =~= rest);
    lemma_before_char(rest, '/');
}

proof fn lemma_before_char(s: Seq<char>, c: char)
    ensures
        !crate::text::before_char(s, c).contains(c),
        crate::text::before_char(s, c).len() <= s.len(),
        s.take(crate::text::before_char(s, c).len() as int) == crate::text::before_char(s, c),
        s.len() > crate::text::before_char(s, c).len()
            ==> s[crate::text::before_char(s, c).len() as int] == c,
    decreases s.len(),
{
    if s.len() > 0 && s[0] != c {
        let rest = s.skip(1);
        lemma_before_char(rest, c);
        let before = crate::text::before_char(rest, c);
        let whole = crate::text::before_char(s, c);
        assert(whole.len() == before.len() + 1);
        assert(s.take(whole.len() as int) =~= seq![s[0]] + rest.take(before.len() as int));
        assert(s.take(whole.len() as int) =~= whole);
        if whole.contains(c) {
            let i = choose|i: int| 0 <= i < whole.len() && whole[i] == c;
            assert(before[i - 1] == c);
        }
    }
}

/// An answer over HTTP is read line by line: its first line is kept, a length that it states is read,
/// and every other line changes nothing.
pub proof fn law_answer_is_read_line_by_line(
    first: &str,
    started: Result<HttpResponseHead, SdkError>,
    head: &mut HttpResponseHead,
    line: &str,
    more: Result<bool, SdkError>,
    body: &str,
    status: Result<(), SdkError>,
    any: &HttpResponseHead,
    length: Result<usize, SdkError>,
)
    requires
        call_ensures(HttpResponseHead::start, (first,), started),
        call_ensures(HttpResponseHead::line, (head, line), more),
        call_ensures(HttpResponseHead::check_status, (any, body), status),
        call_ensures(HttpResponseHead::body_length, (any,), length),
    ensures
        started is Ok <==> first@.len() > 0,
        started matches Ok(h) ==> h.status_line@ == trimmed_end(first@) && h.content_length is None,
        final(head).status_line == old(head).status_line,
        more == Ok::<bool, SdkError>(false) <==> line@.len() > 0 && trimmed_end(line@).len() == 0,
        more is Err ==> *final(head) == *old(head),
        !starts_with(trimmed_end(line@), "Content-Length:"@) ==> *final(head) == *old(head) && (
        more is Ok <==> line@.len() > 0),
        starts_with(trimmed_end(line@), "Content-Length:"@) && more is Ok ==> final(head).content_length is Some,
        status is Ok <==> occurs_in(any.status_line@, " 200 "@),
        length is Ok <==> any.content_length is Some,
        length matches Ok(n) ==> any.content_length == Some(n),
{
    reveal_strlit("Content-Length:");
    if trimmed_end(line@).len() == 0 {
        assert(!starts_with(trimmed_end(line@), "Content-Length:"@));
    }
    lemma_trimmed_end_of_nothing(line@);
}

proof fn lemma_trimmed_end_of_nothing(s: Seq<char>)
    ensures
        s.len() == 0 ==> trimmed_end(s).len() == 0,
{
}

/// Of a length that was written in a line, just that length is read back.
pub proof fn law_written_length_is_read_back(
    head: &mut HttpResponseHead,
    line: &str,
    n: usize,
    more: Result<bool, SdkError>,
)
    requires
        call_ensures(HttpResponseHead::line, (head, line), more),
        trimmed_end(line@) == "Content-Length:"@ + (" "@ + decimal(n as nat)),
    ensures
        more == Ok::<bool, SdkError>(true),
        final(head).content_length == Some(n),
{
    reveal_strlit("Content-Length:");
    let text = trimmed_end(line@);
    assert(text.len() >= 15);
    assert(text.skip("Content-Length:"@.len() as int) =~= " "@ + decimal(n as nat));
    assert(starts_with(text, "Content-Length:"@)) by {
        assert(text.take("Content-Length:"@.len() as int) =~= "Content-Length:"@);
    }
    if line@.len() == 0 {
        lemma_trimmed_end_of_nothing(line@);
    }
    crate::prekey::law_stated_length_is_read_back(n);
}

/// The body of an answer counts only if the gateway says that all is well.
pub proof fn law_refused_request_has_no_body(
    method: &str,
    path: &str,
    status: u16,
    body: String,
    r: Result<String, SdkError>,
)
    requires
        call_ensures(gateway_success_body, (method, path, status, body), r),
    ensures
        r is Ok <==> status == 200,
        r matches Ok(text) ==> text == body,
        r matches Err(e) ==> (e matches SdkError::GatewaySessionRejected(words) && words@
            == "gateway request "@ + method@ + " "@ + path@ + " rejected with status "@ + decimal(
            status as nat,
        ) + ": "@ + body@),
{
}

/// An identity is known by its root key, however that key was come by.
pub proof fn law_identity_is_known_by_its_root_key(
    decoded: Result<Vec<u8>, String>,
    r: Result<HashInput, SdkError>,
    key: Vec<u8>,
    own: HashInput,
)
    requires
        call_ensures(identity_root_public_key_commitment, (decoded,), r),
        call_ensures(identity_root_public_key_commitment_for_seed, (key,), own),
    ensures
        r is Ok <==> decoded is Ok,
        r matches Ok(input) ==> input.bytes@ == decoded->Ok_0@ && input.domain@ == own.domain@,
        own.bytes@ == key@,
        own.domain@ == "ramflux.identity.root_public_key.commitment.v1"@,
        decoded matches Err(words) ==> (r matches Err(SdkError::LocalBus(m)) && m@
            == "invalid root public key: "@ + words@),
{
}

/// Which identity a device is believed to belong to: the one that is named counts first, then the one
/// that is on record, then what the registry says; a device of another home needs one that is named.
pub proof fn law_named_identity_counts_first(
    explicit: Option<&str>,
    directory: Option<&str>,
    source: CommitmentSource,
    name: &str,
    told: String,
    device_id: &str,
    registry: Result<String, SdkError>,
    federated: Result<String, SdkError>,
    target: Result<String, SdkError>,
)
    requires
        call_ensures(commitment_source, (explicit, directory), source),
        call_ensures(source_name, (&source,), name),
        call_ensures(prekey_commitment, (told, device_id), registry),
        call_ensures(federated_commitment, (explicit,), federated),
        call_ensures(target_commitment, (explicit,), target),
    ensures
        source is Explicit <==> explicit is Some && explicit->0@.len() > 0,
        source is Prekey <==> !(source is Explicit) && directory is None,
        source matches CommitmentSource::Explicit(c) ==> c@ == explicit->0@ && name@ == "explicit"@,
        source matches CommitmentSource::Directory(c) ==> directory is Some && c@ == directory->0@
            && name@ == "device_directory"@,
        source is Prekey ==> name@ == "prekey_resolve"@,
        registry is Ok <==> told@.len() > 0,
        registry matches Ok(c) ==> c == told,
        federated is Ok <==> explicit is Some && explicit->0@.len() > 0,
        federated matches Ok(c) ==> c@ == explicit->0@,
        target is Ok <==> explicit is Some && explicit->0@.len() > 0,
        target matches Ok(c) ==> c@ == explicit->0@,
{
}

/// A manifest is asked for by the identity that it is of, and is the one that was found.
pub proof fn law_manifest_is_asked_for_by_identity<M>(
    identity: &str,
    path: String,
    found: Option<M>,
    r: Result<M, SdkError>,
)
    requires
        call_ensures(manifest_path, (identity,), path),
        call_ensures(needed_manifest::<M>, (found, identity), r),
    ensures
        path@ == "/mvp1/device-manifest/"@ + identity@,
        r is Ok <==> found is Some,
        r matches Ok(m) ==> Some(m) == found,
{
}

} // verus!
