//! Requests to a relay: each is for the chunk, the thing done to it and the device that it is made
//! for, is sent again at most once, and what is signed of it is what is asked.
use crate::error::{SdkError, TransportError};
use crate::gateway::protocol::{RelayTokenV3, SdkRelayTokenV3IssueBody};
use crate::laws::objects::lists;
use crate::laws::tokens::{about_owner, asks, lets_fetch};
use crate::object::{
    DeviceBranch, EncryptedObject, ObjectAccessGrant, ObjectRelayCapability,
    OwnerAuthorizationProof, RelayAuthorizationKind, RelayTransferOptions, RelayV3Protocol,
    RequesterProofOfPossession, SignatureOutcome,
};
use crate::relay_requests::{
    chunk_descriptor, chunk_pop_to_sign, chunk_request, find_object, own_grant_to_sign,
    owner_chunk_lineage, owner_chunk_token_request, owner_lineage, put_proof_to_sign,
    put_token_request, relay_pool_error_to_sdk, relay_quic_success_body, tombstone_request,
    unix_seconds, ChunkBinding, ChunkDescriptor, ChunkOperation, ChunkRequest, ExchangeStep,
    GatewayQuicResponse, OwnerLineage, RelayExchange, RelayQuicRequestError, Requester,
    TombstoneDescriptor, TombstoneRequest,
};
use crate::text::{decimal, is_blank};
use vstd::prelude::*;

verus! {

/// The words of a failure of a relay, where it has some.
pub open spec fn told(error: RelayQuicRequestError) -> Seq<char> {
    match error {
        RelayQuicRequestError::Backpressure { capacity, in_flight } => Seq::empty(),
        RelayQuicRequestError::ConnectionLost(words) => words@,
        RelayQuicRequestError::RequestTimeout(words) => words@,
        RelayQuicRequestError::Handshake(words) => words@,
        RelayQuicRequestError::PeerAuth(words) => words@,
        RelayQuicRequestError::Protocol(words) => words@,
        RelayQuicRequestError::Config(words) => words@,
    }
}

/// A lack of room stays one, with its numbers, and every other failure is told in its own words.
pub proof fn law_failure_keeps_its_words(
    error: RelayQuicRequestError,
    r: SdkError,
    any: &RelayQuicRequestError,
    again: bool,
)
    requires
        call_ensures(relay_pool_error_to_sdk, (error,), r),
        call_ensures(RelayQuicRequestError::is_reconnect_retryable, (any,), again),
    ensures
        error matches RelayQuicRequestError::Backpressure { capacity, in_flight } ==> r
            == SdkError::Transport(TransportError::BackpressureRejected { capacity, in_flight }),
        !(error is Backpressure) ==> (r matches SdkError::Transport(TransportError::Quic(words))
            && words@ == told(error)),
        again <==> *any is ConnectionLost || *any is RequestTimeout,
{
}

/// A request is sent with the body and to the place that are given; it is sent again, unchanged, only
/// if it was lost or late the first time, and an answer ends it.
pub proof fn law_request_is_sent_again_once(
    path: &str,
    body: String,
    made: RelayExchange,
    exchange: &mut RelayExchange,
    outcome: Result<GatewayQuicResponse, RelayQuicRequestError>,
    r: ExchangeStep,
)
    requires
        call_ensures(RelayExchange::post, (path, body), made),
        1 <= old(exchange).attempts <= 2,
        call_ensures(RelayExchange::outcome, (exchange, outcome), r),
    ensures
        made.request.method@ == "POST"@,
        made.request.path@ == path@,
        made.request.body == body,
        made.attempts == 1,
        final(exchange).request == old(exchange).request,
        r is Answered <==> outcome is Ok,
        r matches ExchangeStep::Answered(response) ==> Ok::<
            GatewayQuicResponse,
            RelayQuicRequestError,
        >(response) == outcome,
        r is SendAgain <==> outcome is Err && old(exchange).attempts == 1 && (outcome->Err_0
            is ConnectionLost || outcome->Err_0 is RequestTimeout),
        r is SendAgain ==> final(exchange).attempts == 2,
        !(r is SendAgain) ==> final(exchange).attempts == old(exchange).attempts,
        r is Failed && !(outcome->Err_0 is Backpressure) ==> (r->Failed_0 matches SdkError::Transport(
            TransportError::Quic(words),
        ) && words@ == told(outcome->Err_0)),
{
}

/// The body of an answer counts only if the relay says that all is well; a time before the epoch counts
/// as the epoch.
pub proof fn law_refused_relay_request_has_no_body(
    response: GatewayQuicResponse,
    r: Result<String, SdkError>,
    now: i64,
    seconds: u64,
)
    requires
        call_ensures(relay_quic_success_body, (response,), r),
        call_ensures(unix_seconds, (now,), seconds),
    ensures
        r is Ok <==> response.status == 200,
        r matches Ok(body) ==> body == response.body,
        r matches Err(e) ==> (e matches SdkError::CapabilityDenied(words) && words@
            == "relay v3 request rejected with HTTP status "@ + decimal(response.status as nat)
            + ": "@ + response.body@),
        now >= 0 ==> seconds == now,
        now < 0 ==> seconds == 0,
{
}

/// Whether the options say all that is known of an owner.
pub open spec fn name_the_owner(options: RelayTransferOptions) -> bool {
    options.relay_owner_home_node_id is Some && options.relay_owner_principal_id is Some
        && options.relay_audience_node_id is Some
}

/// Whether what is known of an owner is what the options say.
pub open spec fn is_owner_in(lineage: OwnerLineage, options: RelayTransferOptions) -> bool {
    &&& Some(lineage.home_node_id) == options.relay_owner_home_node_id
    &&& Some(lineage.principal_id) == options.relay_owner_principal_id
    &&& Some(lineage.audience_node_id) == options.relay_audience_node_id
}

/// What is known of an owner is what the options say, all of it or nothing; a chunk is fetched or
/// acknowledged only with tokens of the gateway.
pub proof fn law_owner_is_the_one_in_the_options(
    options: &RelayTransferOptions,
    words: &str,
    operation: ChunkOperation,
    r: Result<OwnerLineage, SdkError>,
    chunk: Result<OwnerLineage, SdkError>,
)
    requires
        call_ensures(owner_lineage, (options, words), r),
        call_ensures(owner_chunk_lineage, (options, operation), chunk),
    ensures
        r is Ok <==> name_the_owner(*options),
        r matches Ok(lineage) ==> is_owner_in(lineage, *options),
        chunk is Ok <==> name_the_owner(*options) && (operation is Put || options.token_provider
            is GatewayIssued),
        chunk matches Ok(lineage) ==> is_owner_in(lineage, *options),
{
}

/// Each thing that is done to a chunk has its own right, word and place.
pub proof fn law_operation_has_its_own_place(
    operation: ChunkOperation,
    capability: ObjectRelayCapability,
    name: &str,
    path: &str,
)
    requires
        call_ensures(ChunkOperation::capability, (operation,), capability),
        call_ensures(ChunkOperation::name, (operation,), name),
        call_ensures(ChunkOperation::path, (operation,), path),
    ensures
        operation is Put ==> capability is Put && name@ == "put"@ && path@
            == "/relay/v1/object/put_chunk"@,
        operation is Get ==> capability is Get && name@ == "get"@ && path@
            == "/relay/v1/object/get_chunk"@,
        operation is Ack ==> capability is Ack && name@ == "ack"@ && path@
            == "/relay/v1/object/ack"@,
{
}

/// A request for a chunk names the chunk by its object, and holds nonces that are made of the time and
/// the number of the chunk; that of an owner lives as long as the transfer, that of another two
/// minutes.
pub proof fn law_chunk_request_names_its_chunk(
    requester: Requester,
    operation: ChunkOperation,
    object_id: &str,
    manifest_hash: &str,
    index: u32,
    issued_at: u64,
    transfer_expires_at: u64,
    q: ChunkRequest,
    name: &str,
    path: &str,
    d: Option<ChunkDescriptor>,
)
    requires
        call_ensures(
            chunk_request,
            (requester, operation, object_id, manifest_hash, index, issued_at, transfer_expires_at),
            q,
        ),
        call_ensures(ChunkOperation::name, (operation,), name),
        call_ensures(ChunkOperation::path, (operation,), path),
        call_ensures(chunk_descriptor, (operation, &q, object_id, manifest_hash), d),
    ensures
        q.chunk_id@ == "object-relay:"@ + object_id@ + ":"@ + manifest_hash@ + ":"@ + decimal(
            index as nat,
        ),
        q.nonce@ == "sdk-"@ + name@ + "-"@ + (decimal(issued_at as nat) + "-"@ + decimal(
            index as nat,
        )),
        requester is Grantee && operation is Ack ==> q.pop_nonce@ == "sdk-pop-ack-"@ + (decimal(
            issued_at as nat,
        ) + "-"@ + decimal(index as nat)),
        !(requester is Grantee && operation is Ack) ==> q.pop_nonce@ == "sdk-pop-"@ + (decimal(
            issued_at as nat,
        ) + "-"@ + decimal(index as nat)),
        q.path@ == path@,
        q.issued_at == issued_at,
        requester is Owner ==> q.expires_at == transfer_expires_at,
        requester is Grantee && issued_at + 120 <= u64::MAX ==> q.expires_at == issued_at + 120,
        d is None <==> operation is Put,
        q.body_hash_domain is None <==> operation is Put,
        d matches Some(told) ==> {
            &&& told.chunk_id@ == q.chunk_id@
            &&& told.object_id@ == object_id@
            &&& told.manifest_hash@ == manifest_hash@
            &&& told.capability@ == name@
            &&& told.domain@ == q.body_hash_domain->0@
        },
        operation is Get ==> d->0.domain@ == "ramflux.object_relay.v3.get.body"@,
        operation is Ack ==> d->0.domain@ == "ramflux.object_relay.v3.ack.body"@,
{
}

/// The hash that a binding holds.
pub open spec fn bound_hash(binding: ChunkBinding) -> Seq<char> {
    match binding {
        ChunkBinding::Put { chunk_cipher_hash } => chunk_cipher_hash@,
        ChunkBinding::Get { descriptor_hash } => descriptor_hash@,
        ChunkBinding::Ack { descriptor_hash } => descriptor_hash@,
    }
}

/// What proves that a requester holds its key is made of the token, of the request and of what it is
/// bound to, in the name of the device.
pub proof fn law_possession_is_proved_of_the_token(
    protocol: &RelayV3Protocol,
    branch: &DeviceBranch,
    token: &RelayTokenV3,
    request: &ChunkRequest,
    binding: &ChunkBinding,
    operation: ChunkOperation,
    hash: String,
    p: RequesterProofOfPossession,
)
    requires
        call_ensures(ChunkBinding::operation, (binding,), operation),
        call_ensures(ChunkBinding::body_hash, (binding,), hash),
        call_ensures(chunk_pop_to_sign, (protocol, branch, token, request, binding), p),
    ensures
        operation is Put <==> *binding is Put,
        operation is Get <==> *binding is Get,
        operation is Ack <==> *binding is Ack,
        hash@ == bound_hash(*binding),
        p.token_id == token.token_id,
        p.object_id == token.object_id,
        p.manifest_hash == token.manifest_hash,
        p.chunk_id == token.chunk_id,
        p.request_nonce == request.pop_nonce,
        p.body_hash@ == hash@,
        p.issued_at == request.issued_at,
        p.expires_at == request.expires_at,
        p.signer_device_id == branch.device_id,
        p.signer_public_key == branch.public_key,
        p.schema == protocol.requester_pop_schema,
        p.version == protocol.proof_version,
        p.signature@.len() == 0,
        p.capability is Put <==> *binding is Put,
        p.capability is Get <==> *binding is Get,
        p.capability is Ack <==> *binding is Ack,
{
}

/// What an owner grants itself is one thing, for its own device; with it, and with nothing less, it
/// asks for a token to fetch or acknowledge its own object.
pub proof fn law_owner_grants_itself_one_thing(
    protocol: &RelayV3Protocol,
    branch: &DeviceBranch,
    object: &EncryptedObject,
    operation: ChunkOperation,
    capability: ObjectRelayCapability,
    request: &ChunkRequest,
    lineage: &OwnerLineage,
    made: ObjectAccessGrant,
    signature: String,
    grant: ObjectAccessGrant,
    binding_hash: &str,
    r: Result<SdkRelayTokenV3IssueBody, SdkError>,
)
    requires
        call_ensures(ChunkOperation::capability, (operation,), capability),
        call_ensures(
            own_grant_to_sign,
            (protocol, branch, object, capability, request.issued_at, request.expires_at),
            made,
        ),
        call_ensures(ObjectAccessGrant::signed, (made, signature), grant),
        call_ensures(
            owner_chunk_token_request,
            (
                protocol,
                &grant,
                branch,
                object,
                operation,
                request,
                lineage,
                &SignatureOutcome::Valid,
                binding_hash,
            ),
            r,
        ),
    ensures
        grant.object_id == object.object_id && grant.manifest_hash == object.manifest_hash,
        grant.grantee_device_hash == branch.device_hash,
        grant.capabilities@ == seq![capability],
        grant.issued_at == request.issued_at && grant.expires_at == request.expires_at,
        grant.owner_signing_key_id == branch.device_id,
        grant.owner_public_key == branch.public_key,
        grant.owner_signature@ == signature@,
        made.owner_signature@.len() == 0,
        r is Ok <==> !(operation is Put) && request.issued_at < request.expires_at && !is_blank(
            lineage.home_node_id@,
        ) && !is_blank(lineage.principal_id@) && !is_blank(lineage.audience_node_id@)
            && branch.device_epoch > 0,
        r matches Ok(body) ==> asks(
            body,
            *protocol,
            *branch,
            object.object_id@,
            object.manifest_hash@,
            request.chunk_id@,
            capability,
            RelayAuthorizationKind::OwnerGrant,
            binding_hash@,
            request.issued_at,
            request.expires_at,
            request.nonce@,
        ) && about_owner(
            body,
            branch.device_id@,
            branch.public_key@,
            lineage.home_node_id@,
            lineage.principal_id@,
            branch.device_epoch,
            lineage.audience_node_id@,
        ),
{
    assert(grant.capabilities@[0] == capability);
    assert(grant.capabilities@.contains(capability));
    assert(grant.capabilities@.len() == 1);
    if operation is Get || operation is Ack {
        assert(request.issued_at < request.expires_at ==> lets_fetch(
            grant,
            *protocol,
            branch.device_hash@,
            object.object_id@,
            object.manifest_hash@,
            request.issued_at,
            SignatureOutcome::Valid,
        ));
    }
}

/// What an owner proves, and asks a token for, to put a chunk is that chunk with that hash.
pub proof fn law_chunk_is_put_as_proved(
    protocol: &RelayV3Protocol,
    branch: &DeviceBranch,
    object: &EncryptedObject,
    request: &ChunkRequest,
    lineage: &OwnerLineage,
    cipher_hash: &str,
    p: OwnerAuthorizationProof,
    binding_hash: &str,
    r: Result<SdkRelayTokenV3IssueBody, SdkError>,
)
    requires
        call_ensures(
            put_proof_to_sign,
            (protocol, branch, object, request, lineage, cipher_hash),
            p,
        ),
        call_ensures(
            put_token_request,
            (protocol, branch, object, request, lineage, binding_hash),
            r,
        ),
    ensures
        p.capability is Put,
        p.object_id == object.object_id,
        p.manifest_hash == Some(object.manifest_hash),
        p.chunk_id == Some(request.chunk_id),
        p.owner_home_node_id == lineage.home_node_id,
        p.owner_principal_id == lineage.principal_id,
        p.owner_device_epoch == branch.device_epoch,
        p.request_nonce == request.nonce,
        p.body_hash@ == cipher_hash@,
        p.issued_at == request.issued_at && p.expires_at == request.expires_at,
        p.owner_signing_key_id == branch.device_id,
        p.owner_public_key == branch.public_key,
        p.owner_signature@.len() == 0,
        r is Ok <==> !is_blank(lineage.home_node_id@) && !is_blank(lineage.audience_node_id@)
            && !is_blank(lineage.principal_id@) && !is_blank(request.chunk_id@) && request.issued_at
            < request.expires_at && branch.device_epoch > 0,
        r matches Ok(body) ==> asks(
            body,
            *protocol,
            *branch,
            object.object_id@,
            object.manifest_hash@,
            request.chunk_id@,
            ObjectRelayCapability::Put,
            RelayAuthorizationKind::OwnerSession,
            binding_hash@,
            request.issued_at,
            request.expires_at,
            request.nonce@,
        ) && about_owner(
            body,
            branch.device_id@,
            branch.public_key@,
            lineage.home_node_id@,
            lineage.principal_id@,
            branch.device_epoch,
            lineage.audience_node_id@,
        ),
{
}

/// An object is found exactly if there is one of the name, and the first of that name is.
pub proof fn law_object_is_found_by_name(
    objects: &Vec<EncryptedObject>,
    object_id: &str,
    r: Option<usize>,
)
    requires
        call_ensures(find_object, (objects, object_id), r),
    ensures
        r is Some <==> lists(objects@, object_id@),
        r matches Some(i) ==> i < objects@.len() && objects@[i as int].object_id@ == object_id@
            && forall|j: int|
            0 <= j < i ==> (#[trigger] objects@[j]).object_id@ != object_id@,
{
    crate::laws::objects::lemma_first_of_a_name(objects@, object_id@);
}

/// An object is buried on a relay exactly if the gateway issues the tokens, the settings for QUIC and
/// the owner are there, the object is, and a device is; the request is about the object of that name.
pub proof fn law_object_is_buried_exactly_then(
    options: &RelayTransferOptions,
    objects: &Vec<EncryptedObject>,
    object_id: &str,
    branch: Option<&DeviceBranch>,
    issued_at: u64,
    r: Result<TombstoneRequest, SdkError>,
)
    requires
        call_ensures(tombstone_request, (options, objects, object_id, branch, issued_at), r),
    ensures
        r is Ok <==> {
            &&& options.token_provider is GatewayIssued
            &&& options.relay_quic_peer_addr is Some
            &&& options.relay_quic_server_name is Some
            &&& options.relay_quic_ca_cert is Some
            &&& lists(objects@, object_id@)
            &&& branch is Some
            &&& name_the_owner(*options)
        },
        r matches Ok(t) ==> {
            &&& is_owner_in(t.lineage, *options)
            &&& t.object_id@ == object_id@
            &&& t.chunk_id@ == "object-relay:"@ + object_id@ + ":"@ + t.manifest_hash@
                + ":tombstone"@
            &&& t.nonce@ == "sdk-tombstone-"@ + decimal(issued_at as nat)
            &&& t.pop_nonce@ == "sdk-pop-"@ + decimal(issued_at as nat)
            &&& t.source_event_id@ == "object-tombstone:"@ + object_id@ + ":"@ + decimal(
                issued_at as nat,
            )
            &&& t.path@ == "/relay/v1/object/tombstone"@
            &&& t.hash_domain@ == "ramflux.object_relay.tombstone.v3"@
            &&& t.issued_at == issued_at
            &&& issued_at + 120 <= u64::MAX ==> t.expires_at == issued_at + 120
        },
        r is Ok ==> exists|i: int|
            0 <= i < objects@.len() && (#[trigger] objects@[i]).object_id@ == object_id@
                && objects@[i].manifest_hash == r->Ok_0.manifest_hash,
{
    crate::laws::objects::lemma_first_of_a_name(objects@, object_id@);
    if r is Ok {
        let i = crate::relay_requests::first_with_id(objects@, object_id@)->0;
        assert(objects@[i].object_id@ == object_id@);
    }
}

/// What is told, proved and asked to bury an object is about that object, at that time, in the name of
/// its owner.
pub proof fn law_burial_is_proved_as_asked(
    t: &TombstoneRequest,
    protocol: &RelayV3Protocol,
    branch: &DeviceBranch,
    object: &EncryptedObject,
    token: &RelayTokenV3,
    hash: &str,
    hash_text: String,
    binding_hash: &str,
    d: TombstoneDescriptor,
    p: OwnerAuthorizationProof,
    q: Result<SdkRelayTokenV3IssueBody, SdkError>,
    pop: RequesterProofOfPossession,
)
    requires
        call_ensures(TombstoneRequest::descriptor, (t,), d),
        call_ensures(TombstoneRequest::proof_to_sign, (t, protocol, branch, hash), p),
        call_ensures(
            TombstoneRequest::token_request,
            (t, protocol, branch, object, binding_hash),
            q,
        ),
        call_ensures(TombstoneRequest::pop_to_sign, (t, protocol, branch, token, hash_text), pop),
    ensures
        d.object_id == t.object_id && p.object_id == t.object_id,
        d.manifest_hash == t.manifest_hash && p.manifest_hash == Some(t.manifest_hash),
        d.signed_at == t.issued_at && d.expires_at == t.expires_at,
        d.source_event_id == t.source_event_id,
        d.domain == t.hash_domain,
        p.capability is Tombstone && pop.capability is Tombstone,
        p.chunk_id is None,
        p.owner_home_node_id == t.lineage.home_node_id,
        p.owner_principal_id == t.lineage.principal_id,
        p.owner_device_epoch == branch.device_epoch,
        p.request_nonce == t.nonce && pop.request_nonce == t.pop_nonce,
        p.body_hash@ == hash@ && pop.body_hash == hash_text,
        p.issued_at == t.issued_at && p.expires_at == t.expires_at,
        pop.issued_at == t.issued_at && pop.expires_at == t.expires_at,
        p.owner_signing_key_id == branch.device_id && p.owner_public_key == branch.public_key,
        pop.signer_device_id == branch.device_id && pop.signer_public_key == branch.public_key,
        pop.token_id == token.token_id && pop.object_id == token.object_id,
        pop.manifest_hash == token.manifest_hash && pop.chunk_id == token.chunk_id,
        p.owner_signature@.len() == 0 && pop.signature@.len() == 0,
        q is Ok <==> !is_blank(t.lineage.home_node_id@) && !is_blank(t.lineage.audience_node_id@)
            && !is_blank(t.lineage.principal_id@) && !is_blank(t.chunk_id@) && t.issued_at
            < t.expires_at && branch.device_epoch > 0,
        q matches Ok(body) ==> asks(
            body,
            *protocol,
            *branch,
            object.object_id@,
            object.manifest_hash@,
            t.chunk_id@,
            ObjectRelayCapability::Tombstone,
            RelayAuthorizationKind::OwnerSession,
            binding_hash@,
            t.issued_at,
            t.expires_at,
            t.nonce@,
        ) && about_owner(
            body,
            branch.device_id@,
            branch.public_key@,
            t.lineage.home_node_id@,
            t.lineage.principal_id@,
            branch.device_epoch,
            t.lineage.audience_node_id@,
        ),
{
}

} // verus!
