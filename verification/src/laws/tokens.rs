//! Objects on a relay: what a token, a grant or a proof allows is what it was asked for, by whom, for
//! which object, chunk and time.
use crate::dm::SdkDmAttachmentRef;
use crate::error::SdkError;
use crate::gateway::protocol::{GatewayRelayTokenIssueBody, SdkRelayTokenV3IssueBody};
use crate::object::{
    effective_attachment_lineage, needed_quic_config, object_key_slot_associated_data,
    object_relay_chunk_id, object_transfer_id, object_transfer_status,
    parse_relay_transfer_options, recipient_device_hash_input, relay_quic_config,
    relay_service_key, relay_token_provider_from_service_key,
    relay_token_provider_with_local_mint, upload_status, DeviceBranch, EncryptedObject,
    ObjectAccessGrant, ObjectRelayCapability, OwnerAuthorizationProof, RelayAuthorizationKind,
    RelayEnvironment, RelayQuicEndpoint, RelayTokenProvider, RelayTransferOptions,
    RelayV3Protocol, RequesterProofOfPossession, SdkObjectPermissionEnvelope,
    SdkObjectRelayCapability, SdkObjectTransferStatus, SdkRelayToken, SignatureOutcome,
};
use crate::object_grants::{
    build_v3_ack_token_issue_body, build_v3_get_token_issue_body, build_v3_grant_token_issue_body,
    build_v3_owner_session_token_issue_body, has_capability, object_access_grant_to_sign,
    owner_authorization_proof_to_sign, requester_pop_to_sign,
    verify_recipient_object_access_grant,
};
use crate::records::ObjectTransferRecord;
use crate::relay_token::{
    local_relay_service_key, object_chunk_frame, object_permission_for_chunk, object_relay_ack,
    object_relay_get_request, relay_token_for_chunk, relay_token_issue_body, relay_token_mac,
    SdkObjectChunkFrame, SdkObjectRelayAck, SdkObjectRelayGetRequest,
};
use crate::text::{decimal, is_blank};
use vstd::prelude::*;

verus! {

/// The name of a chunk of an object on a relay.
pub open spec fn chunk_name(object: EncryptedObject, chunk_index: u32) -> Seq<char> {
    "object-relay:"@ + object.object_id@ + ":"@ + object.manifest_hash@ + ":"@ + decimal(
        chunk_index as nat,
    )
}

/// A token, and what asks the gateway for one, is for one chunk of one object and for one thing that
/// may be done to it, in the name of the device that makes it, from now until it expires; its code
/// covers it without the code itself.
pub proof fn law_token_is_for_one_chunk(
    branch: &DeviceBranch,
    object: &EncryptedObject,
    chunk_index: u32,
    capability: SdkObjectRelayCapability,
    expires_at: u64,
    now: u64,
    nonce: String,
    token: SdkRelayToken,
    mac: String,
    with_mac: SdkRelayToken,
    bare: SdkRelayToken,
    permission: SdkObjectPermissionEnvelope,
    asked: GatewayRelayTokenIssueBody,
    id: String,
    object_id: &str,
    manifest_hash: &str,
)
    requires
        object_id@ == object.object_id@,
        manifest_hash@ == object.manifest_hash@,
        call_ensures(object_relay_chunk_id, (object_id, manifest_hash, chunk_index), id),
        call_ensures(
            relay_token_for_chunk,
            (branch, object, chunk_index, capability, expires_at, now, nonce),
            token,
        ),
        call_ensures(SdkRelayToken::with_mac, (token, mac), with_mac),
        call_ensures(SdkRelayToken::without_mac, (with_mac,), bare),
        call_ensures(
            relay_token_issue_body,
            (branch, object, chunk_index, capability, expires_at, now, permission),
            asked,
        ),
    ensures
        id@ == chunk_name(*object, chunk_index),
        token.chunk_id@ == id@ && asked.chunk_id@ == id@,
        token.object_id@ == object.object_id@ && asked.object_id@ == object.object_id@,
        token.manifest_hash@ == object.manifest_hash@ && asked.manifest_hash@
            == object.manifest_hash@,
        token.capabilities@ == seq![capability] && asked.capability == capability,
        token.recipient_device_hash@ == branch.device_hash@ && asked.recipient_device_hash@
            == branch.device_hash@,
        token.owner_signing_key_id@ == branch.device_id@ && asked.owner_signing_key_id@
            == branch.device_id@,
        token.owner_public_key@ == branch.public_key@ && asked.owner_public_key@
            == branch.public_key@,
        token.issued_at == now && asked.issued_at == now,
        token.expires_at == expires_at && asked.expires_at == expires_at,
        !token.delete_after_ack && !asked.delete_after_ack,
        token.nonce@ == nonce@,
        token.token_version == 2,
        token.issuer_service@ == "ramflux-gateway"@,
        token.audience_service@ == "ramflux-relay"@,
        token.token_id@ == "token:"@ + id@ + ":"@ + match capability {
            SdkObjectRelayCapability::Put => "Put"@,
            SdkObjectRelayCapability::Get => "Get"@,
            SdkObjectRelayCapability::Ack => "Ack"@,
            SdkObjectRelayCapability::Tombstone => "Tombstone"@,
        },
        token.mac@.len() == 0,
        with_mac.mac@ == mac@,
        with_mac.chunk_id == token.chunk_id && with_mac.token_id == token.token_id,
        with_mac.capabilities == token.capabilities && with_mac.expires_at == token.expires_at,
        bare.mac@.len() == 0,
        bare.chunk_id == token.chunk_id && bare.token_id == token.token_id,
        bare.capabilities == token.capabilities && bare.expires_at == token.expires_at,
        asked.object_permission_envelope == permission,
{
}

/// A permission is for one object and one thing that may be done to it, by and for the device that
/// signs it; what is signed of it is all but the signature.
pub proof fn law_permission_is_for_one_object(
    branch: &DeviceBranch,
    object: &EncryptedObject,
    capability: SdkObjectRelayCapability,
    expires_at: u64,
    now: u64,
    permission: SdkObjectPermissionEnvelope,
    signature: String,
    signed: SdkObjectPermissionEnvelope,
    bare: SdkObjectPermissionEnvelope,
)
    requires
        call_ensures(
            object_permission_for_chunk,
            (branch, object, capability, expires_at, now),
            permission,
        ),
        call_ensures(SdkObjectPermissionEnvelope::signed, (permission, signature), signed),
        call_ensures(SdkObjectPermissionEnvelope::without_signature, (signed,), bare),
    ensures
        signed.object_id@ == object.object_id@ && bare.object_id@ == object.object_id@,
        signed.manifest_hash@ == object.manifest_hash@ && bare.manifest_hash@
            == object.manifest_hash@,
        signed.grantee_device_hash@ == branch.device_hash@,
        signed.capability == capability && bare.capability == capability,
        signed.issued_at == now && signed.expires_at == expires_at,
        bare.issued_at == now && bare.expires_at == expires_at,
        signed.owner_signing_key_id@ == branch.device_id@,
        signed.owner_public_key@ == branch.public_key@,
        signed.owner_signature@ == signature@,
        bare.owner_signature@.len() == 0 && permission.owner_signature@.len() == 0,
{
}

/// A chunk is put, fetched and acknowledged under the name that its token is for, with that token and
/// that permission, and travels unchanged with its length.
pub proof fn law_chunk_travels_with_its_token(
    object: &EncryptedObject,
    chunk_index: u32,
    encrypted_chunk: Vec<u8>,
    chunk_cipher_hash: String,
    token: SdkRelayToken,
    permission: SdkObjectPermissionEnvelope,
    expires_at: u64,
    acked_at: u64,
    frame: SdkObjectChunkFrame,
    get: SdkObjectRelayGetRequest,
    ack: SdkObjectRelayAck,
)
    requires
        call_ensures(
            object_chunk_frame,
            (object, chunk_index, encrypted_chunk, chunk_cipher_hash, token, permission, expires_at),
            frame,
        ),
        call_ensures(object_relay_get_request, (token, permission), get),
        call_ensures(object_relay_ack, (object, token, permission, acked_at), ack),
    ensures
        frame.encrypted_chunk@ == encrypted_chunk@,
        frame.cipher_size == encrypted_chunk@.len(),
        frame.chunk_cipher_hash@ == chunk_cipher_hash@,
        frame.chunk_index == chunk_index,
        frame.object_id@ == object.object_id@ && ack.object_id@ == object.object_id@,
        frame.manifest_hash@ == object.manifest_hash@ && ack.manifest_hash@
            == object.manifest_hash@,
        frame.chunk_id@ == token.chunk_id@ && get.chunk_id@ == token.chunk_id@ && ack.chunk_id@
            == token.chunk_id@,
        frame.relay_token == token && get.relay_token == token && ack.relay_token == token,
        frame.object_permission_envelope == permission,
        get.object_permission_envelope == permission,
        ack.object_permission_envelope == permission,
        ack.recipient_device_hash@ == token.recipient_device_hash@,
        ack.acked_at == acked_at,
        frame.expires_at == expires_at,
        !frame.delete_after_ack,
        frame.schema@ == "ramflux.object_chunk_frame.v1"@,
{
}

/// The code of a token is made with the service's key, which is there only where tokens are minted
/// locally.
pub proof fn law_token_code_is_made_with_the_service_key(
    provider: &RelayTokenProvider,
    key: Result<&Vec<u8>, SdkError>,
    service_key: &[u8],
    canonical: &[u8],
    mac: Result<Vec<u8>, SdkError>,
)
    requires
        call_ensures(local_relay_service_key, (provider,), key),
        call_ensures(relay_token_mac, (service_key, canonical), mac),
    ensures
        key is Ok <==> *provider is LocalMint,
        *provider matches RelayTokenProvider::LocalMint { relay_service_key } ==> key->Ok_0@
            == relay_service_key@,
        mac matches Ok(tag) && tag@ == crate::digest::hmac_sha256_tag(service_key@, canonical@),
{
}

// ---- grants and proofs ----

/// A grant says what it was made for, in the name of the device that makes it, and signing it adds the
/// signature.
pub proof fn law_grant_says_what_it_grants(
    protocol: &RelayV3Protocol,
    branch: &DeviceBranch,
    object_id: String,
    manifest_hash: String,
    grantee_device_hash: String,
    capabilities: Vec<ObjectRelayCapability>,
    issued_at: u64,
    expires_at: u64,
    made: ObjectAccessGrant,
    signature: String,
    grant: ObjectAccessGrant,
)
    requires
        call_ensures(
            object_access_grant_to_sign,
            (
                protocol,
                branch,
                object_id,
                manifest_hash,
                grantee_device_hash,
                capabilities,
                issued_at,
                expires_at,
            ),
            made,
        ),
        call_ensures(ObjectAccessGrant::signed, (made, signature), grant),
    ensures
        grant.object_id@ == object_id@,
        grant.manifest_hash@ == manifest_hash@,
        grant.grantee_device_hash@ == grantee_device_hash@,
        grant.capabilities@ == capabilities@,
        grant.issued_at == issued_at,
        grant.expires_at == expires_at,
        grant.owner_signing_key_id@ == branch.device_id@,
        grant.owner_public_key@ == branch.public_key@,
        grant.schema@ == protocol.object_access_grant_schema@,
        grant.version == protocol.proof_version,
        grant.owner_signature@ == signature@,
        made.owner_signature@.len() == 0,
{
}

/// What an owner proves about a request is that request.
pub proof fn law_owner_proof_says_what_it_proves(
    protocol: &RelayV3Protocol,
    branch: &DeviceBranch,
    capability: ObjectRelayCapability,
    object_id: String,
    manifest_hash: Option<String>,
    chunk_id: Option<String>,
    owner_home_node_id: String,
    owner_principal_id: String,
    owner_device_epoch: u64,
    request_nonce: String,
    body_hash: String,
    issued_at: u64,
    expires_at: u64,
    made: OwnerAuthorizationProof,
    signature: String,
    shown: OwnerAuthorizationProof,
)
    requires
        call_ensures(
            owner_authorization_proof_to_sign,
            (
                protocol,
                branch,
                capability,
                object_id,
                manifest_hash,
                chunk_id,
                owner_home_node_id,
                owner_principal_id,
                owner_device_epoch,
                request_nonce,
                body_hash,
                issued_at,
                expires_at,
            ),
            made,
        ),
        call_ensures(OwnerAuthorizationProof::signed, (made, signature), shown),
    ensures
        shown.capability == capability,
        shown.object_id@ == object_id@,
        shown.manifest_hash == manifest_hash,
        shown.chunk_id == chunk_id,
        shown.owner_home_node_id@ == owner_home_node_id@,
        shown.owner_principal_id@ == owner_principal_id@,
        shown.owner_device_epoch == owner_device_epoch,
        shown.request_nonce@ == request_nonce@,
        shown.body_hash@ == body_hash@,
        shown.issued_at == issued_at,
        shown.expires_at == expires_at,
        shown.owner_signing_key_id@ == branch.device_id@,
        shown.owner_public_key@ == branch.public_key@,
        shown.schema@ == protocol.owner_authorization_proof_schema@,
        shown.version == protocol.proof_version,
        shown.owner_signature@ == signature@,
        made.owner_signature@.len() == 0,
{
}

/// What a requester proves about a request is that request.
pub proof fn law_requester_proof_says_what_it_proves(
    protocol: &RelayV3Protocol,
    branch: &DeviceBranch,
    token_id: String,
    capability: ObjectRelayCapability,
    object_id: String,
    manifest_hash: String,
    chunk_id: String,
    request_nonce: String,
    body_hash: String,
    issued_at: u64,
    expires_at: u64,
    made: RequesterProofOfPossession,
    signature: String,
    shown: RequesterProofOfPossession,
)
    requires
        call_ensures(
            requester_pop_to_sign,
            (
                protocol,
                branch,
                token_id,
                capability,
                object_id,
                manifest_hash,
                chunk_id,
                request_nonce,
                body_hash,
                issued_at,
                expires_at,
            ),
            made,
        ),
        call_ensures(RequesterProofOfPossession::signed, (made, signature), shown),
    ensures
        shown.token_id@ == token_id@,
        shown.capability == capability,
        shown.object_id@ == object_id@,
        shown.manifest_hash@ == manifest_hash@,
        shown.chunk_id@ == chunk_id@,
        shown.request_nonce@ == request_nonce@,
        shown.body_hash@ == body_hash@,
        shown.issued_at == issued_at,
        shown.expires_at == expires_at,
        shown.signer_device_id@ == branch.device_id@,
        shown.signer_public_key@ == branch.public_key@,
        shown.schema@ == protocol.requester_pop_schema@,
        shown.version == protocol.proof_version,
        shown.signature@ == signature@,
        made.signature@.len() == 0,
{
}

/// Whether a grant lets a device fetch an object now: it has the form of one, is for the device and
/// the object, allows fetching and acknowledging and nothing else, holds at the time, and its
/// signature was checked.
pub open spec fn lets_fetch(
    grant: ObjectAccessGrant,
    protocol: RelayV3Protocol,
    device_hash: Seq<char>,
    object_id: Seq<char>,
    manifest_hash: Seq<char>,
    now: u64,
    signature: SignatureOutcome,
) -> bool {
    &&& grant.schema@ == protocol.object_access_grant_schema@
    &&& grant.version == protocol.proof_version
    &&& grant.grantee_device_hash@ == device_hash
    &&& grant.object_id@ == object_id
    &&& grant.manifest_hash@ == manifest_hash
    &&& grant.capabilities@.len() > 0
    &&& forall|i: int|
        0 <= i < grant.capabilities@.len() ==> (#[trigger] grant.capabilities@[i]) is Get
            || grant.capabilities@[i] is Ack
    &&& grant.issued_at <= now < grant.expires_at
    &&& signature is Valid
}

/// A grant is accepted exactly if it lets the device fetch the object now.
pub proof fn law_grant_is_accepted_exactly_then(
    protocol: &RelayV3Protocol,
    grant: Option<&ObjectAccessGrant>,
    branch: &DeviceBranch,
    object_id: &str,
    manifest_hash: &str,
    now: u64,
    signature: &SignatureOutcome,
    r: Result<(), SdkError>,
    capabilities: &Vec<ObjectRelayCapability>,
    capability: ObjectRelayCapability,
    has: bool,
)
    requires
        call_ensures(
            verify_recipient_object_access_grant,
            (protocol, grant, branch, object_id, manifest_hash, now, signature),
            r,
        ),
        call_ensures(has_capability, (capabilities, capability), has),
    ensures
        r is Ok <==> (grant matches Some(g) && lets_fetch(
            *g,
            *protocol,
            branch.device_hash@,
            object_id@,
            manifest_hash@,
            now,
            *signature,
        )),
        has <==> exists|i: int|
            0 <= i < capabilities@.len() && #[trigger] capabilities@[i] == capability,
{
}

/// Whether a request asks for a token in the name of a device, about an owner, for one thing that may
/// be done to one chunk, by what it is allowed.
pub open spec fn asks(
    body: SdkRelayTokenV3IssueBody,
    protocol: RelayV3Protocol,
    branch: DeviceBranch,
    object_id: Seq<char>,
    manifest_hash: Seq<char>,
    chunk_id: Seq<char>,
    capability: ObjectRelayCapability,
    kind: RelayAuthorizationKind,
    binding_hash: Seq<char>,
    issued_at: u64,
    expires_at: u64,
    nonce: Seq<char>,
) -> bool {
    &&& body.requester_device_id@ == branch.device_id@
    &&& body.requester_device_hash@ == branch.device_hash@
    &&& body.requester_public_key@ == branch.public_key@
    &&& body.requester_device_epoch == branch.device_epoch
    &&& body.object_id@ == object_id
    &&& body.manifest_hash@ == manifest_hash
    &&& body.chunk_id@ == chunk_id
    &&& body.capabilities@ == seq![capability]
    &&& body.authorization_kind == kind
    &&& body.authorization_binding_hash@ == binding_hash
    &&& body.issued_at == issued_at
    &&& body.expires_at == expires_at
    &&& body.nonce@ == nonce
    &&& !body.delete_after_ack
    &&& body.relay_instance_id is None
    &&& body.issuer_node_id@.len() == 0
    &&& body.gateway_instance_id@.len() == 0
    &&& body.issuer_certificate.schema@ == protocol.gateway_issuer_certificate_schema@
    &&& body.issuer_certificate.version == protocol.proof_version
    &&& body.issuer_certificate.cert_id@.len() == 0
    &&& body.issuer_certificate.node_root_signature@.len() == 0
    &&& body.issuer_certificate.revoked_at is None
}

/// Whether a request names an owner: its key, its home, its identity and its epoch, and the relay that
/// the token is shown to.
pub open spec fn about_owner(
    body: SdkRelayTokenV3IssueBody,
    signing_key_id: Seq<char>,
    public_key: Seq<char>,
    home_node_id: Seq<char>,
    principal_id: Seq<char>,
    device_epoch: u64,
    audience_node_id: Seq<char>,
) -> bool {
    &&& body.owner_signing_key_id@ == signing_key_id
    &&& body.owner_public_key@ == public_key
    &&& body.owner_home_node_id@ == home_node_id
    &&& body.owner_principal_id@ == principal_id
    &&& body.owner_device_epoch == device_epoch
    &&& body.audience_node_id@ == audience_node_id
}

/// Whether an attachment names everything of its owner that a token needs.
pub open spec fn names_its_owner(attachment: SdkDmAttachmentRef) -> bool {
    &&& attachment.owner_home_node_id matches Some(id) && !is_blank(id@)
    &&& attachment.relay_audience_node_id matches Some(id) && !is_blank(id@)
    &&& attachment.owner_principal_id@.len() > 0
    &&& attachment.owner_device_epoch > 0
}

/// A token to fetch or to acknowledge a chunk of an attachment is asked for exactly if the grant lets
/// the device, allows it, and the attachment names its owner; and for just that chunk.
pub proof fn law_attachment_token_is_asked_for_exactly_then(
    protocol: &RelayV3Protocol,
    grant: Option<&ObjectAccessGrant>,
    attachment: &SdkDmAttachmentRef,
    branch: &DeviceBranch,
    chunk_id: &str,
    issued_at: u64,
    expires_at: u64,
    nonce: &str,
    signature: &SignatureOutcome,
    binding_hash: &str,
    get: Result<SdkRelayTokenV3IssueBody, SdkError>,
    ack: Result<SdkRelayTokenV3IssueBody, SdkError>,
)
    requires
        call_ensures(
            build_v3_get_token_issue_body,
            (
                protocol,
                grant,
                attachment,
                branch,
                chunk_id,
                issued_at,
                expires_at,
                nonce,
                signature,
                binding_hash,
            ),
            get,
        ),
        call_ensures(
            build_v3_ack_token_issue_body,
            (
                protocol,
                grant,
                attachment,
                branch,
                chunk_id,
                issued_at,
                expires_at,
                nonce,
                signature,
                binding_hash,
            ),
            ack,
        ),
    ensures
        get is Ok <==> (grant matches Some(g) && lets_fetch(
            *g,
            *protocol,
            branch.device_hash@,
            attachment.object_id@,
            attachment.manifest_hash@,
            issued_at,
            *signature,
        ) && g.capabilities@.contains(ObjectRelayCapability::Get) && names_its_owner(*attachment)),
        ack is Ok <==> get is Ok && grant->0.capabilities@.contains(ObjectRelayCapability::Ack),
        get matches Ok(body) ==> asks(
            body,
            *protocol,
            *branch,
            attachment.object_id@,
            attachment.manifest_hash@,
            chunk_id@,
            ObjectRelayCapability::Get,
            RelayAuthorizationKind::OwnerGrant,
            binding_hash@,
            issued_at,
            expires_at,
            nonce@,
        ) && about_owner(
            body,
            grant->0.owner_signing_key_id@,
            grant->0.owner_public_key@,
            attachment.owner_home_node_id->0@,
            attachment.owner_principal_id@,
            attachment.owner_device_epoch,
            attachment.relay_audience_node_id->0@,
        ),
        ack matches Ok(body) ==> asks(
            body,
            *protocol,
            *branch,
            attachment.object_id@,
            attachment.manifest_hash@,
            chunk_id@,
            ObjectRelayCapability::Ack,
            RelayAuthorizationKind::OwnerGrant,
            binding_hash@,
            issued_at,
            expires_at,
            nonce@,
        ) && about_owner(
            body,
            grant->0.owner_signing_key_id@,
            grant->0.owner_public_key@,
            attachment.owner_home_node_id->0@,
            attachment.owner_principal_id@,
            attachment.owner_device_epoch,
            attachment.relay_audience_node_id->0@,
        ),
{
}

/// An owner's own session asks for a token to put or to bury, with its lineage and a window, about
/// itself.
pub proof fn law_owner_asks_for_its_own_object(
    protocol: &RelayV3Protocol,
    branch: &DeviceBranch,
    object: &EncryptedObject,
    chunk_id: &str,
    capability: ObjectRelayCapability,
    owner_home_node_id: &str,
    audience_node_id: &str,
    owner_principal_id: &str,
    binding_hash: &str,
    issued_at: u64,
    expires_at: u64,
    nonce: &str,
    r: Result<SdkRelayTokenV3IssueBody, SdkError>,
)
    requires
        call_ensures(
            build_v3_owner_session_token_issue_body,
            (
                protocol,
                branch,
                object,
                chunk_id,
                capability,
                owner_home_node_id,
                audience_node_id,
                owner_principal_id,
                binding_hash,
                issued_at,
                expires_at,
                nonce,
            ),
            r,
        ),
    ensures
        r is Ok <==> {
            &&& capability is Put || capability is Tombstone
            &&& !is_blank(owner_home_node_id@)
            &&& !is_blank(audience_node_id@)
            &&& !is_blank(owner_principal_id@)
            &&& !is_blank(chunk_id@)
            &&& issued_at < expires_at
            &&& branch.device_epoch > 0
        },
        r matches Ok(body) ==> asks(
            body,
            *protocol,
            *branch,
            object.object_id@,
            object.manifest_hash@,
            chunk_id@,
            capability,
            RelayAuthorizationKind::OwnerSession,
            binding_hash@,
            issued_at,
            expires_at,
            nonce@,
        ) && about_owner(
            body,
            branch.device_id@,
            branch.public_key@,
            owner_home_node_id@,
            owner_principal_id@,
            branch.device_epoch,
            audience_node_id@,
        ),
{
}

/// A grant asks for a token to fetch or to acknowledge, if it allows it and the owner is named.
pub proof fn law_grant_asks_for_what_it_allows(
    protocol: &RelayV3Protocol,
    grant: &ObjectAccessGrant,
    branch: &DeviceBranch,
    object_id: &str,
    manifest_hash: &str,
    chunk_id: &str,
    capability: ObjectRelayCapability,
    owner_home_node_id: &str,
    owner_principal_id: &str,
    owner_device_epoch: u64,
    audience_node_id: &str,
    issued_at: u64,
    expires_at: u64,
    nonce: &str,
    signature: &SignatureOutcome,
    binding_hash: &str,
    r: Result<SdkRelayTokenV3IssueBody, SdkError>,
)
    requires
        call_ensures(
            build_v3_grant_token_issue_body,
            (
                protocol,
                grant,
                branch,
                object_id,
                manifest_hash,
                chunk_id,
                capability,
                owner_home_node_id,
                owner_principal_id,
                owner_device_epoch,
                audience_node_id,
                issued_at,
                expires_at,
                nonce,
                signature,
                binding_hash,
            ),
            r,
        ),
    ensures
        r is Ok <==> {
            &&& capability is Get || capability is Ack
            &&& lets_fetch(
                *grant,
                *protocol,
                branch.device_hash@,
                object_id@,
                manifest_hash@,
                issued_at,
                *signature,
            )
            &&& grant.capabilities@.contains(capability)
            &&& !is_blank(owner_home_node_id@)
            &&& !is_blank(owner_principal_id@)
            &&& !is_blank(audience_node_id@)
            &&& owner_device_epoch > 0
        },
        r matches Ok(body) ==> asks(
            body,
            *protocol,
            *branch,
            object_id@,
            manifest_hash@,
            chunk_id@,
            capability,
            RelayAuthorizationKind::OwnerGrant,
            binding_hash@,
            issued_at,
            expires_at,
            nonce@,
        ) && about_owner(
            body,
            grant.owner_signing_key_id@,
            grant.owner_public_key@,
            owner_home_node_id@,
            owner_principal_id@,
            owner_device_epoch,
            audience_node_id@,
        ),
{
}

// ---- transfers and their options ----

/// What is shown of a transfer is what is recorded of it, and how much of it is done in hundredths.
pub proof fn law_transfer_is_shown_as_recorded(
    record: ObjectTransferRecord,
    r: SdkObjectTransferStatus,
    status: Result<SdkObjectTransferStatus, SdkError>,
    missing: Result<SdkObjectTransferStatus, SdkError>,
)
    requires
        call_ensures(object_transfer_status, (record,), r),
        call_ensures(upload_status, (Some(record),), status),
        call_ensures(upload_status, (None,), missing),
    ensures
        r.transfer_id@ == record.transfer_id@,
        r.object_id@ == record.object_id@,
        r.manifest_hash@ == record.manifest_hash@,
        r.direction@ == record.direction@,
        r.state@ == record.state@,
        r.total_bytes == record.total_bytes,
        r.done_bytes == record.done_bytes,
        r.total_chunks == record.total_chunks,
        r.completed_chunks == record.completed_chunks@.len(),
        r.next_chunk_index == record.next_chunk_index,
        r.last_error == record.last_error,
        r.updated_at == record.updated_at,
        record.total_bytes == 0 ==> r.percent == 0,
        record.total_bytes > 0 && record.done_bytes <= record.total_bytes && record.done_bytes
            <= 0x28f_5c28_f5c2_8f5c ==> r.percent == (record.done_bytes * 100)
            / record.total_bytes as int && r.percent <= 100,
        record.total_bytes > 0 && record.done_bytes * 100 <= u64::MAX ==> ({
            let share = (record.done_bytes * 100) / record.total_bytes as int;
            if share <= u32::MAX {
                r.percent == share
            } else {
                r.percent == 0
            }
        }),
        record.total_bytes > 0 && record.done_bytes * 100 > u64::MAX ==> ({
            let share = u64::MAX as int / record.total_bytes as int;
            if share <= u32::MAX {
                r.percent == share
            } else {
                r.percent == 0
            }
        }),
        status matches Ok(s) && s.object_id@ == record.object_id@ && s.done_bytes
            == record.done_bytes && s.state@ == record.state@ && s.percent == r.percent
            && s.total_bytes == record.total_bytes && s.next_chunk_index == record.next_chunk_index,
        missing is Err,
{
    if record.total_bytes > 0 && record.done_bytes <= record.total_bytes && record.done_bytes
        <= 0x28f_5c28_f5c2_8f5c {
        let done = record.done_bytes as int;
        let total = record.total_bytes as int;
        assert(done * 100 <= u64::MAX);
        assert((done * 100) / total <= 100) by (nonlinear_arith)
            requires
                0 <= done <= total,
                total > 0,
        ;
        assert((done * 100) / total >= 0) by (nonlinear_arith)
            requires
                0 <= done,
                total > 0,
        ;
    }
}

/// The names of transfers, and what the key of an object is bound to.
pub proof fn law_object_names(
    object_id: &str,
    manifest_hash: &str,
    direction: &str,
    conversation_id: &str,
    recipient: &str,
    transfer: String,
    bound: Vec<u8>,
    hash: crate::digest::HashInput,
)
    requires
        call_ensures(object_transfer_id, (object_id, manifest_hash, direction), transfer),
        call_ensures(
            object_key_slot_associated_data,
            (object_id, conversation_id, recipient),
            bound,
        ),
        call_ensures(recipient_device_hash_input, (recipient,), hash),
    ensures
        transfer@ == direction@ + ":"@ + object_id@ + ":"@ + manifest_hash@,
        bound@ == vstd::utf8::encode_utf8(
            "ramflux.object_key_slot.v1|"@ + object_id@ + "|"@ + conversation_id@ + "|"@
                + recipient@,
        ),
        hash.domain@ == "ramflux.object_relay.recipient_device.v1"@,
        hash.bytes@ == vstd::utf8::encode_utf8(recipient@),
{
}

/// Options for a relay are there exactly if an endpoint is given, hold what was set, and their settings
/// for QUIC are there together or not at all.
pub proof fn law_options_hold_what_was_set(
    endpoint: Option<String>,
    provider: RelayTokenProvider,
    interrupt: Option<u32>,
    environment: RelayEnvironment,
    r: Result<Option<RelayTransferOptions>, SdkError>,
    quic: Result<Option<RelayQuicEndpoint>, SdkError>,
    needed: Result<RelayQuicEndpoint, SdkError>,
)
    requires
        call_ensures(
            parse_relay_transfer_options,
            (endpoint, provider, interrupt, environment),
            r,
        ),
        r matches Ok(Some(options)) ==> call_ensures(relay_quic_config, (&options,), quic),
        r matches Ok(Some(options)) ==> call_ensures(needed_quic_config, (&options,), needed),
    ensures
        r is Ok <==> endpoint is None || ((environment.quic_addr is Some) == (
        environment.quic_server_name is Some) && (environment.quic_addr is Some) == (
        environment.quic_ca_cert is Some)),
        r matches Ok(found) ==> (found is Some <==> endpoint is Some),
        r matches Ok(Some(options)) ==> {
            &&& options.relay_endpoint@ == endpoint->0@
            &&& options.token_provider == provider
            &&& options.interrupt_after_chunks == interrupt
            &&& options.relay_owner_home_node_id == environment.owner_home_node_id
            &&& options.relay_owner_principal_id == environment.owner_principal_id
            &&& options.relay_audience_node_id == environment.audience_node_id
            &&& quic is Ok
            &&& quic matches Ok(q) ==> (q is Some <==> environment.quic_addr is Some)
            &&& quic matches Ok(Some(q)) ==> q.peer_addr@ == environment.quic_addr->0@
                && q.server_name@ == environment.quic_server_name->0@ && q.ca_cert@
                == environment.quic_ca_cert->0@
            &&& needed is Ok <==> environment.quic_addr is Some
            &&& needed matches Ok(q) ==> quic == Ok::<Option<RelayQuicEndpoint>, SdkError>(Some(q))
        },
{
}

/// Tokens are issued by the gateway unless a key is given and minting was switched on; then the key is
/// what its text stands for, or else the text itself.
pub proof fn law_tokens_are_minted_only_where_allowed(
    key: Option<String>,
    setting: Option<&str>,
    decoded: Option<Vec<u8>>,
    r: RelayTokenProvider,
    plain: RelayTokenProvider,
    explicit: Option<String>,
    environment: Option<String>,
    chosen: Option<String>,
    lineage: Option<String>,
    on: bool,
)
    requires
        call_ensures(relay_token_provider_with_local_mint, (key, setting, decoded), r),
        call_ensures(relay_token_provider_from_service_key, (key,), plain),
        call_ensures(relay_service_key, (explicit, environment), chosen),
        call_ensures(effective_attachment_lineage, (explicit, environment), lineage),
        call_ensures(
            crate::object::sdk_relay_local_mint_enabled_from_value,
            (setting,),
            on,
        ),
    ensures
        plain is GatewayIssued,
        r is LocalMint <==> key is Some && on,
        on ==> setting is Some,
        r matches RelayTokenProvider::LocalMint { relay_service_key: k } ==> k@ == match decoded {
            Some(bytes) => bytes@,
            None => vstd::utf8::encode_utf8(key->0@),
        },
        explicit is Some ==> chosen == explicit && lineage == explicit,
        explicit is None ==> chosen == environment && lineage == environment,
{
}

} // verus!
