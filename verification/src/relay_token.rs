//! Relay tokens of the second version, minted here under a key shared with the relay.
use crate::digest::{hmac_sha256, hmac_sha256_tag};
use crate::error::{is_local_bus, local_bus, SdkError};
use crate::gateway::protocol::GatewayRelayTokenIssueBody;
use crate::object::{
    object_relay_chunk_id, relay_chunk_id, DeviceBranch, EncryptedObject, RelayTokenProvider,
    SdkObjectPermissionEnvelope, SdkObjectRelayCapability, SdkRelayToken,
    SDK_RELAY_TOKEN_AUDIENCE_RELAY, SDK_RELAY_TOKEN_ISSUER_GATEWAY, SDK_RELAY_TOKEN_VERSION,
};
use vstd::prelude::*;

verus! {

/// The name of a capability, as a token identifier holds it.
pub open spec fn capability_name(c: SdkObjectRelayCapability) -> Seq<char> {
    match c {
        SdkObjectRelayCapability::Put => "Put"@,
        SdkObjectRelayCapability::Get => "Get"@,
        SdkObjectRelayCapability::Ack => "Ack"@,
        SdkObjectRelayCapability::Tombstone => "Tombstone"@,
    }
}

fn capability_str(c: SdkObjectRelayCapability) -> (r: &'static str)
    ensures
        r@ == capability_name(c),
{
    match c {
        SdkObjectRelayCapability::Put => "Put",
        SdkObjectRelayCapability::Get => "Get",
        SdkObjectRelayCapability::Ack => "Ack",
        SdkObjectRelayCapability::Tombstone => "Tombstone",
    }
}

/// Whether `r` is the token for one capability on one chunk, not yet authenticated.
pub open spec fn is_bare_token(
    r: SdkRelayToken,
    branch: DeviceBranch,
    object: EncryptedObject,
    chunk_index: u32,
    capability: SdkObjectRelayCapability,
    expires_at: u64,
    now: u64,
    nonce: String,
) -> bool {
    &&& r.token_version == 2
    &&& r.chunk_id@ == relay_chunk_id(object.object_id@, object.manifest_hash@, chunk_index as nat)
    &&& r.token_id@ == "token:"@ + r.chunk_id@ + ":"@ + capability_name(capability)
    &&& r.object_id == object.object_id
    &&& r.manifest_hash == object.manifest_hash
    &&& r.recipient_device_hash == branch.device_hash
    &&& r.owner_signing_key_id == branch.device_id
    &&& r.owner_public_key == branch.public_key
    &&& r.issuer_service@ == "ramflux-gateway"@
    &&& r.audience_service@ == "ramflux-relay"@
    &&& r.capabilities@ == seq![capability]
    &&& !r.delete_after_ack
    &&& r.issued_at == now
    &&& r.expires_at == expires_at
    &&& r.nonce == nonce
    &&& r.mac@ == Seq::<char>::empty()
}

/// The token for one capability on one chunk, with no authentication code yet. `nonce` is random.
pub fn relay_token_for_chunk(
    branch: &DeviceBranch,
    object: &EncryptedObject,
    chunk_index: u32,
    capability: SdkObjectRelayCapability,
    expires_at: u64,
    now: u64,
    nonce: String,
) -> (r: SdkRelayToken)
    ensures
        is_bare_token(r, *branch, *object, chunk_index, capability, expires_at, now, nonce),
{
    let chunk_id = object_relay_chunk_id(
        object.object_id.as_str(),
        object.manifest_hash.as_str(),
        chunk_index,
    );
    let token_id = "token:".to_owned().concat(chunk_id.as_str()).concat(":").concat(
        capability_str(capability),
    );
    let mut capabilities: Vec<SdkObjectRelayCapability> = Vec::new();
    capabilities.push(capability);
    assert(capabilities@ =~= seq![capability]);
    SdkRelayToken {
        token_version: SDK_RELAY_TOKEN_VERSION,
        token_id,
        object_id: object.object_id.clone(),
        manifest_hash: object.manifest_hash.clone(),
        chunk_id,
        recipient_device_hash: branch.device_hash.clone(),
        owner_signing_key_id: branch.device_id.clone(),
        owner_public_key: branch.public_key.clone(),
        issuer_service: SDK_RELAY_TOKEN_ISSUER_GATEWAY.to_owned(),
        audience_service: SDK_RELAY_TOKEN_AUDIENCE_RELAY.to_owned(),
        capabilities,
        delete_after_ack: false,
        issued_at: now,
        expires_at,
        nonce,
        mac: String::new(),
    }
}

impl SdkRelayToken {
    /// The token as its authentication code covers it: without the code.
    pub fn without_mac(self) -> (r: SdkRelayToken)
        ensures
            r.mac@ == Seq::<char>::empty(),
            r == (SdkRelayToken { mac: r.mac, ..self }),
    {
        let mut token = self;
        token.mac = String::new();
        token
    }

    /// The token with its authentication code.
    pub fn with_mac(self, mac: String) -> (r: SdkRelayToken)
        ensures
            r == (SdkRelayToken { mac, ..self }),
    {
        let mut token = self;
        token.mac = mac;
        token
    }
}

/// The authentication code of a token: the tag of its canonical bytes, which leave the code itself
/// out, under the key that the relay shares.
pub fn relay_token_mac(service_key: &[u8], canonical_bytes: &[u8]) -> (r: Result<Vec<u8>, SdkError>)
    ensures
        r is Ok,
        r->Ok_0@ == hmac_sha256_tag(service_key@, canonical_bytes@),
        r->Ok_0@.len() == 32,
{
    match hmac_sha256(service_key, canonical_bytes) {
        Ok(tag) => Ok(tag),
        Err(_) => Err(local_bus("Invalid Length")),
    }
}

/// The permission that goes with a token, before its owner signs it.
pub fn object_permission_for_chunk(
    branch: &DeviceBranch,
    object: &EncryptedObject,
    capability: SdkObjectRelayCapability,
    expires_at: u64,
    now: u64,
) -> (r: SdkObjectPermissionEnvelope)
    ensures
        r.object_id == object.object_id,
        r.manifest_hash == object.manifest_hash,
        r.grantee_device_hash == branch.device_hash,
        r.capability == capability,
        r.issued_at == now,
        r.expires_at == expires_at,
        r.owner_signing_key_id == branch.device_id,
        r.owner_public_key == branch.public_key,
        r.owner_signature@ == Seq::<char>::empty(),
{
    SdkObjectPermissionEnvelope {
        object_id: object.object_id.clone(),
        manifest_hash: object.manifest_hash.clone(),
        grantee_device_hash: branch.device_hash.clone(),
        capability,
        issued_at: now,
        expires_at,
        owner_signing_key_id: branch.device_id.clone(),
        owner_public_key: branch.public_key.clone(),
        owner_signature: String::new(),
    }
}

impl SdkObjectPermissionEnvelope {
    /// The permission as its signature covers it: without the signature.
    pub fn without_signature(self) -> (r: SdkObjectPermissionEnvelope)
        ensures
            r.owner_signature@ == Seq::<char>::empty(),
            r == (SdkObjectPermissionEnvelope { owner_signature: r.owner_signature, ..self }),
    {
        let mut permission = self;
        permission.owner_signature = String::new();
        permission
    }

    /// The permission with its owner's signature.
    pub fn signed(self, owner_signature: String) -> (r: SdkObjectPermissionEnvelope)
        ensures
            r == (SdkObjectPermissionEnvelope { owner_signature, ..self }),
    {
        let mut permission = self;
        permission.owner_signature = owner_signature;
        permission
    }
}

/// The key under which tokens are minted here, where they are.
pub fn local_relay_service_key(provider: &RelayTokenProvider) -> (r: Result<&Vec<u8>, SdkError>)
    ensures
        match *provider {
            RelayTokenProvider::LocalMint { relay_service_key } => r is Ok && *r->Ok_0
                == relay_service_key,
            RelayTokenProvider::GatewayIssued => is_local_bus(
                r,
                "object relay requires gateway-issued token; local mint is disabled"@,
            ),
        },
{
    match provider {
        RelayTokenProvider::LocalMint { relay_service_key } => Ok(relay_service_key),
        RelayTokenProvider::GatewayIssued => Err(
            local_bus("object relay requires gateway-issued token; local mint is disabled"),
        ),
    }
}

/// The request for a token of the second version to the gateway.
pub fn relay_token_issue_body(
    branch: &DeviceBranch,
    object: &EncryptedObject,
    chunk_index: u32,
    capability: SdkObjectRelayCapability,
    expires_at: u64,
    now: u64,
    permission: SdkObjectPermissionEnvelope,
) -> (r: GatewayRelayTokenIssueBody)
    ensures
        r.object_id == object.object_id,
        r.manifest_hash == object.manifest_hash,
        r.chunk_id@ == relay_chunk_id(object.object_id@, object.manifest_hash@, chunk_index as nat),
        r.recipient_device_hash == branch.device_hash,
        r.owner_signing_key_id == branch.device_id,
        r.owner_public_key == branch.public_key,
        r.capability == capability,
        !r.delete_after_ack,
        r.issued_at == now,
        r.expires_at == expires_at,
        r.object_permission_envelope == permission,
{
    GatewayRelayTokenIssueBody {
        object_id: object.object_id.clone(),
        manifest_hash: object.manifest_hash.clone(),
        chunk_id: object_relay_chunk_id(
            object.object_id.as_str(),
            object.manifest_hash.as_str(),
            chunk_index,
        ),
        recipient_device_hash: branch.device_hash.clone(),
        owner_signing_key_id: branch.device_id.clone(),
        owner_public_key: branch.public_key.clone(),
        capability,
        delete_after_ack: false,
        issued_at: now,
        expires_at,
        object_permission_envelope: permission,
    }
}

// ---- what is asked of a relay under such a token ----

/// A chunk as it is stored on a relay.
#[derive(Clone, Debug, PartialEq, Eq)]
pub struct SdkObjectChunkFrame {
    pub schema: String,
    pub object_id: String,
    pub manifest_hash: String,
    pub chunk_index: u32,
    pub chunk_id: String,
    pub chunk_cipher_hash: String,
    pub cipher_size: u64,
    pub encrypted_chunk: Vec<u8>,
    pub relay_token: SdkRelayToken,
    pub object_permission_envelope: SdkObjectPermissionEnvelope,
    pub expires_at: u64,
    pub delete_after_ack: bool,
}

/// The wish to get a chunk.
#[derive(Clone, Debug, PartialEq, Eq)]
pub struct SdkObjectRelayGetRequest {
    pub chunk_id: String,
    pub relay_token: SdkRelayToken,
    pub object_permission_envelope: SdkObjectPermissionEnvelope,
}

/// The acknowledgement of a chunk.
#[derive(Clone, Debug, PartialEq, Eq)]
pub struct SdkObjectRelayAck {
    pub object_id: String,
    pub manifest_hash: String,
    pub chunk_id: String,
    pub recipient_device_hash: String,
    pub relay_token: SdkRelayToken,
    pub object_permission_envelope: SdkObjectPermissionEnvelope,
    pub acked_at: u64,
}

/// A chunk as it is stored on a relay: it stays there when it has been acknowledged.
/// `chunk_cipher_hash` is the hash of the encrypted chunk.
pub fn object_chunk_frame(
    object: &EncryptedObject,
    chunk_index: u32,
    encrypted_chunk: Vec<u8>,
    chunk_cipher_hash: String,
    relay_token: SdkRelayToken,
    permission: SdkObjectPermissionEnvelope,
    expires_at: u64,
) -> (r: SdkObjectChunkFrame)
    ensures
        r.schema@ == "ramflux.object_chunk_frame.v1"@,
        r.object_id == object.object_id,
        r.manifest_hash == object.manifest_hash,
        r.chunk_index == chunk_index,
        r.chunk_id == relay_token.chunk_id,
        r.chunk_cipher_hash == chunk_cipher_hash,
        r.cipher_size == encrypted_chunk@.len(),
        r.encrypted_chunk == encrypted_chunk,
        r.relay_token == relay_token,
        r.object_permission_envelope == permission,
        r.expires_at == expires_at,
        !r.delete_after_ack,
{
    SdkObjectChunkFrame {
        schema: "ramflux.object_chunk_frame.v1".to_owned(),
        object_id: object.object_id.clone(),
        manifest_hash: object.manifest_hash.clone(),
        chunk_index,
        chunk_id: relay_token.chunk_id.clone(),
        chunk_cipher_hash,
        cipher_size: encrypted_chunk.len() as u64,
        encrypted_chunk,
        relay_token,
        object_permission_envelope: permission,
        expires_at,
        delete_after_ack: false,
    }
}

/// The wish to get the chunk that a token is for.
pub fn object_relay_get_request(
    relay_token: SdkRelayToken,
    permission: SdkObjectPermissionEnvelope,
) -> (r: SdkObjectRelayGetRequest)
    ensures
        r.chunk_id == relay_token.chunk_id,
        r.relay_token == relay_token,
        r.object_permission_envelope == permission,
{
    SdkObjectRelayGetRequest {
        chunk_id: relay_token.chunk_id.clone(),
        relay_token,
        object_permission_envelope: permission,
    }
}

/// The acknowledgement of the chunk that a token is for, by the device that the token is for.
pub fn object_relay_ack(
    object: &EncryptedObject,
    relay_token: SdkRelayToken,
    permission: SdkObjectPermissionEnvelope,
    acked_at: u64,
) -> (r: SdkObjectRelayAck)
    ensures
        r.object_id == object.object_id,
        r.manifest_hash == object.manifest_hash,
        r.chunk_id == relay_token.chunk_id,
        r.recipient_device_hash == relay_token.recipient_device_hash,
        r.relay_token == relay_token,
        r.object_permission_envelope == permission,
        r.acked_at == acked_at,
{
    SdkObjectRelayAck {
        object_id: object.object_id.clone(),
        manifest_hash: object.manifest_hash.clone(),
        chunk_id: relay_token.chunk_id.clone(),
        recipient_device_hash: relay_token.recipient_device_hash.clone(),
        relay_token,
        object_permission_envelope: permission,
        acked_at,
    }
}

} // verus!
