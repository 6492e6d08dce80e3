//! Encrypted objects on a relay: identifiers, transfer options, tokens, grants and proofs.
use crate::digest::{hashes, HashInput};
use crate::dm::SdkDmX3dhHeader;
use crate::error::{is_local_bus, local_bus, SdkError};
use crate::records::ObjectTransferRecord;
use crate::text::{decimal, decimal_u64, eq_when_lowercased, trim};
use vstd::prelude::*;

verus! {

/// An object as the object store holds it.
#[derive(Clone, Debug, PartialEq, Eq)]
pub struct EncryptedObject {
    pub object_id: String,
    pub manifest_hash: String,
    pub nonce: String,
    pub ciphertext: Vec<u8>,
    pub plaintext_hash: String,
    pub tombstoned: bool,
    pub backup_excluded: bool,
}

/// A message of a ratcheted session.
#[derive(Clone, Debug, PartialEq, Eq)]
pub struct DmCiphertext {
    pub session_id: String,
    pub counter: u64,
    pub nonce: [u8; 12],
    pub ciphertext: Vec<u8>,
    pub ratchet_public_key: Option<[u8; 32]>,
    pub previous_chain_length: u64,
    pub sender_device_id_hash: [u8; 32],
    pub recipient_device_id_hash: [u8; 32],
    pub device_epoch: u64,
    pub message_event_id: String,
    pub canonical_header_bytes: Vec<u8>,
    pub header_hash: String,
    pub key_commitment: String,
    pub franking_commitment: String,
    pub commitment: String,
    pub ciphertext_hash: String,
}

/// The key of an object, encrypted to one device.
#[derive(Clone, Debug, PartialEq, Eq)]
pub struct SdkObjectKeySlot {
    pub schema: String,
    pub version: u32,
    pub object_id: String,
    pub conversation_id: String,
    pub recipient_device_id: String,
    pub x3dh: Option<SdkDmX3dhHeader>,
    pub ciphertext: DmCiphertext,
}

/// An object together with its key slot.
#[derive(Clone, Debug, PartialEq, Eq)]
pub struct SdkObjectSharePackage {
    pub schema: String,
    pub version: u32,
    pub object: EncryptedObject,
    pub ciphertext_base64: String,
    pub key_slot: SdkObjectKeySlot,
}

/// What a token of the second version lets its bearer do.
#[derive(Clone, Copy, Debug, PartialEq, Eq, Structural)]
pub enum SdkObjectRelayCapability {
    Put,
    Get,
    Ack,
    Tombstone,
}

/// What a token, a grant or a proof of the third version lets its bearer do.
#[derive(Clone, Copy, Debug, PartialEq, Eq, Structural)]
pub enum ObjectRelayCapability {
    Put,
    Get,
    Ack,
    Tombstone,
}

/// What backs the request for a token.
#[derive(Clone, Copy, Debug, PartialEq, Eq, Structural)]
pub enum RelayAuthorizationKind {
    OwnerSession,
    OwnerGrant,
}

/// What became of a chunk on the relay.
#[derive(Clone, Copy, Debug, PartialEq, Eq, Structural)]
pub enum SdkRelayChunkStatus {
    Available,
    Expired,
    AckedDeleted,
    Tombstoned,
}

/// A relay token of the second version.
#[derive(Clone, Debug, PartialEq, Eq)]
pub struct SdkRelayToken {
    pub token_version: u32,
    pub token_id: String,
    pub object_id: String,
    pub manifest_hash: String,
    pub chunk_id: String,
    pub recipient_device_hash: String,
    pub owner_signing_key_id: String,
    pub owner_public_key: String,
    pub issuer_service: String,
    pub audience_service: String,
    pub capabilities: Vec<SdkObjectRelayCapability>,
    pub delete_after_ack: bool,
    pub issued_at: u64,
    pub expires_at: u64,
    pub nonce: String,
    pub mac: String,
}

/// The owner's permission that goes with a token of the second version.
#[derive(Clone, Debug, PartialEq, Eq)]
pub struct SdkObjectPermissionEnvelope {
    pub object_id: String,
    pub manifest_hash: String,
    pub grantee_device_hash: String,
    pub capability: SdkObjectRelayCapability,
    pub issued_at: u64,
    pub expires_at: u64,
    pub owner_signing_key_id: String,
    pub owner_public_key: String,
    pub owner_signature: String,
}

/// The relay's answer to a stored chunk.
#[derive(Clone, Debug, PartialEq, Eq)]
pub struct SdkObjectRelayPutResponse {
    pub chunk_id: String,
    pub object_id: String,
    pub manifest_hash: String,
    pub expires_at: u64,
    pub status: SdkRelayChunkStatus,
}

/// How far a transfer has come, as it is shown to a user.
#[derive(Clone, Debug, PartialEq, Eq)]
pub struct SdkObjectTransferStatus {
    pub transfer_id: String,
    pub object_id: String,
    pub manifest_hash: String,
    pub direction: String,
    pub state: String,
    pub total_bytes: u64,
    pub done_bytes: u64,
    pub total_chunks: u32,
    pub completed_chunks: usize,
    pub next_chunk_index: Option<u32>,
    pub percent: u32,
    pub last_error: Option<String>,
    pub updated_at: i64,
}

/// Where relay tokens come from.
#[derive(Clone, Debug, PartialEq, Eq)]
pub enum RelayTokenProvider {
    /// The gateway issues them.
    GatewayIssued,
    /// They are minted here, under a key shared with the relay.
    LocalMint { relay_service_key: Vec<u8> },
}

/// How objects travel to and from a relay.
#[derive(Clone, Debug, PartialEq, Eq)]
pub struct RelayTransferOptions {
    pub relay_endpoint: String,
    pub token_provider: RelayTokenProvider,
    pub interrupt_after_chunks: Option<u32>,
    pub relay_quic_peer_addr: Option<String>,
    pub relay_quic_server_name: Option<String>,
    pub relay_quic_ca_cert: Option<String>,
    pub relay_owner_home_node_id: Option<String>,
    pub relay_owner_principal_id: Option<String>,
    pub relay_audience_node_id: Option<String>,
}

/// What the process environment says of relays.
#[derive(Clone, Debug, PartialEq, Eq)]
pub struct RelayEnvironment {
    pub quic_addr: Option<String>,
    pub quic_server_name: Option<String>,
    pub quic_ca_cert: Option<String>,
    pub owner_home_node_id: Option<String>,
    pub owner_principal_id: Option<String>,
    pub audience_node_id: Option<String>,
}

/// Where a relay is reached over QUIC.
#[derive(Clone, Debug, PartialEq, Eq)]
pub struct RelayQuicEndpoint {
    pub peer_addr: String,
    pub server_name: String,
    pub ca_cert: String,
}

/// The schema names and the version that the third version of the relay protocol fixes.
#[derive(Clone, Debug, PartialEq, Eq)]
pub struct RelayV3Protocol {
    pub object_access_grant_schema: String,
    pub owner_authorization_proof_schema: String,
    pub requester_pop_schema: String,
    pub gateway_issuer_certificate_schema: String,
    pub proof_version: u32,
}

/// The device that acts: what is public of its branch key, and the hash that a relay knows it by.
#[derive(Clone, Debug, PartialEq, Eq)]
pub struct DeviceBranch {
    pub principal_id: String,
    pub device_id: String,
    pub device_epoch: u64,
    pub public_key: String,
    pub device_hash: String,
}

impl DeviceBranch {
    /// A copy of the branch.
    pub fn copy(&self) -> (r: DeviceBranch)
        ensures
            r == *self,
    {
        DeviceBranch {
            principal_id: self.principal_id.clone(),
            device_id: self.device_id.clone(),
            device_epoch: self.device_epoch,
            public_key: self.public_key.clone(),
            device_hash: self.device_hash.clone(),
        }
    }
}

/// An owner's leave for one device to fetch and acknowledge an object.
#[derive(Clone, Debug, PartialEq, Eq)]
pub struct ObjectAccessGrant {
    pub schema: String,
    pub version: u32,
    pub object_id: String,
    pub manifest_hash: String,
    pub grantee_device_hash: String,
    pub capabilities: Vec<ObjectRelayCapability>,
    pub issued_at: u64,
    pub expires_at: u64,
    pub owner_signing_key_id: String,
    pub owner_public_key: String,
    pub owner_signature: String,
}

/// An owner's proof for storing or burying an object.
#[derive(Clone, Debug, PartialEq, Eq)]
pub struct OwnerAuthorizationProof {
    pub schema: String,
    pub version: u32,
    pub capability: ObjectRelayCapability,
    pub object_id: String,
    pub manifest_hash: Option<String>,
    pub chunk_id: Option<String>,
    pub owner_home_node_id: String,
    pub owner_principal_id: String,
    pub owner_device_epoch: u64,
    pub request_nonce: String,
    pub body_hash: String,
    pub issued_at: u64,
    pub expires_at: u64,
    pub owner_signing_key_id: String,
    pub owner_public_key: String,
    pub owner_signature: String,
}

/// A requester's proof that it holds its device key.
#[derive(Clone, Debug, PartialEq, Eq)]
pub struct RequesterProofOfPossession {
    pub schema: String,
    pub version: u32,
    pub token_id: String,
    pub capability: ObjectRelayCapability,
    pub object_id: String,
    pub manifest_hash: String,
    pub chunk_id: String,
    pub request_nonce: String,
    pub body_hash: String,
    pub issued_at: u64,
    pub expires_at: u64,
    pub signer_device_id: String,
    pub signer_public_key: String,
    pub signature: String,
}

/// A gateway's certificate, which the gateway itself fills in.
#[derive(Clone, Debug, PartialEq, Eq)]
pub struct GatewayIssuerCertificate {
    pub schema: String,
    pub version: u32,
    pub cert_id: String,
    pub node_id: String,
    pub gateway_instance_id: String,
    pub attestation_public_key: String,
    pub attestation_key_id: String,
    pub not_before: u64,
    pub not_after: u64,
    pub issued_at: u64,
    pub node_root_signing_key_id: String,
    pub node_root_signature: String,
    pub revoked_at: Option<u64>,
}

/// What checking a signature over canonical bytes came to.
#[derive(Clone, Debug, PartialEq, Eq)]
pub enum SignatureOutcome {
    /// The signature is the signer's.
    Valid,
    /// It is not, in the words of the verifier.
    Invalid(String),
    /// The signed value has no canonical bytes, in the words of the encoder.
    Unsignable(String),
}

pub const OBJECT_TRANSFER_UPLOAD: &'static str = "upload";

pub const OBJECT_TRANSFER_DOWNLOAD: &'static str = "download";

pub const SDK_RELAY_TOKEN_VERSION: u32 = 2;

pub const SDK_RELAY_TOKEN_ISSUER_GATEWAY: &'static str = "ramflux-gateway";

pub const SDK_RELAY_TOKEN_AUDIENCE_RELAY: &'static str = "ramflux-relay";

pub const SDK_RELAY_LOCAL_MINT_ENV: &'static str = "RAMFLUX_SDK_OBJECT_RELAY_LOCAL_MINT";

// ---- identifiers ----

/// The text that binds a key slot to its object, conversation and recipient.
pub open spec fn key_slot_associated_text(
    object_id: Seq<char>,
    conversation_id: Seq<char>,
    recipient_device_id: Seq<char>,
) -> Seq<char> {
    "ramflux.object_key_slot.v1|"@ + object_id + "|"@ + conversation_id + "|"@ + recipient_device_id
}

/// The associated data of a key slot.
pub fn object_key_slot_associated_data(
    object_id: &str,
    conversation_id: &str,
    recipient_device_id: &str,
) -> (r: Vec<u8>)
    ensures
        r@ == vstd::utf8::encode_utf8(
            key_slot_associated_text(object_id@, conversation_id@, recipient_device_id@),
        ),
{
    let text = "ramflux.object_key_slot.v1|".to_owned().concat(object_id).concat("|").concat(
        conversation_id,
    ).concat("|").concat(recipient_device_id);
    text.as_str().as_bytes_vec()
}

/// The identifier of a chunk on the relay.
pub open spec fn relay_chunk_id(
    object_id: Seq<char>,
    manifest_hash: Seq<char>,
    chunk_index: nat,
) -> Seq<char> {
    "object-relay:"@ + object_id + ":"@ + manifest_hash + ":"@ + decimal(chunk_index)
}

/// The identifier of a chunk on the relay.
pub fn object_relay_chunk_id(object_id: &str, manifest_hash: &str, chunk_index: u32) -> (r: String)
    ensures
        r@ == relay_chunk_id(object_id@, manifest_hash@, chunk_index as nat),
{
    let index = decimal_u64(chunk_index as u64);
    "object-relay:".to_owned().concat(object_id).concat(":").concat(manifest_hash).concat(":").concat(
        index.as_str(),
    )
}

/// Two chunks of one object have different identifiers.
pub proof fn law_chunk_ids_differ(
    object_id: Seq<char>,
    manifest_hash: Seq<char>,
    a: nat,
    b: nat,
)
    requires
        a != b,
    ensures
        relay_chunk_id(object_id, manifest_hash, a) != relay_chunk_id(object_id, manifest_hash, b),
{
    if relay_chunk_id(object_id, manifest_hash, a) == relay_chunk_id(object_id, manifest_hash, b) {
        let before = "object-relay:"@ + object_id + ":"@ + manifest_hash + ":"@;
        assert(before + decimal(a) + Seq::<char>::empty() =~= before + decimal(a));
        assert(before + decimal(b) + Seq::<char>::empty() =~= before + decimal(b));
        crate::text::law_part_is_bound(before, decimal(a), decimal(b), Seq::empty());
        crate::text::law_decimal_injective(a, b);
    }
}

/// The identifier of a transfer.
pub open spec fn transfer_id(
    object_id: Seq<char>,
    manifest_hash: Seq<char>,
    direction: Seq<char>,
) -> Seq<char> {
    direction + ":"@ + object_id + ":"@ + manifest_hash
}

/// The identifier of a transfer.
pub fn object_transfer_id(object_id: &str, manifest_hash: &str, direction: &str) -> (r: String)
    ensures
        r@ == transfer_id(object_id@, manifest_hash@, direction@),
{
    direction.to_owned().concat(":").concat(object_id).concat(":").concat(manifest_hash)
}

// ---- transfer status and options ----

/// The share of the bytes that is done, in percent: 0 of nothing, and 0 where the number does not
/// fit. A count of done bytes whose hundredfold does not fit is counted as the largest that does.
pub open spec fn transfer_percent(done: nat, total: nat) -> nat {
    if total == 0 {
        0
    } else {
        let hundredfold = if done * 100 > u64::MAX {
            u64::MAX as nat
        } else {
            done * 100
        };
        if hundredfold / total > u32::MAX {
            0
        } else {
            hundredfold / total
        }
    }
}

/// Whether `r` is what a user is shown of a stored transfer.
pub open spec fn shows_transfer(r: SdkObjectTransferStatus, record: ObjectTransferRecord) -> bool {
    &&& r.transfer_id == record.transfer_id
    &&& r.object_id == record.object_id
    &&& r.manifest_hash == record.manifest_hash
    &&& r.direction == record.direction
    &&& r.state == record.state
    &&& r.total_bytes == record.total_bytes
    &&& r.done_bytes == record.done_bytes
    &&& r.total_chunks == record.total_chunks
    &&& r.completed_chunks == record.completed_chunks@.len()
    &&& r.next_chunk_index == record.next_chunk_index
    &&& r.percent == transfer_percent(record.done_bytes as nat, record.total_bytes as nat)
    &&& r.last_error == record.last_error
    &&& r.updated_at == record.updated_at
}

/// What a user is shown of a stored transfer.
pub fn object_transfer_status(record: ObjectTransferRecord) -> (r: SdkObjectTransferStatus)
    ensures
        shows_transfer(r, record),
{
    let wide: u128 = record.done_bytes as u128 * 100;
    let hundredfold: u64 = if wide > u64::MAX as u128 {
        u64::MAX
    } else {
        wide as u64
    };
    let percent: u32 = if record.total_bytes == 0 {
        0
    } else {
        let quotient: u64 = hundredfold / record.total_bytes;
        if quotient > u32::MAX as u64 {
            0
        } else {
            quotient as u32
        }
    };
    SdkObjectTransferStatus {
        transfer_id: record.transfer_id,
        object_id: record.object_id,
        manifest_hash: record.manifest_hash,
        direction: record.direction,
        state: record.state,
        total_bytes: record.total_bytes,
        done_bytes: record.done_bytes,
        total_chunks: record.total_chunks,
        completed_chunks: record.completed_chunks.len(),
        next_chunk_index: record.next_chunk_index,
        percent,
        last_error: record.last_error,
        updated_at: record.updated_at,
    }
}

/// The words that turn local minting on.
pub open spec fn local_mint_word(s: Seq<char>) -> bool {
    let word = crate::text::ascii_lowercase(crate::text::trimmed(s));
    word == "1"@ || word == "true"@ || word == "on"@ || word == "yes"@
}

/// Whether the given setting turns local minting on.
pub fn sdk_relay_local_mint_enabled_from_value(value: Option<&str>) -> (r: bool)
    ensures
        r == (value matches Some(text) && local_mint_word(text@)),
{
    match value {
        Some(text) => {
            let word = trim(text);
            eq_when_lowercased(word, "1") || eq_when_lowercased(word, "true") || eq_when_lowercased(
                word,
                "on",
            ) || eq_when_lowercased(word, "yes")
        },
        None => false,
    }
}

/// Where tokens come from when local minting is not built in: always from the gateway, whatever
/// service key a caller has.
pub fn relay_token_provider_from_service_key(relay_service_key_base64: Option<String>) -> (r:
    RelayTokenProvider)
    ensures
        r is GatewayIssued,
{
    RelayTokenProvider::GatewayIssued
}

/// The service key in force: the caller's, else the one of the environment.
pub fn relay_service_key(explicit: Option<String>, environment: Option<String>) -> (r: Option<String>)
    ensures
        r == (if explicit is Some {
            explicit
        } else {
            environment
        }),
{
    match explicit {
        Some(key) => Some(key),
        None => environment,
    }
}

/// Where tokens come from when local minting is built in: from here only if there is a service key
/// and the setting turns local minting on. `decoded` is the key decoded from base64url; a key that
/// cannot be decoded is used as its bytes stand.
pub fn relay_token_provider_with_local_mint(
    key: Option<String>,
    setting: Option<&str>,
    decoded: Option<Vec<u8>>,
) -> (r: RelayTokenProvider)
    ensures
        match (key, setting) {
            (Some(key), Some(text)) if local_mint_word(text@) => r
                matches RelayTokenProvider::LocalMint { relay_service_key } && match decoded {
                Some(bytes) => relay_service_key == bytes,
                None => relay_service_key@ == vstd::utf8::encode_utf8(key@),
            },
            _ => r is GatewayIssued,
        },
{
    match key {
        Some(key) => {
            if sdk_relay_local_mint_enabled_from_value(setting) {
                match decoded {
                    Some(bytes) => RelayTokenProvider::LocalMint { relay_service_key: bytes },
                    None => RelayTokenProvider::LocalMint {
                        relay_service_key: key.as_str().as_bytes_vec(),
                    },
                }
            } else {
                RelayTokenProvider::GatewayIssued
            }
        },
        None => RelayTokenProvider::GatewayIssued,
    }
}

/// Whether all, or none, of the three settings of a QUIC relay are there.
pub open spec fn quic_settings_agree(
    addr: Option<String>,
    server_name: Option<String>,
    ca_cert: Option<String>,
) -> bool {
    (addr is Some) == (server_name is Some) && (addr is Some) == (ca_cert is Some)
}

/// Reads the transfer options: nothing without an endpoint, and an error where the settings of a
/// QUIC relay are there only in part.
pub fn parse_relay_transfer_options(
    relay_endpoint: Option<String>,
    token_provider: RelayTokenProvider,
    interrupt_after_chunks: Option<u32>,
    environment: RelayEnvironment,
) -> (r: Result<Option<RelayTransferOptions>, SdkError>)
    ensures
        match relay_endpoint {
            None => r == Ok::<Option<RelayTransferOptions>, SdkError>(None),
            Some(endpoint) => if quic_settings_agree(
                environment.quic_addr,
                environment.quic_server_name,
                environment.quic_ca_cert,
            ) {
                r == Ok::<Option<RelayTransferOptions>, SdkError>(
                    Some(
                        RelayTransferOptions {
                            relay_endpoint: endpoint,
                            token_provider,
                            interrupt_after_chunks,
                            relay_quic_peer_addr: environment.quic_addr,
                            relay_quic_server_name: environment.quic_server_name,
                            relay_quic_ca_cert: environment.quic_ca_cert,
                            relay_owner_home_node_id: environment.owner_home_node_id,
                            relay_owner_principal_id: environment.owner_principal_id,
                            relay_audience_node_id: environment.audience_node_id,
                        },
                    ),
                )
            } else {
                is_local_bus(
                    r,
                    "relay QUIC requires RAMFLUX_SDK_RELAY_QUIC_ADDR, SERVER_NAME, and CA_CERT together"@,
                )
            },
        },
{
    let endpoint = match relay_endpoint {
        Some(endpoint) => endpoint,
        None => {
            return Ok(None);
        },
    };
    let mut configured: u32 = 0;
    if environment.quic_addr.is_some() {
        configured = configured + 1;
    }
    if environment.quic_server_name.is_some() {
        configured = configured + 1;
    }
    if environment.quic_ca_cert.is_some() {
        configured = configured + 1;
    }
    if configured != 0 && configured != 3 {
        return Err(
            local_bus(
                "relay QUIC requires RAMFLUX_SDK_RELAY_QUIC_ADDR, SERVER_NAME, and CA_CERT together",
            ),
        );
    }
    Ok(
        Some(
            RelayTransferOptions {
                relay_endpoint: endpoint,
                token_provider,
                interrupt_after_chunks,
                relay_quic_peer_addr: environment.quic_addr,
                relay_quic_server_name: environment.quic_server_name,
                relay_quic_ca_cert: environment.quic_ca_cert,
                relay_owner_home_node_id: environment.owner_home_node_id,
                relay_owner_principal_id: environment.owner_principal_id,
                relay_audience_node_id: environment.audience_node_id,
            },
        ),
    )
}

/// Where the relay is reached over QUIC: nowhere if nothing is configured, an error if the
/// configuration is there only in part.
pub fn relay_quic_config(options: &RelayTransferOptions) -> (r: Result<
    Option<RelayQuicEndpoint>,
    SdkError,
>)
    ensures
        match (
            options.relay_quic_peer_addr,
            options.relay_quic_server_name,
            options.relay_quic_ca_cert,
        ) {
            (Some(peer_addr), Some(server_name), Some(ca_cert)) => r == Ok::<
                Option<RelayQuicEndpoint>,
                SdkError,
            >(Some(RelayQuicEndpoint { peer_addr, server_name, ca_cert })),
            (None, None, None) => r == Ok::<Option<RelayQuicEndpoint>, SdkError>(None),
            _ => is_local_bus(r, "relay QUIC configuration is incomplete"@),
        },
{
    match (
        &options.relay_quic_peer_addr,
        &options.relay_quic_server_name,
        &options.relay_quic_ca_cert,
    ) {
        (Some(peer_addr), Some(server_name), Some(ca_cert)) => Ok(
            Some(
                RelayQuicEndpoint {
                    peer_addr: peer_addr.clone(),
                    server_name: server_name.clone(),
                    ca_cert: ca_cert.clone(),
                },
            ),
        ),
        (None, None, None) => Ok(None),
        _ => Err(local_bus("relay QUIC configuration is incomplete")),
    }
}

/// Where the relay is reached over QUIC, where it has to be.
pub fn needed_quic_config(options: &RelayTransferOptions) -> (r: Result<RelayQuicEndpoint, SdkError>)
    ensures
        match (
            options.relay_quic_peer_addr,
            options.relay_quic_server_name,
            options.relay_quic_ca_cert,
        ) {
            (Some(peer_addr), Some(server_name), Some(ca_cert)) => r == Ok::<
                RelayQuicEndpoint,
                SdkError,
            >(RelayQuicEndpoint { peer_addr, server_name, ca_cert }),
            (None, None, None) => is_local_bus(r, "relay QUIC configuration is missing"@),
            _ => is_local_bus(r, "relay QUIC configuration is incomplete"@),
        },
{
    match relay_quic_config(options) {
        Ok(Some(endpoint)) => Ok(endpoint),
        Ok(None) => Err(local_bus("relay QUIC configuration is missing")),
        Err(error) => Err(error),
    }
}

/// Options that were read never fail for a configuration that is there only in part.
pub proof fn law_parsed_options_have_whole_quic_config(
    environment: RelayEnvironment,
    options: RelayTransferOptions,
)
    requires
        quic_settings_agree(
            environment.quic_addr,
            environment.quic_server_name,
            environment.quic_ca_cert,
        ),
        options.relay_quic_peer_addr == environment.quic_addr,
        options.relay_quic_server_name == environment.quic_server_name,
        options.relay_quic_ca_cert == environment.quic_ca_cert,
    ensures
        ({
            let all = options.relay_quic_peer_addr is Some && options.relay_quic_server_name is Some
                && options.relay_quic_ca_cert is Some;
            let none = options.relay_quic_peer_addr is None && options.relay_quic_server_name is None
                && options.relay_quic_ca_cert is None;
            all || none
        }),
{
}

/// The version of a token that names none.
pub fn sdk_relay_token_default_version() -> (r: u32)
    ensures
        r == 1,
{
    1
}

/// The lineage that an outgoing attachment carries: the caller's, even if it is empty; only where
/// the caller gives none, the one that the upload used.
pub fn effective_attachment_lineage(explicit: Option<String>, effective: Option<String>) -> (r:
    Option<String>)
    ensures
        r == (if explicit is Some {
            explicit
        } else {
            effective
        }),
{
    match explicit {
        Some(lineage) => Some(lineage),
        None => effective,
    }
}

// ---- what is hashed for a relay ----

/// What the hash that a relay knows a device by is made of.
pub fn recipient_device_hash_input(device_id: &str) -> (r: HashInput)
    ensures
        hashes(
            r,
            "ramflux.object_relay.recipient_device.v1"@,
            vstd::utf8::encode_utf8(device_id@),
        ),
{
    HashInput {
        domain: "ramflux.object_relay.recipient_device.v1".to_owned(),
        bytes: device_id.as_bytes_vec(),
    }
}

/// What the hash that binds a token to a grant is made of. `canonical` is the canonical form of the
/// signed grant.
pub fn grant_binding_input(canonical: Vec<u8>) -> (r: HashInput)
    ensures
        hashes(r, "ramflux.object_access_grant.binding.v3"@, canonical@),
{
    HashInput {
        domain: "ramflux.object_access_grant.binding.v3".to_owned(),
        bytes: canonical,
    }
}

/// What the hash that binds a token to an owner's proof is made of. `canonical` is the canonical form
/// of the signed proof.
pub fn owner_proof_binding_input(canonical: Vec<u8>) -> (r: HashInput)
    ensures
        hashes(r, "ramflux.owner_authorization_proof.binding.v3"@, canonical@),
{
    HashInput {
        domain: "ramflux.owner_authorization_proof.binding.v3".to_owned(),
        bytes: canonical,
    }
}

/// How an upload went, by its record once it is complete.
pub fn upload_status(record: Option<ObjectTransferRecord>) -> (r: Result<
    SdkObjectTransferStatus,
    SdkError,
>)
    ensures
        match record {
            Some(record) => r matches Ok(status) && shows_transfer(status, record),
            None => is_local_bus(r, "missing object transfer state"@),
        },
{
    match record {
        Some(record) => Ok(object_transfer_status(record)),
        None => Err(local_bus("missing object transfer state")),
    }
}

} // verus!
