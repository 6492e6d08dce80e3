//! What is asked of a relay for one chunk or one object, and what is made of its answers.
use crate::chunks::capped;
use crate::error::{
    denied, is_denied, is_local_bus, local_bus, SdkError, SyncError, TransportError,
};
use crate::gateway::protocol::SdkRelayTokenV3IssueBody;
use crate::object::{
    object_relay_chunk_id, relay_chunk_id, relay_quic_config, DeviceBranch, EncryptedObject,
    ObjectAccessGrant, ObjectRelayCapability, OwnerAuthorizationProof, RelayTokenProvider,
    RelayTransferOptions, RelayV3Protocol, RequesterProofOfPossession, SignatureOutcome,
};
use crate::gateway::protocol::RelayTokenV3;
use crate::object_grants::{
    build_v3_grant_token_issue_body, build_v3_owner_session_token_issue_body,
    is_grant_token_answer, is_owner_session_answer, object_access_grant_to_sign,
    owner_authorization_proof_to_sign, requester_pop_to_sign,
};
use crate::text::{decimal, decimal_u64, str_eq};
use vstd::prelude::*;

verus! {

/// A time of the clock in seconds, where none is before the epoch.
pub fn unix_seconds(now: i64) -> (r: u64)
    ensures
        r == (if now < 0 {
            0
        } else {
            now as int
        }),
{
    if now < 0 {
        0
    } else {
        now as u64
    }
}

// ---- one exchange with a relay ----

/// A request to a relay; the body is JSON text.
#[derive(Clone, Debug, PartialEq, Eq)]
pub struct GatewayQuicRequest {
    pub method: String,
    pub path: String,
    pub body: String,
}

/// A relay's whole answer; the body is JSON text.
#[derive(Clone, Debug, PartialEq, Eq)]
pub struct GatewayQuicResponse {
    pub status: u16,
    pub body: String,
}

/// Why there is no whole answer. Each failure but the lack of room comes in the words of the
/// transport.
#[derive(Clone, Debug, PartialEq, Eq)]
pub enum RelayQuicRequestError {
    /// The relay has no room for another request.
    Backpressure { capacity: usize, in_flight: usize },
    /// The connection was lost.
    ConnectionLost(String),
    /// No answer came in time.
    RequestTimeout(String),
    /// No connection came about.
    Handshake(String),
    /// The peer is not the relay.
    PeerAuth(String),
    /// The answer was whole, and not one of the protocol.
    Protocol(String),
    /// The relay's address or certificate is not usable.
    Config(String),
}

impl RelayQuicRequestError {
    /// Whether a new connection may serve: the old one is gone, and no whole answer came over it.
    pub open spec fn retryable(self) -> bool {
        self is ConnectionLost || self is RequestTimeout
    }

    /// Whether a new connection may serve.
    pub fn is_reconnect_retryable(&self) -> (r: bool)
        ensures
            r == self.retryable(),
    {
        match self {
            RelayQuicRequestError::ConnectionLost(_) => true,
            RelayQuicRequestError::RequestTimeout(_) => true,
            _ => false,
        }
    }
}

/// A request that is sent at most twice.
#[derive(Clone, Debug, PartialEq, Eq)]
pub struct RelayExchange {
    pub request: GatewayQuicRequest,
    pub attempts: u32,
}

/// What follows an attempt.
#[derive(Clone, Debug, PartialEq, Eq)]
pub enum ExchangeStep {
    /// The relay has answered.
    Answered(GatewayQuicResponse),
    /// The same request is to be sent once more.
    SendAgain,
    /// The exchange has failed.
    Failed(SdkError),
}

/// What a failure of the transport is to the library.
pub open spec fn relay_failure(error: RelayQuicRequestError) -> SdkError {
    match error {
        RelayQuicRequestError::Backpressure { capacity, in_flight } => SdkError::Transport(
            TransportError::BackpressureRejected { capacity, in_flight },
        ),
        RelayQuicRequestError::ConnectionLost(words)
        | RelayQuicRequestError::RequestTimeout(words)
        | RelayQuicRequestError::Handshake(words)
        | RelayQuicRequestError::PeerAuth(words)
        | RelayQuicRequestError::Protocol(words)
        | RelayQuicRequestError::Config(words) => SdkError::Transport(TransportError::Quic(words)),
    }
}

/// What a failure of the transport is to the library: a lack of room stays one.
pub fn relay_pool_error_to_sdk(error: RelayQuicRequestError) -> (r: SdkError)
    ensures
        r == relay_failure(error),
{
    match error {
        RelayQuicRequestError::Backpressure { capacity, in_flight } => SdkError::Transport(
            TransportError::BackpressureRejected { capacity, in_flight },
        ),
        RelayQuicRequestError::ConnectionLost(words)
        | RelayQuicRequestError::RequestTimeout(words)
        | RelayQuicRequestError::Handshake(words)
        | RelayQuicRequestError::PeerAuth(words)
        | RelayQuicRequestError::Protocol(words)
        | RelayQuicRequestError::Config(words) => SdkError::Transport(TransportError::Quic(words)),
    }
}

/// What follows an attempt that came to `outcome`, when so many were made.
pub open spec fn exchange_step(
    attempts: u32,
    outcome: Result<GatewayQuicResponse, RelayQuicRequestError>,
) -> ExchangeStep {
    match outcome {
        Ok(response) => ExchangeStep::Answered(response),
        Err(error) => if error.retryable() && attempts == 1 {
            ExchangeStep::SendAgain
        } else {
            ExchangeStep::Failed(relay_failure(error))
        },
    }
}

impl RelayExchange {
    /// A request to a relay, sent for the first time.
    pub fn post(path: &str, body: String) -> (r: RelayExchange)
        ensures
            r.request.method@ == "POST"@,
            r.request.path@ == path@,
            r.request.body == body,
            r.attempts == 1,
    {
        RelayExchange {
            request: GatewayQuicRequest { method: "POST".to_owned(), path: path.to_owned(), body },
            attempts: 1,
        }
    }

    /// Takes what came of the latest attempt. Any whole answer ends the exchange; the request is
    /// sent once more, just as it was, only if the first attempt lost its connection.
    pub fn outcome(&mut self, outcome: Result<GatewayQuicResponse, RelayQuicRequestError>) -> (r:
        ExchangeStep)
        requires
            1 <= old(self).attempts <= 2,
        ensures
            r == exchange_step(old(self).attempts, outcome),
            final(self).request == old(self).request,
            final(self).attempts == old(self).attempts + if r is SendAgain {
                1int
            } else {
                0
            },
    {
        match outcome {
            Ok(response) => ExchangeStep::Answered(response),
            Err(error) => {
                if error.is_reconnect_retryable() && self.attempts == 1 {
                    self.attempts = 2;
                    ExchangeStep::SendAgain
                } else {
                    ExchangeStep::Failed(relay_pool_error_to_sdk(error))
                }
            },
        }
    }
}

/// No request is sent a third time, whatever the first two attempts came to: the second attempt
/// ends the exchange, with its answer or with its own failure.
pub proof fn law_at_most_two_attempts(
    first: Result<GatewayQuicResponse, RelayQuicRequestError>,
    second: Result<GatewayQuicResponse, RelayQuicRequestError>,
)
    requires
        exchange_step(1, first) is SendAgain,
    ensures
        match second {
            Ok(response) => exchange_step(2, second) == ExchangeStep::Answered(response),
            Err(error) => exchange_step(2, second) == ExchangeStep::Failed(relay_failure(error)),
        },
{
}

/// A whole answer is never asked for again, whatever its status is.
pub proof fn law_whole_answer_ends_exchange(attempts: u32, response: GatewayQuicResponse)
    ensures
        exchange_step(attempts, Ok(response)) == ExchangeStep::Answered(response),
{
}

/// A lack of room at the relay is never taken for a denial, and never asked for again.
pub proof fn law_lack_of_room_stays_one(attempts: u32, capacity: usize, in_flight: usize)
    ensures
        exchange_step(attempts, Err(RelayQuicRequestError::Backpressure { capacity, in_flight }))
            == ExchangeStep::Failed(
            SdkError::Transport(TransportError::BackpressureRejected { capacity, in_flight }),
        ),
{
}

/// The body of an answer that grants the request; any other answer is a denial.
pub fn relay_quic_success_body(response: GatewayQuicResponse) -> (r: Result<String, SdkError>)
    ensures
        if response.status == 200 {
            r == Ok::<String, SdkError>(response.body)
        } else {
            is_denied(
                r,
                "relay v3 request rejected with HTTP status "@ + decimal(response.status as nat)
                    + ": "@ + response.body@,
            )
        },
{
    if response.status != 200 {
        let status = decimal_u64(response.status as u64);
        let words = "relay v3 request rejected with HTTP status ".to_owned().concat(
            status.as_str(),
        ).concat(": ").concat(response.body.as_str());
        return Err(SdkError::CapabilityDenied(words));
    }
    Ok(response.body)
}

// ---- the owner ----

/// Whose node, principal and relay a token names.
#[derive(Clone, Debug, PartialEq, Eq)]
pub struct OwnerLineage {
    pub home_node_id: String,
    pub principal_id: String,
    pub audience_node_id: String,
}

/// Whether `r` is the lineage that the options give, or the complaint about the first part that
/// they leave out.
pub open spec fn is_lineage_of(
    r: Result<OwnerLineage, SdkError>,
    options: RelayTransferOptions,
    operation: Seq<char>,
) -> bool {
    match (
        options.relay_owner_home_node_id,
        options.relay_owner_principal_id,
        options.relay_audience_node_id,
    ) {
        (None, _, _) => is_denied(
            r,
            "v3 "@ + operation + " requires RAMFLUX_SDK_RELAY_OWNER_HOME_NODE_ID"@,
        ),
        (_, None, _) => is_denied(
            r,
            "v3 "@ + operation + " requires RAMFLUX_SDK_RELAY_OWNER_PRINCIPAL_ID"@,
        ),
        (_, _, None) => is_denied(
            r,
            "v3 "@ + operation + " requires RAMFLUX_SDK_RELAY_AUDIENCE_NODE_ID"@,
        ),
        (Some(home_node_id), Some(principal_id), Some(audience_node_id)) => r == Ok::<
            OwnerLineage,
            SdkError,
        >(OwnerLineage { home_node_id, principal_id, audience_node_id }),
    }
}

/// The lineage that the options give for an operation; each part is needed.
pub fn owner_lineage(options: &RelayTransferOptions, operation: &str) -> (r: Result<
    OwnerLineage,
    SdkError,
>)
    ensures
        is_lineage_of(r, *options, operation@),
{
    let home_node_id = match &options.relay_owner_home_node_id {
        Some(id) => id.clone(),
        None => {
            return Err(
                SdkError::CapabilityDenied(
                    "v3 ".to_owned().concat(operation).concat(
                        " requires RAMFLUX_SDK_RELAY_OWNER_HOME_NODE_ID",
                    ),
                ),
            );
        },
    };
    let principal_id = match &options.relay_owner_principal_id {
        Some(id) => id.clone(),
        None => {
            return Err(
                SdkError::CapabilityDenied(
                    "v3 ".to_owned().concat(operation).concat(
                        " requires RAMFLUX_SDK_RELAY_OWNER_PRINCIPAL_ID",
                    ),
                ),
            );
        },
    };
    let audience_node_id = match &options.relay_audience_node_id {
        Some(id) => id.clone(),
        None => {
            return Err(
                SdkError::CapabilityDenied(
                    "v3 ".to_owned().concat(operation).concat(
                        " requires RAMFLUX_SDK_RELAY_AUDIENCE_NODE_ID",
                    ),
                ),
            );
        },
    };
    Ok(OwnerLineage { home_node_id, principal_id, audience_node_id })
}

// ---- the names of a request ----

/// Who asks.
#[derive(Clone, Copy, Debug, PartialEq, Eq, Structural)]
pub enum Requester {
    Owner,
    Grantee,
}

/// What is asked of one chunk.
#[derive(Clone, Copy, Debug, PartialEq, Eq, Structural)]
pub enum ChunkOperation {
    Put,
    Get,
    Ack,
}

impl ChunkOperation {
    /// The capability that the operation needs.
    pub open spec fn needs(self) -> ObjectRelayCapability {
        match self {
            ChunkOperation::Put => ObjectRelayCapability::Put,
            ChunkOperation::Get => ObjectRelayCapability::Get,
            ChunkOperation::Ack => ObjectRelayCapability::Ack,
        }
    }

    /// The name of the operation in nonces and request bodies.
    pub open spec fn word(self) -> Seq<char> {
        match self {
            ChunkOperation::Put => "put"@,
            ChunkOperation::Get => "get"@,
            ChunkOperation::Ack => "ack"@,
        }
    }

    /// The place on the relay.
    pub open spec fn place(self) -> Seq<char> {
        match self {
            ChunkOperation::Put => "/relay/v1/object/put_chunk"@,
            ChunkOperation::Get => "/relay/v1/object/get_chunk"@,
            ChunkOperation::Ack => "/relay/v1/object/ack"@,
        }
    }

    /// Under which domain the descriptor of the operation is hashed. A stored chunk is bound by its
    /// own hash, and has no descriptor.
    pub open spec fn descriptor_domain(self) -> Option<Seq<char>> {
        match self {
            ChunkOperation::Put => None,
            ChunkOperation::Get => Some("ramflux.object_relay.v3.get.body"@),
            ChunkOperation::Ack => Some("ramflux.object_relay.v3.ack.body"@),
        }
    }

    /// The capability that the operation needs.
    pub fn capability(self) -> (r: ObjectRelayCapability)
        ensures
            r == self.needs(),
    {
        match self {
            ChunkOperation::Put => ObjectRelayCapability::Put,
            ChunkOperation::Get => ObjectRelayCapability::Get,
            ChunkOperation::Ack => ObjectRelayCapability::Ack,
        }
    }

    /// The name of the operation in nonces and request bodies.
    pub fn name(self) -> (r: &'static str)
        ensures
            r@ == self.word(),
    {
        match self {
            ChunkOperation::Put => "put",
            ChunkOperation::Get => "get",
            ChunkOperation::Ack => "ack",
        }
    }

    /// The place on the relay.
    pub fn path(self) -> (r: &'static str)
        ensures
            r@ == self.place(),
    {
        match self {
            ChunkOperation::Put => "/relay/v1/object/put_chunk",
            ChunkOperation::Get => "/relay/v1/object/get_chunk",
            ChunkOperation::Ack => "/relay/v1/object/ack",
        }
    }
}

/// The names and times of a request for one chunk.
#[derive(Clone, Debug, PartialEq, Eq)]
pub struct ChunkRequest {
    pub chunk_id: String,
    pub nonce: String,
    pub pop_nonce: String,
    pub path: String,
    /// Under which domain the request's descriptor is hashed; a stored chunk has none.
    pub body_hash_domain: Option<String>,
    pub issued_at: u64,
    pub expires_at: u64,
}

/// Whether `r` has the names and times of a request for one chunk. A grantee's request runs out
/// after 120 seconds, an owner's with the transfer.
pub open spec fn is_chunk_request(
    r: ChunkRequest,
    requester: Requester,
    operation: ChunkOperation,
    object_id: Seq<char>,
    manifest_hash: Seq<char>,
    chunk_index: u32,
    issued_at: u64,
    transfer_expires_at: u64,
) -> bool {
    let tail = decimal(issued_at as nat) + "-"@ + decimal(chunk_index as nat);
    &&& r.chunk_id@ == relay_chunk_id(object_id, manifest_hash, chunk_index as nat)
    &&& r.nonce@ == "sdk-"@ + operation.word() + "-"@ + tail
    &&& r.pop_nonce@ == (if requester is Grantee && operation is Ack {
        "sdk-pop-ack-"@
    } else {
        "sdk-pop-"@
    }) + tail
    &&& r.path@ == operation.place()
    &&& match operation.descriptor_domain() {
        Some(domain) => r.body_hash_domain is Some && r.body_hash_domain->0@ == domain,
        None => r.body_hash_domain is None,
    }
    &&& r.issued_at == issued_at
    &&& r.expires_at == (match requester {
        Requester::Owner => transfer_expires_at,
        Requester::Grantee => capped((issued_at + 120) as nat),
    })
}

/// The names and times of a request for one chunk.
pub fn chunk_request(
    requester: Requester,
    operation: ChunkOperation,
    object_id: &str,
    manifest_hash: &str,
    chunk_index: u32,
    issued_at: u64,
    transfer_expires_at: u64,
) -> (r: ChunkRequest)
    ensures
        is_chunk_request(
            r,
            requester,
            operation,
            object_id@,
            manifest_hash@,
            chunk_index,
            issued_at,
            transfer_expires_at,
        ),
{
    let issued = decimal_u64(issued_at);
    let index = decimal_u64(chunk_index as u64);
    let tail = issued.concat("-").concat(index.as_str());
    let word = operation.name();
    let pop_prefix = match (requester, operation) {
        (Requester::Grantee, ChunkOperation::Ack) => "sdk-pop-ack-",
        _ => "sdk-pop-",
    };
    let expires_at: u64 = match requester {
        Requester::Owner => transfer_expires_at,
        Requester::Grantee => issued_at.saturating_add(120),
    };
    ChunkRequest {
        chunk_id: object_relay_chunk_id(object_id, manifest_hash, chunk_index),
        nonce: "sdk-".to_owned().concat(word).concat("-").concat(tail.as_str()),
        pop_nonce: pop_prefix.to_owned().concat(tail.as_str()),
        path: operation.path().to_owned(),
        body_hash_domain: match operation {
            ChunkOperation::Put => None,
            ChunkOperation::Get => Some("ramflux.object_relay.v3.get.body".to_owned()),
            ChunkOperation::Ack => Some("ramflux.object_relay.v3.ack.body".to_owned()),
        },
        issued_at,
        expires_at,
    }
}

/// Two requests of one operation for two chunks have different nonces.
pub proof fn law_chunk_nonces_differ(word: Seq<char>, issued_at: nat, a: nat, b: nat)
    requires
        a != b,
    ensures
        "sdk-"@ + word + "-"@ + (decimal(issued_at) + "-"@ + decimal(a)) != "sdk-"@ + word + "-"@
            + (decimal(issued_at) + "-"@ + decimal(b)),
{
    let x = "sdk-"@ + word + "-"@ + (decimal(issued_at) + "-"@ + decimal(a));
    let y = "sdk-"@ + word + "-"@ + (decimal(issued_at) + "-"@ + decimal(b));
    if x == y {
        let before = "sdk-"@ + word + "-"@ + (decimal(issued_at) + "-"@);
        assert(x =~= before + decimal(a) + Seq::<char>::empty());
        assert(y =~= before + decimal(b) + Seq::<char>::empty());
        crate::text::law_part_is_bound(before, decimal(a), decimal(b), Seq::empty());
        crate::text::law_decimal_injective(a, b);
    }
}

/// What is hashed of a request to get or acknowledge a chunk: its members, each a text, as canonical
/// JSON under `domain`.
#[derive(Clone, Debug, PartialEq, Eq)]
pub struct ChunkDescriptor {
    pub domain: String,
    pub capability: String,
    pub chunk_id: String,
    pub manifest_hash: String,
    pub object_id: String,
}

/// What is hashed of a request for one chunk. Of a request to store one nothing is: the chunk's own
/// hash stands for it.
pub fn chunk_descriptor(
    operation: ChunkOperation,
    request: &ChunkRequest,
    object_id: &str,
    manifest_hash: &str,
) -> (r: Option<ChunkDescriptor>)
    ensures
        match operation.descriptor_domain() {
            None => r is None,
            Some(domain) => r matches Some(d) && {
                &&& d.domain@ == domain
                &&& d.capability@ == operation.word()
                &&& d.chunk_id == request.chunk_id
                &&& d.manifest_hash@ == manifest_hash@
                &&& d.object_id@ == object_id@
            },
        },
{
    let domain = match operation {
        ChunkOperation::Put => {
            return None;
        },
        ChunkOperation::Get => "ramflux.object_relay.v3.get.body",
        ChunkOperation::Ack => "ramflux.object_relay.v3.ack.body",
    };
    Some(
        ChunkDescriptor {
            domain: domain.to_owned(),
            capability: operation.name().to_owned(),
            chunk_id: request.chunk_id.clone(),
            manifest_hash: manifest_hash.to_owned(),
            object_id: object_id.to_owned(),
        },
    )
}

/// What binds a request for one chunk to its body.
#[derive(Clone, Debug, PartialEq, Eq)]
pub enum ChunkBinding {
    /// A chunk is stored: its own hash.
    Put { chunk_cipher_hash: String },
    /// A chunk is got: the hash of the descriptor.
    Get { descriptor_hash: String },
    /// A chunk is acknowledged: the hash of the descriptor.
    Ack { descriptor_hash: String },
}

impl ChunkBinding {
    /// What is asked of the chunk.
    pub open spec fn asks(self) -> ChunkOperation {
        match self {
            ChunkBinding::Put { chunk_cipher_hash } => ChunkOperation::Put,
            ChunkBinding::Get { descriptor_hash } => ChunkOperation::Get,
            ChunkBinding::Ack { descriptor_hash } => ChunkOperation::Ack,
        }
    }

    /// The hash that stands for the body.
    pub open spec fn hash(self) -> Seq<char> {
        match self {
            ChunkBinding::Put { chunk_cipher_hash } => chunk_cipher_hash@,
            ChunkBinding::Get { descriptor_hash } => descriptor_hash@,
            ChunkBinding::Ack { descriptor_hash } => descriptor_hash@,
        }
    }

    /// What is asked of the chunk.
    pub fn operation(&self) -> (r: ChunkOperation)
        ensures
            r == self.asks(),
    {
        match self {
            ChunkBinding::Put { chunk_cipher_hash } => ChunkOperation::Put,
            ChunkBinding::Get { descriptor_hash } => ChunkOperation::Get,
            ChunkBinding::Ack { descriptor_hash } => ChunkOperation::Ack,
        }
    }

    /// The hash that stands for the body.
    pub fn body_hash(&self) -> (r: String)
        ensures
            r@ == self.hash(),
    {
        match self {
            ChunkBinding::Put { chunk_cipher_hash } => chunk_cipher_hash.clone(),
            ChunkBinding::Get { descriptor_hash } => descriptor_hash.clone(),
            ChunkBinding::Ack { descriptor_hash } => descriptor_hash.clone(),
        }
    }
}

/// The proof of possession that goes with a token for one chunk, before it is signed. It is bound to
/// the body by the chunk's own hash where a chunk is stored, and else by that of the descriptor.
pub fn chunk_pop_to_sign(
    protocol: &RelayV3Protocol,
    branch: &DeviceBranch,
    token: &RelayTokenV3,
    request: &ChunkRequest,
    binding: &ChunkBinding,
) -> (r: RequesterProofOfPossession)
    ensures
        r.schema == protocol.requester_pop_schema,
        r.version == protocol.proof_version,
        r.token_id == token.token_id,
        r.capability == binding.asks().needs(),
        r.object_id == token.object_id,
        r.manifest_hash == token.manifest_hash,
        r.chunk_id == token.chunk_id,
        r.request_nonce == request.pop_nonce,
        r.body_hash@ == binding.hash(),
        r.issued_at == request.issued_at,
        r.expires_at == request.expires_at,
        r.signer_device_id == branch.device_id,
        r.signer_public_key == branch.public_key,
        r.signature@ == Seq::<char>::empty(),
{
    requester_pop_to_sign(
        protocol,
        branch,
        token.token_id.clone(),
        binding.operation().capability(),
        token.object_id.clone(),
        token.manifest_hash.clone(),
        token.chunk_id.clone(),
        request.pop_nonce.clone(),
        binding.body_hash(),
        request.issued_at,
        request.expires_at,
    )
}

// ---- getting and acknowledging as the owner ----

/// Whether an owner's operation may start: tokens come from the gateway, and the options give the
/// whole lineage. An owner's store of a chunk asks only for the lineage.
pub fn owner_chunk_lineage(options: &RelayTransferOptions, operation: ChunkOperation) -> (r: Result<
    OwnerLineage,
    SdkError,
>)
    ensures
        if operation is Get && options.token_provider is LocalMint {
            is_denied(r, "v3 relay GET requires gateway-issued token material"@)
        } else if operation is Ack && options.token_provider is LocalMint {
            is_denied(r, "v3 relay ACK requires gateway-issued token material"@)
        } else {
            is_lineage_of(
                r,
                *options,
                match operation {
                    ChunkOperation::Put => "owner PUT"@,
                    ChunkOperation::Get => "owner GET"@,
                    ChunkOperation::Ack => "owner ACK"@,
                },
            )
        },
{
    let mints_locally = match &options.token_provider {
        RelayTokenProvider::LocalMint { relay_service_key } => true,
        RelayTokenProvider::GatewayIssued => false,
    };
    match operation {
        ChunkOperation::Put => owner_lineage(options, "owner PUT"),
        ChunkOperation::Get => {
            if mints_locally {
                return Err(denied("v3 relay GET requires gateway-issued token material"));
            }
            owner_lineage(options, "owner GET")
        },
        ChunkOperation::Ack => {
            if mints_locally {
                return Err(denied("v3 relay ACK requires gateway-issued token material"));
            }
            owner_lineage(options, "owner ACK")
        },
    }
}

/// The grant that an owner gives itself for one operation, before it is signed.
pub fn own_grant_to_sign(
    protocol: &RelayV3Protocol,
    branch: &DeviceBranch,
    object: &EncryptedObject,
    capability: ObjectRelayCapability,
    issued_at: u64,
    expires_at: u64,
) -> (r: ObjectAccessGrant)
    ensures
        r.schema == protocol.object_access_grant_schema,
        r.version == protocol.proof_version,
        r.object_id == object.object_id,
        r.manifest_hash == object.manifest_hash,
        r.grantee_device_hash == branch.device_hash,
        r.capabilities@ == seq![capability],
        r.issued_at == issued_at,
        r.expires_at == expires_at,
        r.owner_signing_key_id == branch.device_id,
        r.owner_public_key == branch.public_key,
        r.owner_signature@ == Seq::<char>::empty(),
{
    let mut capabilities: Vec<ObjectRelayCapability> = Vec::new();
    capabilities.push(capability);
    assert(capabilities@ =~= seq![capability]);
    object_access_grant_to_sign(
        protocol,
        branch,
        object.object_id.clone(),
        object.manifest_hash.clone(),
        branch.device_hash.clone(),
        capabilities,
        issued_at,
        expires_at,
    )
}

/// The request for the token with which an owner gets or acknowledges a chunk of its own object.
pub fn owner_chunk_token_request(
    protocol: &RelayV3Protocol,
    grant: &ObjectAccessGrant,
    branch: &DeviceBranch,
    object: &EncryptedObject,
    operation: ChunkOperation,
    request: &ChunkRequest,
    lineage: &OwnerLineage,
    signature: &SignatureOutcome,
    binding_hash: &str,
) -> (r: Result<SdkRelayTokenV3IssueBody, SdkError>)
    ensures
        is_grant_token_answer(
            r,
            *protocol,
            *grant,
            *branch,
            object.object_id@,
            object.manifest_hash@,
            request.chunk_id@,
            operation.needs(),
            lineage.home_node_id@,
            lineage.principal_id@,
            branch.device_epoch,
            lineage.audience_node_id@,
            request.issued_at,
            request.expires_at,
            request.nonce@,
            *signature,
            binding_hash@,
        ),
{
    build_v3_grant_token_issue_body(
        protocol,
        grant,
        branch,
        object.object_id.as_str(),
        object.manifest_hash.as_str(),
        request.chunk_id.as_str(),
        operation.capability(),
        lineage.home_node_id.as_str(),
        lineage.principal_id.as_str(),
        branch.device_epoch,
        lineage.audience_node_id.as_str(),
        request.issued_at,
        request.expires_at,
        request.nonce.as_str(),
        signature,
        binding_hash,
    )
}

// ---- storing ----

/// The proof with which an owner stores a chunk, before it is signed.
pub fn put_proof_to_sign(
    protocol: &RelayV3Protocol,
    branch: &DeviceBranch,
    object: &EncryptedObject,
    request: &ChunkRequest,
    lineage: &OwnerLineage,
    chunk_cipher_hash: &str,
) -> (r: OwnerAuthorizationProof)
    ensures
        r.schema == protocol.owner_authorization_proof_schema,
        r.version == protocol.proof_version,
        r.capability is Put,
        r.object_id == object.object_id,
        r.manifest_hash == Some(object.manifest_hash),
        r.chunk_id == Some(request.chunk_id),
        r.owner_home_node_id == lineage.home_node_id,
        r.owner_principal_id == lineage.principal_id,
        r.owner_device_epoch == branch.device_epoch,
        r.request_nonce == request.nonce,
        r.body_hash@ == chunk_cipher_hash@,
        r.issued_at == request.issued_at,
        r.expires_at == request.expires_at,
        r.owner_signing_key_id == branch.device_id,
        r.owner_public_key == branch.public_key,
        r.owner_signature@ == Seq::<char>::empty(),
{
    owner_authorization_proof_to_sign(
        protocol,
        branch,
        ObjectRelayCapability::Put,
        object.object_id.clone(),
        Some(object.manifest_hash.clone()),
        Some(request.chunk_id.clone()),
        lineage.home_node_id.clone(),
        lineage.principal_id.clone(),
        branch.device_epoch,
        request.nonce.clone(),
        chunk_cipher_hash.to_owned(),
        request.issued_at,
        request.expires_at,
    )
}

/// The request for the token with which an owner stores a chunk.
pub fn put_token_request(
    protocol: &RelayV3Protocol,
    branch: &DeviceBranch,
    object: &EncryptedObject,
    request: &ChunkRequest,
    lineage: &OwnerLineage,
    authorization_binding_hash: &str,
) -> (r: Result<SdkRelayTokenV3IssueBody, SdkError>)
    ensures
        is_owner_session_answer(
            r,
            *protocol,
            *branch,
            *object,
            request.chunk_id@,
            ObjectRelayCapability::Put,
            lineage.home_node_id@,
            lineage.audience_node_id@,
            lineage.principal_id@,
            authorization_binding_hash@,
            request.issued_at,
            request.expires_at,
            request.nonce@,
        ),
{
    build_v3_owner_session_token_issue_body(
        protocol,
        branch,
        object,
        request.chunk_id.as_str(),
        ObjectRelayCapability::Put,
        lineage.home_node_id.as_str(),
        lineage.audience_node_id.as_str(),
        lineage.principal_id.as_str(),
        authorization_binding_hash,
        request.issued_at,
        request.expires_at,
        request.nonce.as_str(),
    )
}

// ---- burying ----

/// The first object with an identifier.
pub open spec fn first_with_id(objects: Seq<EncryptedObject>, object_id: Seq<char>) -> Option<int>
    decreases objects.len(),
{
    if objects.len() == 0 {
        None
    } else {
        match first_with_id(objects.drop_last(), object_id) {
            Some(i) => Some(i),
            None => if objects.last().object_id@ == object_id {
                Some(objects.len() - 1)
            } else {
                None
            },
        }
    }
}

/// The first object with an identifier.
pub fn find_object(objects: &Vec<EncryptedObject>, object_id: &str) -> (r: Option<usize>)
    ensures
        match first_with_id(objects@, object_id@) {
            Some(i) => r is Some && r->0 == i,
            None => r is None,
        },
        r is Some ==> r->0 < objects@.len() && objects@[r->0 as int].object_id@ == object_id@,
{
    let mut i: usize = 0;
    while i < objects.len()
        invariant
            i <= objects.len(),
            first_with_id(objects@.take(i as int), object_id@) is None,
        decreases objects.len() - i,
    {
        assert(objects@.take(i + 1).drop_last() =~= objects@.take(i as int));
        assert(objects@.take(i + 1).last() == objects@[i as int]);
        if str_eq(objects[i].object_id.as_str(), object_id) {
            proof {
                lemma_first_with_id_grows(objects@, object_id@, i + 1);
            }
            return Some(i);
        }
        i = i + 1;
    }
    assert(objects@.take(i as int) =~= objects@);
    None
}

proof fn lemma_first_with_id_grows(objects: Seq<EncryptedObject>, object_id: Seq<char>, k: int)
    requires
        0 <= k <= objects.len(),
        first_with_id(objects.take(k), object_id) is Some,
    ensures
        first_with_id(objects, object_id) == first_with_id(objects.take(k), object_id),
    decreases objects.len() - k,
{
    if k == objects.len() {
        assert(objects.take(k) =~= objects);
    } else {
        assert(objects.take(k + 1).drop_last() =~= objects.take(k));
        lemma_first_with_id_grows(objects, object_id, k + 1);
    }
}

/// The names and times of a request to bury an object.
#[derive(Clone, Debug, PartialEq, Eq)]
pub struct TombstoneRequest {
    pub object_id: String,
    pub manifest_hash: String,
    pub lineage: OwnerLineage,
    pub chunk_id: String,
    pub nonce: String,
    pub pop_nonce: String,
    pub source_event_id: String,
    pub path: String,
    pub hash_domain: String,
    pub issued_at: u64,
    pub expires_at: u64,
}

/// Whether burying an object may start, and with which names. It needs tokens from the gateway, a
/// whole QUIC configuration, the object, a device and the whole lineage, in that order.
pub fn tombstone_request(
    options: &RelayTransferOptions,
    objects: &Vec<EncryptedObject>,
    object_id: &str,
    branch: Option<&DeviceBranch>,
    issued_at: u64,
) -> (r: Result<TombstoneRequest, SdkError>)
    ensures
        ({
            let whole = options.relay_quic_peer_addr is Some && options.relay_quic_server_name is Some
                && options.relay_quic_ca_cert is Some;
            let none = options.relay_quic_peer_addr is None && options.relay_quic_server_name is None
                && options.relay_quic_ca_cert is None;
            if options.token_provider is LocalMint || none {
                is_denied(r, "v3 relay tombstone requires gateway-issued QUIC configuration"@)
            } else if !whole {
                is_local_bus(r, "relay QUIC configuration is incomplete"@)
            } else {
                match first_with_id(objects@, object_id@) {
                    None => r == Err::<TombstoneRequest, SdkError>(
                        SdkError::Sync(SyncError::ObjectNotFound),
                    ),
                    Some(i) => if branch is None {
                        is_local_bus(r, "object relay requires a device branch"@)
                    } else {
                        match r {
                            Err(error) => is_lineage_of(
                                Err::<OwnerLineage, SdkError>(error),
                                *options,
                                "tombstone"@,
                            ),
                            Ok(t) => {
                                &&& is_lineage_of(
                                    Ok::<OwnerLineage, SdkError>(t.lineage),
                                    *options,
                                    "tombstone"@,
                                )
                                &&& t.object_id == objects@[i].object_id
                                &&& t.manifest_hash == objects@[i].manifest_hash
                                &&& t.chunk_id@ == "object-relay:"@ + t.object_id@ + ":"@
                                    + t.manifest_hash@ + ":tombstone"@
                                &&& t.nonce@ == "sdk-tombstone-"@ + decimal(issued_at as nat)
                                &&& t.pop_nonce@ == "sdk-pop-"@ + decimal(issued_at as nat)
                                &&& t.source_event_id@ == "object-tombstone:"@ + object_id@ + ":"@
                                    + decimal(issued_at as nat)
                                &&& t.path@ == "/relay/v1/object/tombstone"@
                                &&& t.hash_domain@ == "ramflux.object_relay.tombstone.v3"@
                                &&& t.issued_at == issued_at
                                &&& t.expires_at == capped((issued_at + 120) as nat)
                            },
                        }
                    },
                }
            }
        }),
{
    match &options.token_provider {
        RelayTokenProvider::LocalMint { relay_service_key } => {
            return Err(denied("v3 relay tombstone requires gateway-issued QUIC configuration"));
        },
        RelayTokenProvider::GatewayIssued => {},
    }
    match relay_quic_config(options) {
        Err(error) => {
            return Err(error);
        },
        Ok(None) => {
            return Err(denied("v3 relay tombstone requires gateway-issued QUIC configuration"));
        },
        Ok(Some(endpoint)) => {},
    }
    let at: usize = match find_object(objects, object_id) {
        Some(at) => at,
        None => {
            return Err(SdkError::Sync(SyncError::ObjectNotFound));
        },
    };
    if branch.is_none() {
        return Err(local_bus("object relay requires a device branch"));
    }
    let lineage = match owner_lineage(options, "tombstone") {
        Ok(lineage) => lineage,
        Err(error) => {
            return Err(error);
        },
    };
    let issued = decimal_u64(issued_at);
    let found_id = objects[at].object_id.clone();
    let manifest_hash = objects[at].manifest_hash.clone();
    Ok(
        TombstoneRequest {
            chunk_id: "object-relay:".to_owned().concat(found_id.as_str()).concat(":").concat(
                manifest_hash.as_str(),
            ).concat(":tombstone"),
            object_id: found_id,
            manifest_hash,
            lineage,
            nonce: "sdk-tombstone-".to_owned().concat(issued.as_str()),
            pop_nonce: "sdk-pop-".to_owned().concat(issued.as_str()),
            source_event_id: "object-tombstone:".to_owned().concat(object_id).concat(":").concat(
                issued.as_str(),
            ),
            path: "/relay/v1/object/tombstone".to_owned(),
            hash_domain: "ramflux.object_relay.tombstone.v3".to_owned(),
            issued_at,
            expires_at: issued_at.saturating_add(120),
        },
    )
}

/// What is hashed of a request to bury an object: its members as canonical JSON under `domain`.
#[derive(Clone, Debug, PartialEq, Eq)]
pub struct TombstoneDescriptor {
    pub domain: String,
    pub expires_at: u64,
    pub manifest_hash: String,
    pub object_id: String,
    pub signed_at: u64,
    pub source_event_id: String,
}

impl TombstoneRequest {
    /// What is hashed of the request. The hash stands for the body in the proofs that go with it.
    pub fn descriptor(&self) -> (r: TombstoneDescriptor)
        ensures
            r == (TombstoneDescriptor {
                domain: self.hash_domain,
                expires_at: self.expires_at,
                manifest_hash: self.manifest_hash,
                object_id: self.object_id,
                signed_at: self.issued_at,
                source_event_id: self.source_event_id,
            }),
    {
        TombstoneDescriptor {
            domain: self.hash_domain.clone(),
            expires_at: self.expires_at,
            manifest_hash: self.manifest_hash.clone(),
            object_id: self.object_id.clone(),
            signed_at: self.issued_at,
            source_event_id: self.source_event_id.clone(),
        }
    }

    /// The proof with which the owner buries the object, before it is signed.
    pub fn proof_to_sign(
        &self,
        protocol: &RelayV3Protocol,
        branch: &DeviceBranch,
        tombstone_hash: &str,
    ) -> (r: OwnerAuthorizationProof)
        ensures
            r.schema == protocol.owner_authorization_proof_schema,
            r.version == protocol.proof_version,
            r.capability is Tombstone,
            r.object_id == self.object_id,
            r.manifest_hash == Some(self.manifest_hash),
            r.chunk_id is None,
            r.owner_home_node_id == self.lineage.home_node_id,
            r.owner_principal_id == self.lineage.principal_id,
            r.owner_device_epoch == branch.device_epoch,
            r.request_nonce == self.nonce,
            r.body_hash@ == tombstone_hash@,
            r.issued_at == self.issued_at,
            r.expires_at == self.expires_at,
            r.owner_signing_key_id == branch.device_id,
            r.owner_public_key == branch.public_key,
            r.owner_signature@ == Seq::<char>::empty(),
    {
        owner_authorization_proof_to_sign(
            protocol,
            branch,
            ObjectRelayCapability::Tombstone,
            self.object_id.clone(),
            Some(self.manifest_hash.clone()),
            None,
            self.lineage.home_node_id.clone(),
            self.lineage.principal_id.clone(),
            branch.device_epoch,
            self.nonce.clone(),
            tombstone_hash.to_owned(),
            self.issued_at,
            self.expires_at,
        )
    }

    /// The request for the token with which the owner buries the object.
    pub fn token_request(
        &self,
        protocol: &RelayV3Protocol,
        branch: &DeviceBranch,
        object: &EncryptedObject,
        authorization_binding_hash: &str,
    ) -> (r: Result<SdkRelayTokenV3IssueBody, SdkError>)
        ensures
            is_owner_session_answer(
                r,
                *protocol,
                *branch,
                *object,
                self.chunk_id@,
                ObjectRelayCapability::Tombstone,
                self.lineage.home_node_id@,
                self.lineage.audience_node_id@,
                self.lineage.principal_id@,
                authorization_binding_hash@,
                self.issued_at,
                self.expires_at,
                self.nonce@,
            ),
    {
        build_v3_owner_session_token_issue_body(
            protocol,
            branch,
            object,
            self.chunk_id.as_str(),
            ObjectRelayCapability::Tombstone,
            self.lineage.home_node_id.as_str(),
            self.lineage.audience_node_id.as_str(),
            self.lineage.principal_id.as_str(),
            authorization_binding_hash,
            self.issued_at,
            self.expires_at,
            self.nonce.as_str(),
        )
    }

    /// The proof of possession that goes with the token, before it is signed.
    pub fn pop_to_sign(
        &self,
        protocol: &RelayV3Protocol,
        branch: &DeviceBranch,
        token: &RelayTokenV3,
        tombstone_hash: String,
    ) -> (r: RequesterProofOfPossession)
        ensures
            r.schema == protocol.requester_pop_schema,
            r.version == protocol.proof_version,
            r.token_id == token.token_id,
            r.capability is Tombstone,
            r.object_id == token.object_id,
            r.manifest_hash == token.manifest_hash,
            r.chunk_id == token.chunk_id,
            r.request_nonce == self.pop_nonce,
            r.body_hash == tombstone_hash,
            r.issued_at == self.issued_at,
            r.expires_at == self.expires_at,
            r.signer_device_id == branch.device_id,
            r.signer_public_key == branch.public_key,
            r.signature@ == Seq::<char>::empty(),
    {
        requester_pop_to_sign(
            protocol,
            branch,
            token.token_id.clone(),
            ObjectRelayCapability::Tombstone,
            token.object_id.clone(),
            token.manifest_hash.clone(),
            token.chunk_id.clone(),
            self.pop_nonce.clone(),
            tombstone_hash,
            self.issued_at,
            self.expires_at,
        )
    }
}

} // verus!
