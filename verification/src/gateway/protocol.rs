//! What a client and a gateway say to each other.
use crate::dm::SdkDmFrankingMetadata;
use crate::object::{
    DeviceBranch, GatewayIssuerCertificate, ObjectRelayCapability, RelayAuthorizationKind,
    SdkObjectPermissionEnvelope, SdkObjectRelayCapability, SdkRelayToken,
};
use crate::prekey::{SdkMvp1IdentityRegistrationResponse, SdkMvp1PrekeyResponse};
use vstd::prelude::*;

verus! {

/// How long a signed request stays valid, in seconds.
pub const GATEWAY_SESSION_AUTH_TTL_SECONDS: i64 = 300;

/// Where a gateway is reached over QUIC, and as whom.
#[derive(Clone, Debug, PartialEq, Eq)]
pub struct GatewayQuicEndpointConfig {
    pub bind_addr: String,
    pub gateway_addr: String,
    pub server_name: String,
    pub ca_cert: String,
    pub principal_id: String,
    pub device_id: String,
    pub target_delivery_id: String,
    pub prekey_http_url: Option<String>,
}

/// Where a gateway is reached over TCP and TLS, and as whom.
#[derive(Clone, Debug, PartialEq, Eq)]
pub struct GatewayTcpTlsEndpointConfig {
    pub bind_addr: String,
    pub gateway_addr: String,
    pub server_name: String,
    pub ca_cert: String,
    pub principal_id: String,
    pub device_id: String,
    pub target_delivery_id: String,
    pub prekey_http_url: Option<String>,
}

/// The transport of a session.
#[derive(Clone, Copy, Debug, PartialEq, Eq, Structural)]
pub enum GatewaySessionTransportKind {
    Auto,
    Quic,
    TcpTls,
}

impl GatewaySessionTransportKind {
    /// The name of the transport on the wire.
    pub open spec fn name(self) -> Seq<char> {
        match self {
            GatewaySessionTransportKind::Auto => "auto"@,
            GatewaySessionTransportKind::Quic => "quic_quinn"@,
            GatewaySessionTransportKind::TcpTls => "tcp_tls"@,
        }
    }

    /// The name of the transport on the wire.
    pub fn wire_name(self) -> (r: &'static str)
        ensures
            r@ == self.name(),
    {
        match self {
            GatewaySessionTransportKind::Auto => "auto",
            GatewaySessionTransportKind::Quic => "quic_quinn",
            GatewaySessionTransportKind::TcpTls => "tcp_tls",
        }
    }
}

/// Two transports with one name on the wire are the same.
pub proof fn law_wire_names_differ(a: GatewaySessionTransportKind, b: GatewaySessionTransportKind)
    requires
        a.name() == b.name(),
    ensures
        a == b,
{
    reveal_strlit("auto");
    reveal_strlit("quic_quinn");
    reveal_strlit("tcp_tls");
    assert("auto"@.len() == 4);
    assert("quic_quinn"@.len() == 10);
    assert("tcp_tls"@.len() == 7);
}

/// Everything that a session is opened with. Durations are in milliseconds.
#[derive(Clone, Debug, PartialEq, Eq)]
pub struct GatewaySessionConfig {
    pub transport_kind: GatewaySessionTransportKind,
    pub bind_addr: String,
    pub gateway_addr: String,
    pub tcp_gateway_addr: Option<String>,
    pub server_name: String,
    pub ca_cert: String,
    pub client_instance_id: String,
    pub principal_id: String,
    pub device_id: String,
    pub prekey_http_url: Option<String>,
    pub device_epoch: u64,
    pub branch_proof_hash: String,
    pub device_branch: Option<DeviceBranch>,
    pub target_delivery_id: String,
    pub capability_scope: Vec<String>,
    pub auth_expires_at: i64,
    pub now: i64,
    pub timeout: u64,
    pub quic_fallback_timeout: u64,
    pub previous_session_id: Option<String>,
    pub resume_token: Option<String>,
    pub last_seen_inbox_seq: u64,
    pub pre_auth_cookie: Option<String>,
    pub pre_auth_now: Option<u64>,
    pub source_ip_hash: Option<String>,
    pub max_inflight_downstream: u32,
    pub max_inflight_upstream: u32,
}

struct GatewaySessionConfigParts {
    transport_kind: GatewaySessionTransportKind,
    bind_addr: String,
    gateway_addr: String,
    tcp_gateway_addr: Option<String>,
    server_name: String,
    ca_cert: String,
    principal_id: String,
    device_id: String,
    target_delivery_id: String,
    prekey_http_url: Option<String>,
}

/// The sum of two signed numbers, held at the largest or the smallest where it does not fit.
pub open spec fn saturated_sum(a: int, b: int) -> int {
    if a + b > i64::MAX {
        i64::MAX as int
    } else if a + b < i64::MIN {
        i64::MIN as int
    } else {
        a + b
    }
}

/// Adds two signed numbers, held at the largest or the smallest where the sum does not fit.
pub fn saturating_sum(a: i64, b: i64) -> (r: i64)
    ensures
        r == saturated_sum(a as int, b as int),
{
    let sum: i128 = a as i128 + b as i128;
    if sum > i64::MAX as i128 {
        i64::MAX
    } else if sum < i64::MIN as i128 {
        i64::MIN
    } else {
        sum as i64
    }
}

impl GatewaySessionConfig {
    /// Whether this is what a session starts from on the given endpoint at the given time.
    pub open spec fn is_fresh(
        self,
        transport_kind: GatewaySessionTransportKind,
        bind_addr: String,
        gateway_addr: String,
        tcp_gateway_addr: Option<String>,
        server_name: String,
        ca_cert: String,
        principal_id: String,
        device_id: String,
        target_delivery_id: String,
        prekey_http_url: Option<String>,
        now: i64,
    ) -> bool {
        &&& self.transport_kind == transport_kind
        &&& self.bind_addr == bind_addr
        &&& self.gateway_addr == gateway_addr
        &&& self.tcp_gateway_addr == tcp_gateway_addr
        &&& self.server_name == server_name
        &&& self.ca_cert == ca_cert
        &&& self.client_instance_id@ == "rf_sdk_"@ + device_id@
        &&& self.principal_id == principal_id
        &&& self.device_id == device_id
        &&& self.prekey_http_url == prekey_http_url
        &&& self.device_epoch == 1
        &&& self.branch_proof_hash@ == "sdk_branch_proof_hash"@
        &&& self.device_branch is None
        &&& self.target_delivery_id == target_delivery_id
        &&& self.capability_scope@.len() == 1
        &&& self.capability_scope@[0]@ == "gateway.session"@
        &&& self.now == now
        &&& self.auth_expires_at == saturated_sum(now as int, 300)
        &&& self.timeout == 10_000
        &&& self.quic_fallback_timeout == 1_500
        &&& self.previous_session_id is None
        &&& self.resume_token is None
        &&& self.last_seen_inbox_seq == 0
        &&& self.pre_auth_cookie is None
        &&& self.pre_auth_now is None
        &&& self.source_ip_hash is None
        &&& self.max_inflight_downstream == 64
        &&& self.max_inflight_upstream == 64
    }

    /// The same session with its window started anew at a time.
    pub open spec fn refreshed(self, now: i64) -> GatewaySessionConfig {
        GatewaySessionConfig {
            now,
            auth_expires_at: saturated_sum(now as int, 300) as i64,
            ..self
        }
    }

    /// A session over QUIC.
    pub fn quic(endpoint: GatewayQuicEndpointConfig, now: i64) -> (r: Self)
        ensures
            r.is_fresh(
                GatewaySessionTransportKind::Quic,
                endpoint.bind_addr,
                endpoint.gateway_addr,
                None,
                endpoint.server_name,
                endpoint.ca_cert,
                endpoint.principal_id,
                endpoint.device_id,
                endpoint.target_delivery_id,
                endpoint.prekey_http_url,
                now,
            ),
    {
        Self::from_parts(
            GatewaySessionConfigParts {
                transport_kind: GatewaySessionTransportKind::Quic,
                bind_addr: endpoint.bind_addr,
                gateway_addr: endpoint.gateway_addr,
                tcp_gateway_addr: None,
                server_name: endpoint.server_name,
                ca_cert: endpoint.ca_cert,
                principal_id: endpoint.principal_id,
                device_id: endpoint.device_id,
                target_delivery_id: endpoint.target_delivery_id,
                prekey_http_url: endpoint.prekey_http_url,
            },
            now,
        )
    }

    /// A session over QUIC that falls back to TCP and TLS at the same address.
    pub fn auto(endpoint: GatewayQuicEndpointConfig, now: i64) -> (r: Self)
        ensures
            r.is_fresh(
                GatewaySessionTransportKind::Auto,
                endpoint.bind_addr,
                endpoint.gateway_addr,
                Some(endpoint.gateway_addr),
                endpoint.server_name,
                endpoint.ca_cert,
                endpoint.principal_id,
                endpoint.device_id,
                endpoint.target_delivery_id,
                endpoint.prekey_http_url,
                now,
            ),
    {
        let tcp_gateway_addr = endpoint.gateway_addr.clone();
        Self::from_parts(
            GatewaySessionConfigParts {
                transport_kind: GatewaySessionTransportKind::Auto,
                bind_addr: endpoint.bind_addr,
                gateway_addr: endpoint.gateway_addr,
                tcp_gateway_addr: Some(tcp_gateway_addr),
                server_name: endpoint.server_name,
                ca_cert: endpoint.ca_cert,
                principal_id: endpoint.principal_id,
                device_id: endpoint.device_id,
                target_delivery_id: endpoint.target_delivery_id,
                prekey_http_url: endpoint.prekey_http_url,
            },
            now,
        )
    }

    /// A session over TCP and TLS.
    pub fn tcp_tls(endpoint: GatewayTcpTlsEndpointConfig, now: i64) -> (r: Self)
        ensures
            r.is_fresh(
                GatewaySessionTransportKind::TcpTls,
                endpoint.bind_addr,
                endpoint.gateway_addr,
                Some(endpoint.gateway_addr),
                endpoint.server_name,
                endpoint.ca_cert,
                endpoint.principal_id,
                endpoint.device_id,
                endpoint.target_delivery_id,
                endpoint.prekey_http_url,
                now,
            ),
    {
        let tcp_gateway_addr = endpoint.gateway_addr.clone();
        Self::from_parts(
            GatewaySessionConfigParts {
                transport_kind: GatewaySessionTransportKind::TcpTls,
                bind_addr: endpoint.bind_addr,
                gateway_addr: endpoint.gateway_addr,
                tcp_gateway_addr: Some(tcp_gateway_addr),
                server_name: endpoint.server_name,
                ca_cert: endpoint.ca_cert,
                principal_id: endpoint.principal_id,
                device_id: endpoint.device_id,
                target_delivery_id: endpoint.target_delivery_id,
                prekey_http_url: endpoint.prekey_http_url,
            },
            now,
        )
    }

    /// The same session with another address for TCP and TLS.
    pub fn with_tcp_gateway_addr(self, gateway_addr: String) -> (r: Self)
        ensures
            r == (GatewaySessionConfig { tcp_gateway_addr: Some(gateway_addr), ..self }),
    {
        let mut config = self;
        config.tcp_gateway_addr = Some(gateway_addr);
        config
    }

    /// The same session with another wait before the fallback.
    pub fn with_quic_fallback_timeout(self, timeout: u64) -> (r: Self)
        ensures
            r == (GatewaySessionConfig { quic_fallback_timeout: timeout, ..self }),
    {
        let mut config = self;
        config.quic_fallback_timeout = timeout;
        config
    }

    fn from_parts(parts: GatewaySessionConfigParts, now: i64) -> (r: Self)
        ensures
            r.is_fresh(
                parts.transport_kind,
                parts.bind_addr,
                parts.gateway_addr,
                parts.tcp_gateway_addr,
                parts.server_name,
                parts.ca_cert,
                parts.principal_id,
                parts.device_id,
                parts.target_delivery_id,
                parts.prekey_http_url,
                now,
            ),
    {
        let client_instance_id = "rf_sdk_".to_owned().concat(parts.device_id.as_str());
        let mut capability_scope: Vec<String> = Vec::new();
        capability_scope.push("gateway.session".to_owned());
        GatewaySessionConfig {
            transport_kind: parts.transport_kind,
            bind_addr: parts.bind_addr,
            gateway_addr: parts.gateway_addr,
            tcp_gateway_addr: parts.tcp_gateway_addr,
            server_name: parts.server_name,
            ca_cert: parts.ca_cert,
            client_instance_id,
            principal_id: parts.principal_id,
            device_id: parts.device_id,
            prekey_http_url: parts.prekey_http_url,
            device_epoch: 1,
            branch_proof_hash: "sdk_branch_proof_hash".to_owned(),
            device_branch: None,
            target_delivery_id: parts.target_delivery_id,
            capability_scope,
            auth_expires_at: saturating_sum(now, GATEWAY_SESSION_AUTH_TTL_SECONDS),
            now,
            timeout: 10_000,
            quic_fallback_timeout: 1_500,
            previous_session_id: None,
            resume_token: None,
            last_seen_inbox_seq: 0,
            pre_auth_cookie: None,
            pre_auth_now: None,
            source_ip_hash: None,
            max_inflight_downstream: 64,
            max_inflight_upstream: 64,
        }
    }

    /// Starts the window in which a signed request is valid anew.
    pub fn refresh_auth_window(&mut self, now: i64)
        ensures
            *final(self) == old(self).refreshed(now),
    {
        self.now = now;
        self.auth_expires_at = saturating_sum(now, GATEWAY_SESSION_AUTH_TTL_SECONDS);
    }

    /// The same session for the device that a branch stands for.
    pub fn with_device_branch(self, branch: DeviceBranch) -> (r: Self)
        ensures
            r == (GatewaySessionConfig {
                principal_id: branch.principal_id,
                device_id: branch.device_id,
                device_epoch: branch.device_epoch,
                device_branch: Some(branch),
                ..self
            }),
    {
        let mut config = self;
        config.principal_id = branch.principal_id.clone();
        config.device_id = branch.device_id.clone();
        config.device_epoch = branch.device_epoch;
        config.device_branch = Some(branch);
        config
    }

    /// The address for TCP and TLS: its own where there is one, else that of the gateway.
    pub fn tcp_addr(&self) -> (r: &str)
        ensures
            r@ == (match self.tcp_gateway_addr {
                Some(addr) => addr@,
                None => self.gateway_addr@,
            }),
    {
        match &self.tcp_gateway_addr {
            Some(addr) => addr.as_str(),
            None => self.gateway_addr.as_str(),
        }
    }
}

/// The algorithm of a signature.
#[derive(Clone, Copy, Debug, PartialEq, Eq, Structural)]
pub enum SignatureAlg {
    Ed25519,
}

/// Who signed, how, and the signature.
#[derive(Clone, Debug, PartialEq, Eq)]
pub struct SignedFields {
    pub signing_key_id: String,
    pub signature_alg: SignatureAlg,
    pub signature: String,
}

/// The method of a request.
#[derive(Clone, Copy, Debug, PartialEq, Eq, Structural)]
pub enum HttpMethod {
    POST,
    GET,
    PUT,
    DELETE,
}

/// A request that a device has signed.
#[derive(Clone, Debug, PartialEq, Eq)]
pub struct SignedRequest {
    pub schema: String,
    pub version: u32,
    pub domain: String,
    pub signed: SignedFields,
    pub source_device_id: String,
    pub request_id: String,
    pub method: HttpMethod,
    pub path: String,
    pub device_proof_hash: String,
    pub body_hash: String,
    pub nonce: String,
    pub created_at: i64,
    pub expires_at: i64,
}

/// A device's proof of who it is.
#[derive(Clone, Debug, PartialEq, Eq)]
pub struct DeviceProof {
    pub schema: String,
    pub version: u32,
    pub domain: String,
    pub signed: SignedFields,
    pub principal_id: String,
    pub device_id: String,
    pub device_epoch: u64,
    pub branch_proof_hash: String,
    pub capability_scope: Vec<String>,
    pub nonce: String,
    pub expires_at: i64,
}

/// How an envelope is delivered.
#[derive(Clone, Debug, PartialEq, Eq)]
pub enum DeliveryClass {
    OpaqueEvent,
    Other(String),
}

/// How urgent an envelope is.
#[derive(Clone, Debug, PartialEq, Eq)]
pub enum Priority {
    Normal,
    Other(String),
}

/// What travels from one device to another.
#[derive(Clone, Debug, PartialEq, Eq)]
pub struct Envelope {
    pub schema: String,
    pub version: u32,
    pub domain: String,
    pub franking: Option<SdkDmFrankingMetadata>,
    pub signed: SignedFields,
    pub envelope_id: String,
    pub source_principal_id: String,
    pub source_device_id: String,
    pub target_delivery_id: String,
    pub routing_set_id: Option<String>,
    pub delivery_class: DeliveryClass,
    pub priority: Priority,
    pub ttl: u32,
    pub created_at: i64,
    pub encrypted_payload: String,
    pub payload_hash: String,
}

/// The acknowledgement of an envelope.
#[derive(Clone, Debug, PartialEq, Eq)]
pub struct Ack {
    pub schema: String,
    pub version: u32,
    pub domain: String,
    pub signed: SignedFields,
    pub ack_id: String,
    pub envelope_id: String,
    pub receiver_device_id: String,
    pub received_at: i64,
    pub cursor_after: Option<String>,
}

/// The first frame of a session.
#[derive(Clone, Debug, PartialEq, Eq)]
pub struct GatewayOpenFrame {
    pub protocol_version: String,
    pub transport_kind: String,
    pub client_instance_id: String,
    pub device_id: String,
    pub target_delivery_id: String,
    pub stream_nonce: String,
    pub previous_session_id: Option<String>,
    pub resume_token_hash: Option<String>,
    pub last_seen_inbox_seq: Option<u64>,
    pub max_inflight_downstream: u32,
    pub max_inflight_upstream: u32,
    pub pre_auth_cookie: Option<String>,
    pub pre_auth_now: Option<u64>,
    pub source_ip_hash: Option<String>,
}

/// The frame that authenticates a session.
#[derive(Clone, Debug, PartialEq, Eq)]
pub struct GatewayAuthFrame {
    pub signed_request: SignedRequest,
    pub device_proof: DeviceProof,
}

/// The frame that hands an envelope to the gateway.
#[derive(Clone, Debug, PartialEq, Eq)]
pub struct GatewaySubmitFrame {
    pub signed_request: SignedRequest,
    pub envelope: Envelope,
}

/// The frame that sends an envelope to a principal's other devices.
#[derive(Clone, Debug, PartialEq, Eq)]
pub struct GatewayOwnDeviceFanoutFrame {
    pub signed_request: SignedRequest,
    pub principal_id: String,
    pub source_device_id: String,
    pub envelope: Envelope,
}

/// What became of an envelope for one of the principal's devices.
#[derive(Clone, Debug, PartialEq, Eq)]
pub struct GatewayOwnDeviceFanoutDelivery {
    pub device_id: String,
    pub target_delivery_id: String,
    pub outcome: String,
    pub inbox_seq: Option<u64>,
}

/// The answer to a fanout.
#[derive(Clone, Debug, PartialEq, Eq)]
pub struct GatewayOwnDeviceFanoutResponse {
    pub principal_id: String,
    pub source_device_id: String,
    pub delivered: Vec<GatewayOwnDeviceFanoutDelivery>,
}

/// The frame that asks for what came in after a place in the inbox.
#[derive(Clone, Debug, PartialEq, Eq)]
pub struct GatewayResumeFrame {
    pub target_delivery_id: String,
    pub after_inbox_seq: u64,
    pub limit: usize,
    pub resume_token: String,
}

/// The request for a token of the second version.
#[derive(Clone, Debug, PartialEq, Eq)]
pub struct GatewayRelayTokenIssueBody {
    pub object_id: String,
    pub manifest_hash: String,
    pub chunk_id: String,
    pub recipient_device_hash: String,
    pub owner_signing_key_id: String,
    pub owner_public_key: String,
    pub capability: SdkObjectRelayCapability,
    pub delete_after_ack: bool,
    pub issued_at: u64,
    pub expires_at: u64,
    pub object_permission_envelope: SdkObjectPermissionEnvelope,
}

/// The answer to a request for a token of the second version.
#[derive(Clone, Debug, PartialEq, Eq)]
pub struct GatewayRelayTokenIssueResponse {
    pub relay_token: SdkRelayToken,
}

/// The request for a token of the third version.
#[derive(Clone, Debug, PartialEq, Eq)]
pub struct SdkRelayTokenV3IssueBody {
    pub requester_device_id: String,
    pub requester_device_hash: String,
    pub requester_public_key: String,
    pub requester_device_epoch: u64,
    pub owner_signing_key_id: String,
    pub owner_public_key: String,
    pub owner_home_node_id: String,
    pub owner_principal_id: String,
    pub owner_device_epoch: u64,
    pub issuer_node_id: String,
    pub gateway_instance_id: String,
    pub audience_node_id: String,
    pub relay_instance_id: Option<String>,
    pub object_id: String,
    pub manifest_hash: String,
    pub chunk_id: String,
    pub capabilities: Vec<ObjectRelayCapability>,
    pub authorization_kind: RelayAuthorizationKind,
    pub authorization_binding_hash: String,
    pub delete_after_ack: bool,
    pub issued_at: u64,
    pub expires_at: u64,
    pub nonce: String,
    pub issuer_certificate: GatewayIssuerCertificate,
}

/// A token of the third version, as far as the requester reads it.
#[derive(Clone, Debug, PartialEq, Eq)]
pub struct RelayTokenV3 {
    pub token_id: String,
    pub object_id: String,
    pub manifest_hash: String,
    pub chunk_id: String,
    pub issuer_certificate: GatewayIssuerCertificate,
}

/// The frame with which a gateway accepts a session.
#[derive(Clone, Debug, PartialEq, Eq)]
pub struct GatewaySessionEstablishedFrame {
    pub session_id: String,
    pub gateway_id: String,
    pub accepted_cursor: Option<GatewayCursor>,
    pub resume_token: String,
    pub resume_window_seconds: u64,
}

/// What a gateway says.
#[derive(Clone, Debug, PartialEq, Eq)]
pub enum GatewayServerFrame {
    SessionEstablished { session: GatewaySessionEstablishedFrame },
    Deliver { entry: GatewayInboxEntry },
    OwnDeviceFanout { response: GatewayOwnDeviceFanoutResponse },
    IdentityRegistered { response: SdkMvp1IdentityRegistrationResponse },
    PrekeyPublished { response: SdkMvp1PrekeyResponse },
    Prekey { response: SdkMvp1PrekeyResponse },
    RelayTokenIssued { response: GatewayRelayTokenIssueResponse },
    RelayTokenV3Issued { relay_token: RelayTokenV3 },
    Ack { cursor: GatewayCursor },
    Cursor { cursor: Option<GatewayCursor> },
    Resume { entries: Vec<GatewayInboxEntry> },
    Nack { reason: String },
    Heartbeat { now: u64 },
    Drain { session_id: String, reason: String },
    InBandWake { target_delivery_id: String, delivery_class: DeliveryClass },
    Close { reason: String },
}

/// An envelope at its place in an inbox.
#[derive(Clone, Debug, PartialEq, Eq)]
pub struct GatewayInboxEntry {
    pub inbox_seq: u64,
    pub target_delivery_id: String,
    pub envelope: Envelope,
}

/// How far an inbox has been read.
#[derive(Clone, Debug, PartialEq, Eq)]
pub struct GatewayCursor {
    pub target_delivery_id: String,
    pub inbox_seq: u64,
    pub last_envelope_id: Option<String>,
    pub acked_envelope_ids: Vec<String>,
    pub nacked_envelope_ids: Vec<(String, String)>,
}

/// A session that a gateway has accepted.
#[derive(Clone, Debug, PartialEq, Eq)]
pub struct GatewaySessionState {
    pub session_id: String,
    pub gateway_id: String,
    pub resume_token: String,
    pub resume_window_seconds: u64,
    pub accepted_inbox_seq: u64,
}

} // verus!
