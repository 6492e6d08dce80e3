//! Prekeys and identities at a gateway, and the plain HTTP exchange that carries them.
use crate::digest::{hashes, HashInput};
use crate::error::{is_local_bus, is_rejected, local_bus, SdkError};
use crate::gateway::protocol::GatewaySessionTransportKind;
use crate::text::{
    before_char, contains, cut_before, decimal, decimal_u64, occurs_in, parse_unsigned,
    parsed_unsigned, starts_with, strip_prefix, trim, trim_end, trimmed, trimmed_end, NumeralError,
};
use vstd::prelude::*;

verus! {

/// A gateway's answer to an identity registration.
#[derive(Clone, Debug, PartialEq, Eq)]
pub struct SdkMvp1IdentityRegistrationResponse {
    pub principal_id: String,
    pub device_id: String,
    pub device_epoch: u64,
    pub target_delivery_id: String,
    pub session_bound: bool,
    pub registration_trust_tier: String,
}

/// The public part of a device's prekeys.
#[derive(Clone, Debug, PartialEq, Eq)]
pub struct PrekeyBundle {
    pub device_id: String,
    pub device_epoch: u64,
    pub identity_key: [u8; 32],
    pub signed_prekey_id: String,
    pub signed_prekey: [u8; 32],
    pub one_time_prekey_id: Option<String>,
}

/// A gateway's answer about a device's prekeys.
#[derive(Clone, Debug, PartialEq, Eq)]
pub struct SdkMvp1PrekeyResponse {
    pub device_id: String,
    pub principal_commitment: String,
    pub bundle: Option<PrekeyBundle>,
    pub target_delivery_id: Option<String>,
}

/// What is read of the proof that a root authorized a device.
#[derive(Clone, Debug, PartialEq, Eq)]
pub struct BranchProofDocument {
    pub principal_id: String,
    pub device_id: String,
    pub device_epoch: u64,
}

/// A device in a manifest.
#[derive(Clone, Debug, PartialEq, Eq)]
pub struct SdkMvp1DeviceManifestDevice {
    pub principal_id: String,
    pub principal_commitment: String,
    pub device_id: String,
    pub device_epoch: u64,
    pub branch_public_key: String,
    pub target_delivery_id: String,
    pub branch_proof: BranchProofDocument,
    pub prekey_bundle: PrekeyBundle,
    pub branch_authorized_event_id: String,
}

/// A gateway's answer about one device, where it has to have prekeys.
pub fn needed_bundle(response: SdkMvp1PrekeyResponse, device_id: &str) -> (r: Result<
    PrekeyBundle,
    SdkError,
>)
    ensures
        match response.bundle {
            Some(bundle) => r == Ok::<PrekeyBundle, SdkError>(bundle),
            None => is_local_bus(r, "missing prekey bundle for "@ + device_id@),
        },
{
    match response.bundle {
        Some(bundle) => Ok(bundle),
        None => Err(SdkError::LocalBus("missing prekey bundle for ".to_owned().concat(device_id))),
    }
}

/// The place of a device's prekeys at a gateway.
pub fn prekey_path(device_id: &str) -> (r: String)
    ensures
        r@ == "/mvp1/prekey/"@ + device_id@,
{
    "/mvp1/prekey/".to_owned().concat(device_id)
}

// ---- requests over a gateway's own transport ----

/// The way a request to a gateway takes. A wait is in milliseconds.
#[derive(Clone, Copy, Debug, PartialEq, Eq, Structural)]
pub enum GatewayRoute {
    Quic { wait: u64 },
    TcpTls,
}

/// The first way that a request takes.
pub fn first_route(kind: GatewaySessionTransportKind, wait: u64, fallback_wait: u64) -> (r:
    GatewayRoute)
    ensures
        r == (match kind {
            GatewaySessionTransportKind::Auto => GatewayRoute::Quic { wait: fallback_wait },
            GatewaySessionTransportKind::Quic => GatewayRoute::Quic { wait },
            GatewaySessionTransportKind::TcpTls => GatewayRoute::TcpTls,
        }),
{
    match kind {
        GatewaySessionTransportKind::Auto => GatewayRoute::Quic { wait: fallback_wait },
        GatewaySessionTransportKind::Quic => GatewayRoute::Quic { wait },
        GatewaySessionTransportKind::TcpTls => GatewayRoute::TcpTls,
    }
}

/// The way that a request takes after the first has failed: only where the transport is chosen
/// automatically, and then over TCP and TLS.
pub fn fallback_route(kind: GatewaySessionTransportKind) -> (r: Option<GatewayRoute>)
    ensures
        r == (if kind is Auto {
            Some(GatewayRoute::TcpTls)
        } else {
            None
        }),
{
    match kind {
        GatewaySessionTransportKind::Auto => Some(GatewayRoute::TcpTls),
        _ => None,
    }
}

/// The transport that is in force once a way has been taken.
pub fn active_kind(route: GatewayRoute) -> (r: GatewaySessionTransportKind)
    ensures
        r == (match route {
            GatewayRoute::Quic { wait } => GatewaySessionTransportKind::Quic,
            GatewayRoute::TcpTls => GatewaySessionTransportKind::TcpTls,
        }),
{
    match route {
        GatewayRoute::Quic { wait } => GatewaySessionTransportKind::Quic,
        GatewayRoute::TcpTls => GatewaySessionTransportKind::TcpTls,
    }
}

/// The body of a gateway's answer that grants the request; any other answer is a refusal.
pub fn gateway_success_body(method: &str, path: &str, status: u16, body: String) -> (r: Result<
    String,
    SdkError,
>)
    ensures
        if status == 200 {
            r == Ok::<String, SdkError>(body)
        } else {
            is_rejected(
                r,
                "gateway request "@ + method@ + " "@ + path@ + " rejected with status "@ + decimal(
                    status as nat,
                ) + ": "@ + body@,
            )
        },
{
    if status != 200 {
        let number = decimal_u64(status as u64);
        return Err(
            SdkError::GatewaySessionRejected(
                "gateway request ".to_owned().concat(method).concat(" ").concat(path).concat(
                    " rejected with status ",
                ).concat(number.as_str()).concat(": ").concat(body.as_str()),
            ),
        );
    }
    Ok(body)
}

// ---- requests over plain HTTP ----

/// The host and port of a base address: what stands between `http://` and the next slash.
pub open spec fn host_port_of(base_url: Seq<char>) -> Seq<char> {
    before_char(base_url.skip("http://"@.len() as int), '/')
}

/// The host and port of a base address.
pub fn sdk_http_host_port(base_url: &str) -> (r: Result<String, SdkError>)
    ensures
        if starts_with(base_url@, "http://"@) {
            r is Ok && r->Ok_0@ == host_port_of(base_url@)
        } else {
            is_local_bus(r, "unsupported prekey URL: "@ + base_url@)
        },
{
    match strip_prefix(base_url, "http://") {
        Some(rest) => Ok(cut_before(rest, '/').to_owned()),
        None => Err(SdkError::LocalBus("unsupported prekey URL: ".to_owned().concat(base_url))),
    }
}

/// The head of a request that posts JSON.
pub fn http_post_head(base_url: &str, path: &str, body_len: usize) -> (r: Result<String, SdkError>)
    ensures
        if starts_with(base_url@, "http://"@) {
            r is Ok && r->Ok_0@ == "POST "@ + path@ + " HTTP/1.1\r\nHost: "@ + host_port_of(base_url@)
                + "\r\nContent-Type: application/json\r\nContent-Length: "@ + decimal(
                body_len as nat,
            ) + "\r\nConnection: close\r\n\r\n"@
        } else {
            is_local_bus(r, "unsupported prekey URL: "@ + base_url@)
        },
{
    let host = match sdk_http_host_port(base_url) {
        Ok(host) => host,
        Err(error) => {
            return Err(error);
        },
    };
    let len = decimal_u64(body_len as u64);
    Ok(
        "POST ".to_owned().concat(path).concat(" HTTP/1.1\r\nHost: ").concat(host.as_str()).concat(
            "\r\nContent-Type: application/json\r\nContent-Length: ",
        ).concat(len.as_str()).concat("\r\nConnection: close\r\n\r\n"),
    )
}

/// The head of a request that gets JSON.
pub fn http_get_head(base_url: &str, path: &str) -> (r: Result<String, SdkError>)
    ensures
        if starts_with(base_url@, "http://"@) {
            r is Ok && r->Ok_0@ == "GET "@ + path@ + " HTTP/1.1\r\nHost: "@ + host_port_of(base_url@)
                + "\r\nConnection: close\r\n\r\n"@
        } else {
            is_local_bus(r, "unsupported prekey URL: "@ + base_url@)
        },
{
    let host = match sdk_http_host_port(base_url) {
        Ok(host) => host,
        Err(error) => {
            return Err(error);
        },
    };
    Ok(
        "GET ".to_owned().concat(path).concat(" HTTP/1.1\r\nHost: ").concat(host.as_str()).concat(
            "\r\nConnection: close\r\n\r\n",
        ),
    )
}

/// The head of an answer, as far as it has been read.
#[derive(Clone, Debug, PartialEq, Eq)]
pub struct HttpResponseHead {
    pub status_line: String,
    pub content_length: Option<usize>,
}

/// The words for a numeral that is none.
pub open spec fn numeral_words(e: NumeralError) -> Seq<char> {
    match e {
        NumeralError::Empty => "cannot parse integer from empty string"@,
        NumeralError::InvalidDigit => "invalid digit found in string"@,
        NumeralError::TooLarge => "number too large to fit in target type"@,
    }
}

fn numeral_str(e: NumeralError) -> (r: &'static str)
    ensures
        r@ == numeral_words(e),
{
    match e {
        NumeralError::Empty => "cannot parse integer from empty string",
        NumeralError::InvalidDigit => "invalid digit found in string",
        NumeralError::TooLarge => "number too large to fit in target type",
    }
}

impl HttpResponseHead {
    /// Takes the first line, as it was read with its end; nothing was read where there is none.
    pub fn start(line: &str) -> (r: Result<HttpResponseHead, SdkError>)
        ensures
            if line@.len() == 0 {
                is_local_bus(r, "SDK HTTP response missing status line"@)
            } else {
                r matches Ok(head) && head.status_line@ == trimmed_end(line@)
                    && head.content_length is None
            },
    {
        if line.is_empty() {
            return Err(local_bus("SDK HTTP response missing status line"));
        }
        Ok(HttpResponseHead { status_line: trim_end(line).to_owned(), content_length: None })
    }

    /// Takes the next line, as it was read with its end, and tells whether more lines follow. A
    /// line of white space ends the head; the last `Content-Length` counts.
    pub fn line(&mut self, line: &str) -> (r: Result<bool, SdkError>)
        ensures
            ({
                let text = trimmed_end(line@);
                let value = trimmed(text.skip("Content-Length:"@.len() as int));
                if line@.len() == 0 {
                    is_local_bus(r, "SDK HTTP response ended before header terminator"@)
                        && *final(self) == *old(self)
                } else if text.len() == 0 {
                    r == Ok::<bool, SdkError>(false) && *final(self) == *old(self)
                } else if !starts_with(text, "Content-Length:"@) {
                    r == Ok::<bool, SdkError>(true) && *final(self) == *old(self)
                } else {
                    match parsed_unsigned(value, usize::MAX as nat) {
                        Ok(n) => r == Ok::<bool, SdkError>(true) && *final(self) == (
                        HttpResponseHead { content_length: Some(n as usize), ..*old(self) }),
                        Err(e) => is_local_bus(
                            r,
                            "bad SDK HTTP response content length: "@ + numeral_words(e),
                        ) && *final(self) == *old(self),
                    }
                }
            }),
    {
        if line.is_empty() {
            return Err(local_bus("SDK HTTP response ended before header terminator"));
        }
        let text = trim_end(line);
        if text.is_empty() {
            return Ok(false);
        }
        match strip_prefix(text, "Content-Length:") {
            Some(value) => match parse_unsigned(trim(value), usize::MAX as u64) {
                Ok(n) => {
                    self.content_length = Some(n as usize);
                    Ok(true)
                },
                Err(e) => Err(
                    SdkError::LocalBus(
                        "bad SDK HTTP response content length: ".to_owned().concat(numeral_str(e)),
                    ),
                ),
            },
            None => Ok(true),
        }
    }

    /// The length of the body, which the head has to give.
    pub fn body_length(&self) -> (r: Result<usize, SdkError>)
        ensures
            match self.content_length {
                Some(n) => r == Ok::<usize, SdkError>(n),
                None => is_local_bus(r, "SDK HTTP response missing Content-Length"@),
            },
    {
        match self.content_length {
            Some(n) => Ok(n),
            None => Err(local_bus("SDK HTTP response missing Content-Length")),
        }
    }

    /// Whether the answer grants the request. `body` is the body as text.
    pub fn check_status(&self, body: &str) -> (r: Result<(), SdkError>)
        ensures
            if occurs_in(self.status_line@, " 200 "@) {
                r is Ok
            } else {
                is_local_bus(
                    r,
                    "SDK HTTP request failed: "@ + self.status_line@ + ": "@ + body@,
                )
            },
    {
        if !contains(self.status_line.as_str(), " 200 ") {
            return Err(
                SdkError::LocalBus(
                    "SDK HTTP request failed: ".to_owned().concat(
                        self.status_line.as_str(),
                    ).concat(": ").concat(body),
                ),
            );
        }
        Ok(())
    }
}

/// The length that a request states is the length that is read from it.
pub proof fn law_stated_length_is_read_back(n: usize)
    ensures
        parsed_unsigned(trimmed(" "@ + decimal(n as nat)), usize::MAX as nat) == Ok::<
            nat,
            NumeralError,
        >(n as nat),
{
    reveal_strlit(" ");
    let d = decimal(n as nat);
    crate::text::lemma_decimal_digits(n as nat);
    let s = " "@ + d;
    assert(s[0] == ' ');
    assert(s.skip(1) =~= d);
    assert(crate::text::is_digit(d[0]));
    assert(crate::text::is_digit(d[d.len() - 1]));
    assert(crate::text::trimmed_start(d) == d);
    assert(crate::text::trimmed_start(s) == d);
    assert(trimmed_end(d) == d);
    crate::text::lemma_scanned_digits(d, usize::MAX as nat);
    assert(crate::text::unsigned_digits(d) == d);
}

// ---- what an identity is known by ----

/// Whether `r` is what the commitment to a root key is the hash of.
pub open spec fn commits_to(r: HashInput, root_public_key: Seq<u8>) -> bool {
    hashes(r, "ramflux.identity.root_public_key.commitment.v1"@, root_public_key)
}

/// What the commitment to a root key is the hash of. `decoded` is what the key's base64url text
/// stands for, or why it stands for nothing.
pub fn identity_root_public_key_commitment(decoded: Result<Vec<u8>, String>) -> (r: Result<
    HashInput,
    SdkError,
>)
    ensures
        match decoded {
            Ok(bytes) => r matches Ok(input) && commits_to(input, bytes@),
            Err(words) => is_local_bus(r, "invalid root public key: "@ + words@),
        },
{
    match decoded {
        Ok(bytes) => Ok(identity_root_public_key_commitment_for_seed(bytes)),
        Err(words) => {
            let text = "invalid root public key: ".to_owned().concat(words.as_str());
            Err(local_bus(text.as_str()))
        },
    }
}

/// What the commitment to a root key is the hash of. `root_public_key` is the public key that the
/// seed of the root gives.
pub fn identity_root_public_key_commitment_for_seed(root_public_key: Vec<u8>) -> (r: HashInput)
    ensures
        commits_to(r, root_public_key@),
{
    HashInput {
        domain: "ramflux.identity.root_public_key.commitment.v1".to_owned(),
        bytes: root_public_key,
    }
}

} // verus!
