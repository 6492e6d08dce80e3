//! The errors of the library.
use vstd::prelude::*;

verus! {

/// What an object store reports.
#[derive(Clone, Debug, PartialEq, Eq)]
pub enum SyncError {
    /// No object has the wanted identifier.
    ObjectNotFound,
    /// Any other failure, in the words of the store.
    Other(String),
}

/// What an account database reports.
#[derive(Clone, Debug, PartialEq, Eq)]
pub enum StorageError {
    /// The group does not let this member do that.
    GroupPermissionDenied,
    /// No key is known that this device signs control events of the group with.
    GroupControlSigningKeyMissing(String),
    /// No message has this name.
    MessageNotFound(String),
    /// The event of this name is there already, with another body.
    EventIdConflict(String),
    /// Any other failure, in the words of the database.
    Other(String),
}

/// What a transport reports.
#[derive(Clone, Debug, PartialEq, Eq)]
pub enum TransportError {
    /// The peer has no room for another request.
    BackpressureRejected { capacity: usize, in_flight: usize },
    /// A QUIC failure, in the words of the transport.
    Quic(String),
    /// Any other failure, in the words of the transport.
    Other(String),
}

/// Everything that an operation of the library can fail with.
#[derive(Clone, Debug, PartialEq, Eq)]
pub enum SdkError {
    Crypto(String),
    Storage(StorageError),
    Sync(SyncError),
    Transport(TransportError),
    Protocol(String),
    Io(String),
    Json(String),
    AccountIndexNotOpen,
    AccountDbNotUnlocked,
    IdentityRootMissing,
    GatewaySessionRejected(String),
    GatewaySessionNotEstablished,
    InvalidGatewayCursor(String),
    LocalBus(String),
    LocalBusPermissionDenied,
    CapabilityDenied(String),
    GrantInvalidated,
    SignatureVerificationFailed(String),
    RemoteAppApprovalRequired,
}

/// The words of a store's report.
pub open spec fn sync_text(e: SyncError) -> Seq<char> {
    match e {
        SyncError::ObjectNotFound => "object not found"@,
        SyncError::Other(m) => m@,
    }
}

/// The words of a database's report.
pub open spec fn storage_text(e: StorageError) -> Seq<char> {
    match e {
        StorageError::GroupPermissionDenied => "group permission denied"@,
        StorageError::GroupControlSigningKeyMissing(device) => "group control signing key missing: "@
            + device@,
        StorageError::MessageNotFound(message) => "message not found: "@ + message@,
        StorageError::EventIdConflict(event) => "event id conflict: "@ + event@,
        StorageError::Other(m) => m@,
    }
}

/// The words of a transport's report.
pub open spec fn transport_text(e: TransportError) -> Seq<char> {
    match e {
        TransportError::BackpressureRejected { capacity, in_flight } => "backpressure rejected: capacity "@
            + crate::text::decimal(capacity as nat) + ", in flight "@ + crate::text::decimal(
            in_flight as nat,
        ),
        TransportError::Quic(m) => m@,
        TransportError::Other(m) => m@,
    }
}

impl SdkError {
    /// The message that a user is shown.
    pub open spec fn text(self) -> Seq<char> {
        match self {
            SdkError::Crypto(m) => "crypto error: "@ + m@,
            SdkError::Storage(e) => "storage error: "@ + storage_text(e),
            SdkError::Sync(e) => "sync error: "@ + sync_text(e),
            SdkError::Transport(e) => "transport error: "@ + transport_text(e),
            SdkError::Protocol(m) => "protocol error: "@ + m@,
            SdkError::Io(m) => "I/O error: "@ + m@,
            SdkError::Json(m) => "JSON error: "@ + m@,
            SdkError::AccountIndexNotOpen => "account index is not open"@,
            SdkError::AccountDbNotUnlocked => "account database is not unlocked"@,
            SdkError::IdentityRootMissing => "identity root is not initialized"@,
            SdkError::GatewaySessionRejected(m) => "gateway session rejected: "@ + m@,
            SdkError::GatewaySessionNotEstablished => "gateway session is not established"@,
            SdkError::InvalidGatewayCursor(m) => "invalid gateway cursor checkpoint: "@ + m@,
            SdkError::LocalBus(m) => "local bus error: "@ + m@,
            SdkError::LocalBusPermissionDenied => "local bus peer credential check failed"@,
            SdkError::CapabilityDenied(m) => "capability denied: "@ + m@,
            SdkError::GrantInvalidated => "grant invalidated"@,
            SdkError::SignatureVerificationFailed(m) =>
                "signature verification failed for mcp.approval.granted: "@ + m@,
            SdkError::RemoteAppApprovalRequired =>
                "remote_app approval requires an App-signed mcp.approval.granted"@,
        }
    }

    /// The message that a user is shown.
    pub fn message(&self) -> (r: String)
        ensures
            r@ == self.text(),
    {
        match self {
            SdkError::Crypto(m) => "crypto error: ".to_owned().concat(m.as_str()),
            SdkError::Storage(e) => {
                let inner = match e {
                    StorageError::GroupPermissionDenied => "group permission denied".to_owned(),
                    StorageError::GroupControlSigningKeyMissing(device) =>
                        "group control signing key missing: ".to_owned().concat(device.as_str()),
                    StorageError::MessageNotFound(message) => "message not found: ".to_owned().concat(
                        message.as_str(),
                    ),
                    StorageError::EventIdConflict(event) => "event id conflict: ".to_owned().concat(
                        event.as_str(),
                    ),
                    StorageError::Other(m) => m.clone(),
                };
                "storage error: ".to_owned().concat(inner.as_str())
            },
            SdkError::Sync(e) => {
                let inner = match e {
                    SyncError::ObjectNotFound => "object not found".to_owned(),
                    SyncError::Other(m) => m.clone(),
                };
                "sync error: ".to_owned().concat(inner.as_str())
            },
            SdkError::Transport(e) => {
                let inner = match e {
                    TransportError::BackpressureRejected { capacity, in_flight } => {
                        let a = crate::text::decimal_u64(*capacity as u64);
                        let b = crate::text::decimal_u64(*in_flight as u64);
                        "backpressure rejected: capacity ".to_owned().concat(a.as_str()).concat(
                            ", in flight ",
                        ).concat(b.as_str())
                    },
                    TransportError::Quic(m) => m.clone(),
                    TransportError::Other(m) => m.clone(),
                };
                "transport error: ".to_owned().concat(inner.as_str())
            },
            SdkError::Protocol(m) => "protocol error: ".to_owned().concat(m.as_str()),
            SdkError::Io(m) => "I/O error: ".to_owned().concat(m.as_str()),
            SdkError::Json(m) => "JSON error: ".to_owned().concat(m.as_str()),
            SdkError::AccountIndexNotOpen => "account index is not open".to_owned(),
            SdkError::AccountDbNotUnlocked => "account database is not unlocked".to_owned(),
            SdkError::IdentityRootMissing => "identity root is not initialized".to_owned(),
            SdkError::GatewaySessionRejected(m) => "gateway session rejected: ".to_owned().concat(
                m.as_str(),
            ),
            SdkError::GatewaySessionNotEstablished => "gateway session is not established".to_owned(),
            SdkError::InvalidGatewayCursor(m) => "invalid gateway cursor checkpoint: ".to_owned().concat(
            m.as_str()),
            SdkError::LocalBus(m) => "local bus error: ".to_owned().concat(m.as_str()),
            SdkError::LocalBusPermissionDenied => "local bus peer credential check failed".to_owned(),
            SdkError::CapabilityDenied(m) => "capability denied: ".to_owned().concat(m.as_str()),
            SdkError::GrantInvalidated => "grant invalidated".to_owned(),
            SdkError::SignatureVerificationFailed(m) =>
                "signature verification failed for mcp.approval.granted: ".to_owned().concat(
                m.as_str(),
            ),
            SdkError::RemoteAppApprovalRequired =>
                "remote_app approval requires an App-signed mcp.approval.granted".to_owned(),
        }
    }
}

/// Whether `r` is the local-bus error with the given words.
pub open spec fn is_local_bus<T>(r: Result<T, SdkError>, text: Seq<char>) -> bool {
    r matches Err(SdkError::LocalBus(m)) && m@ == text
}

/// Whether `r` is the denial with the given words.
pub open spec fn is_denied<T>(r: Result<T, SdkError>, text: Seq<char>) -> bool {
    r matches Err(SdkError::CapabilityDenied(m)) && m@ == text
}

/// Whether `r` is the refusal by a gateway with the given words.
pub open spec fn is_rejected<T>(r: Result<T, SdkError>, text: Seq<char>) -> bool {
    r matches Err(SdkError::GatewaySessionRejected(m)) && m@ == text
}

/// The local-bus error with the given words.
pub fn local_bus(text: &str) -> (e: SdkError)
    ensures
        e matches SdkError::LocalBus(m) && m@ == text@,
{
    SdkError::LocalBus(text.to_owned())
}

/// The denial with the given words.
pub fn denied(text: &str) -> (e: SdkError)
    ensures
        e matches SdkError::CapabilityDenied(m) && m@ == text@,
{
    SdkError::CapabilityDenied(text.to_owned())
}

/// The refusal by a gateway with the given words.
pub fn rejected(text: &str) -> (e: SdkError)
    ensures
        e matches SdkError::GatewaySessionRejected(m) && m@ == text@,
{
    SdkError::GatewaySessionRejected(text.to_owned())
}

} // verus!
