//! What a client says to a gateway within a session.
use crate::client::identity::{SdkMvp1PublishPrekeyRequest, SdkMvp1RegisterIdentityRequest};
use crate::error::{is_rejected, SdkError};
use crate::gateway::engine::GatewaySessionEngine;
use crate::gateway::helpers::{is_session_request, missing_branch_text, request_name};
use crate::gateway::protocol::{
    Ack, Envelope, GatewayAuthFrame, GatewayOpenFrame, GatewayOwnDeviceFanoutFrame,
    GatewayRelayTokenIssueBody, GatewayResumeFrame, GatewaySubmitFrame,
    HttpMethod, SdkRelayTokenV3IssueBody, SignedRequest,
};
use vstd::prelude::*;

verus! {

/// The signed request for a token of the second version.
#[derive(Clone, Debug, PartialEq, Eq)]
pub struct GatewayRelayTokenIssueRequest {
    pub signed_request: SignedRequest,
    pub body: GatewayRelayTokenIssueBody,
}

/// The signed request for a token of the third version.
#[derive(Clone, Debug, PartialEq, Eq)]
pub struct GatewayRelayTokenV3IssueRequest {
    pub signed_request: SignedRequest,
    pub body: SdkRelayTokenV3IssueBody,
}

/// What a client says.
#[derive(Clone, Debug, PartialEq, Eq)]
pub enum GatewayClientFrame {
    Open { open: GatewayOpenFrame },
    Auth { auth: GatewayAuthFrame },
    Submit { submit: GatewaySubmitFrame },
    OwnDeviceFanout { fanout: GatewayOwnDeviceFanoutFrame },
    IdentityRegister { request: SdkMvp1RegisterIdentityRequest },
    PrekeyPublish { request: SdkMvp1PublishPrekeyRequest },
    PrekeyFetch { device_id: String },
    RelayTokenIssue { request: GatewayRelayTokenIssueRequest },
    RelayTokenV3Issue { request: GatewayRelayTokenV3IssueRequest },
    Ack { ack: Ack },
    Cursor { target_delivery_id: String },
    Resume { resume: GatewayResumeFrame },
    Heartbeat { now: u64 },
    Close { reason: String },
}

/// What a client signs within a session.
#[derive(Clone, Copy, Debug, PartialEq, Eq, Structural)]
pub enum SessionOperation {
    Submit,
    OwnDeviceFanout,
    RelayToken,
    RelayTokenV3,
}

impl SessionOperation {
    /// The path that an operation is signed for.
    pub open spec fn place(self) -> Seq<char> {
        match self {
            SessionOperation::Submit => "/gateway/session/submit"@,
            SessionOperation::OwnDeviceFanout => "/gateway/session/own-device-fanout"@,
            SessionOperation::RelayToken => "/relay/v1/token/issue"@,
            SessionOperation::RelayTokenV3 => "/relay/v1/token/v3/issue"@,
        }
    }

    /// The path that an operation is signed for.
    pub fn path(self) -> (r: &'static str)
        ensures
            r@ == self.place(),
    {
        match self {
            SessionOperation::Submit => "/gateway/session/submit",
            SessionOperation::OwnDeviceFanout => "/gateway/session/own-device-fanout",
            SessionOperation::RelayToken => "/relay/v1/token/issue",
            SessionOperation::RelayTokenV3 => "/relay/v1/token/v3/issue",
        }
    }
}

/// A signature for one operation is of no use for another.
pub proof fn law_operations_are_signed_apart(a: SessionOperation, b: SessionOperation)
    requires
        a.place() == b.place(),
    ensures
        a == b,
{
    reveal_strlit("/gateway/session/submit");
    reveal_strlit("/gateway/session/own-device-fanout");
    reveal_strlit("/relay/v1/token/issue");
    reveal_strlit("/relay/v1/token/v3/issue");
    assert("/gateway/session/submit"@.len() == 23);
    assert("/gateway/session/own-device-fanout"@.len() == 34);
    assert("/relay/v1/token/issue"@.len() == 21);
    assert("/relay/v1/token/v3/issue"@.len() == 24);
}

impl GatewaySessionEngine {
    /// The request of an operation, yet to be signed. `body_hash` is the hash of the operation's
    /// body, and `nonce` that of the nonce text for this number at `now`.
    pub fn operation_to_sign(
        &mut self,
        operation: SessionOperation,
        now: i64,
        body_hash: &str,
        nonce: &str,
    ) -> (r: Result<SignedRequest, SdkError>)
        ensures
            final(self).session == old(self).session,
            final(self).pending_deliveries == old(self).pending_deliveries,
            final(self).config == old(self).config.refreshed(now),
            if old(self).config.device_branch is None {
                is_rejected(r, missing_branch_text(old(self).config.device_id@))
                    && final(self).request_counter == old(self).request_counter
            } else {
                &&& r is Ok
                &&& is_session_request(
                    r->Ok_0,
                    final(self).config,
                    request_name(old(self).session.session_id@, old(self).request_counter as nat),
                    HttpMethod::POST,
                    operation.place(),
                    "already_authed"@,
                    body_hash@,
                    nonce@,
                )
                &&& final(self).request_counter == (if old(self).request_counter == u64::MAX {
                    u64::MAX
                } else {
                    (old(self).request_counter + 1) as u64
                })
            },
    {
        self.signed_request(now, "POST", operation.path(), "already_authed", body_hash, nonce)
    }

    /// The frame that hands an envelope to the gateway.
    pub fn submit_envelope(&self, signed_request: SignedRequest, envelope: Envelope) -> (r:
        GatewayClientFrame)
        ensures
            r == (GatewayClientFrame::Submit {
                submit: GatewaySubmitFrame { signed_request, envelope },
            }),
    {
        GatewayClientFrame::Submit { submit: GatewaySubmitFrame { signed_request, envelope } }
    }

    /// The frame that sends an envelope to a principal's other devices.
    pub fn own_device_fanout(
        &self,
        signed_request: SignedRequest,
        principal_id: String,
        source_device_id: String,
        envelope: Envelope,
    ) -> (r: GatewayClientFrame)
        ensures
            r == (GatewayClientFrame::OwnDeviceFanout {
                fanout: GatewayOwnDeviceFanoutFrame {
                    signed_request,
                    principal_id,
                    source_device_id,
                    envelope,
                },
            }),
    {
        GatewayClientFrame::OwnDeviceFanout {
            fanout: GatewayOwnDeviceFanoutFrame {
                signed_request,
                principal_id,
                source_device_id,
                envelope,
            },
        }
    }

    /// The frame that acknowledges an envelope.
    pub fn ack(&self, ack: Ack) -> (r: GatewayClientFrame)
        ensures
            r == (GatewayClientFrame::Ack { ack }),
    {
        GatewayClientFrame::Ack { ack }
    }

    /// The frame that asks how far the inbox of this session has been read.
    pub fn cursor(&self) -> (r: GatewayClientFrame)
        ensures
            r == (GatewayClientFrame::Cursor {
                target_delivery_id: self.config.target_delivery_id,
            }),
    {
        GatewayClientFrame::Cursor { target_delivery_id: self.config.target_delivery_id.clone() }
    }

    /// The frame that asks for what came in after a place in the inbox.
    pub fn resume_after(&self, after_inbox_seq: u64, limit: usize) -> (r: GatewayClientFrame)
        ensures
            r == (GatewayClientFrame::Resume {
                resume: GatewayResumeFrame {
                    target_delivery_id: self.config.target_delivery_id,
                    after_inbox_seq,
                    limit,
                    resume_token: self.session.resume_token,
                },
            }),
    {
        GatewayClientFrame::Resume { resume: self.resume_request(after_inbox_seq, limit) }
    }

    /// The frame that asks whether the session is alive.
    pub fn heartbeat(&self, now: u64) -> (r: GatewayClientFrame)
        ensures
            r == (GatewayClientFrame::Heartbeat { now }),
    {
        GatewayClientFrame::Heartbeat { now }
    }

    /// The frame that ends a session.
    pub fn close(&self, reason: &str) -> (r: GatewayClientFrame)
        ensures
            r matches GatewayClientFrame::Close { reason: words } && words@ == reason@,
    {
        GatewayClientFrame::Close { reason: reason.to_owned() }
    }
}

} // verus!
