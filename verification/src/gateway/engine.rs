//! A session with a gateway: what each frame means to the operation that waits for it.
use crate::constants::GATEWAY_SESSION_NETWORK_TIMEOUT;
use crate::error::{is_rejected, SdkError};
use crate::gateway::entries::{dedup_gateway_entries, deduped};
use crate::gateway::helpers::{
    build_gateway_signed_request, gateway_session_state, is_session_request, missing_branch_text,
    request_name,
};
use crate::gateway::protocol::{
    GatewayCursor, GatewayInboxEntry, GatewayOwnDeviceFanoutResponse, GatewayResumeFrame,
    GatewayServerFrame, GatewaySessionConfig, GatewaySessionState, GatewaySessionTransportKind,
    HttpMethod, RelayTokenV3, SignedRequest,
};
use crate::object::SdkRelayToken;
use crate::prekey::{SdkMvp1IdentityRegistrationResponse, SdkMvp1PrekeyResponse};
use crate::text::{decimal, decimal_u64, str_eq};
use vstd::prelude::*;

verus! {

/// A message on its way to one recipient.
#[derive(Clone, Debug, PartialEq, Eq)]
pub struct GatewayDirectMessage {
    pub conversation_id: String,
    pub message_id: String,
    pub envelope_id: String,
    pub source_principal_id: String,
    pub sender_id: String,
    pub recipient_device_id: Option<String>,
    pub target_delivery_id: String,
    pub encrypted_body: Vec<u8>,
    pub created_at: i64,
    pub ttl: u32,
}

/// A session as the client holds it.
pub struct GatewaySessionEngine {
    pub config: GatewaySessionConfig,
    pub session: GatewaySessionState,
    pub request_counter: u64,
    pub pending_deliveries: Vec<GatewayInboxEntry>,
}

/// What a frame means to the operation that waits.
#[derive(Clone, Debug, PartialEq, Eq)]
pub enum FrameStep<T> {
    /// The operation is done.
    Done(T),
    /// Another frame has to be read.
    ReadMore,
    /// The operation has failed.
    Failed(SdkError),
}

/// Whether a step is the refusal with the given words.
pub open spec fn fails_with<T>(r: FrameStep<T>, words: Seq<char>) -> bool {
    r matches FrameStep::Failed(SdkError::GatewaySessionRejected(m)) && m@ == words
}

fn refused<T>(words: &str, shown: &str) -> (r: FrameStep<T>)
    ensures
        fails_with(r, words@ + shown@),
{
    FrameStep::Failed(SdkError::GatewaySessionRejected(words.to_owned().concat(shown)))
}

/// The error of a step that took too long.
pub fn gateway_timeout_error(operation: &str) -> (r: SdkError)
    ensures
        r matches SdkError::GatewaySessionRejected(m) && m@ == operation@ + " timed out after 15s"@,
{
    let seconds = decimal_u64(GATEWAY_SESSION_NETWORK_TIMEOUT);
    let words = operation.to_owned().concat(" timed out after ").concat(seconds.as_str()).concat(
        "s",
    );
    proof {
        reveal_with_fuel(crate::text::decimal, 3);
        reveal_strlit(" timed out after ");
        reveal_strlit("s");
        reveal_strlit(" timed out after 15s");
        assert(" timed out after "@ + decimal(15) + "s"@ =~= " timed out after 15s"@);
        assert(words@ =~= operation@ + (" timed out after "@ + decimal(15) + "s"@));
    }
    SdkError::GatewaySessionRejected(words)
}

/// The method of a request, by its name.
pub fn http_method(name: &str) -> (r: Result<HttpMethod, SdkError>)
    ensures
        if name@ == "POST"@ {
            r == Ok::<HttpMethod, SdkError>(HttpMethod::POST)
        } else if name@ == "GET"@ {
            r == Ok::<HttpMethod, SdkError>(HttpMethod::GET)
        } else if name@ == "PUT"@ {
            r == Ok::<HttpMethod, SdkError>(HttpMethod::PUT)
        } else if name@ == "DELETE"@ {
            r == Ok::<HttpMethod, SdkError>(HttpMethod::DELETE)
        } else {
            is_rejected(r, "unsupported method "@ + name@)
        },
{
    if str_eq(name, "POST") {
        Ok(HttpMethod::POST)
    } else if str_eq(name, "GET") {
        Ok(HttpMethod::GET)
    } else if str_eq(name, "PUT") {
        Ok(HttpMethod::PUT)
    } else if str_eq(name, "DELETE") {
        Ok(HttpMethod::DELETE)
    } else {
        Err(SdkError::GatewaySessionRejected("unsupported method ".to_owned().concat(name)))
    }
}

impl GatewaySessionEngine {
    /// Takes the frame that answers the opening of a session. `shown` is the frame as it is shown
    /// to a user. A session that is accepted is remembered, so that it can be resumed.
    pub fn established(
        config: GatewaySessionConfig,
        active_transport_kind: GatewaySessionTransportKind,
        frame: GatewayServerFrame,
        shown: &str,
    ) -> (r: Result<GatewaySessionEngine, SdkError>)
        ensures
            match frame {
                GatewayServerFrame::SessionEstablished { session } => r matches Ok(engine) && {
                    let accepted = match session.accepted_cursor {
                        Some(cursor) => cursor.inbox_seq,
                        None => config.last_seen_inbox_seq,
                    };
                    &&& engine.session == (GatewaySessionState {
                        session_id: session.session_id,
                        gateway_id: session.gateway_id,
                        resume_token: session.resume_token,
                        resume_window_seconds: session.resume_window_seconds,
                        accepted_inbox_seq: accepted,
                    })
                    &&& engine.config == (GatewaySessionConfig {
                        transport_kind: active_transport_kind,
                        previous_session_id: Some(session.session_id),
                        resume_token: Some(session.resume_token),
                        last_seen_inbox_seq: accepted,
                        ..config
                    })
                    &&& engine.request_counter == 1
                    &&& engine.pending_deliveries@ == Seq::<GatewayInboxEntry>::empty()
                },
                GatewayServerFrame::Nack { reason } => is_rejected(r, reason@),
                _ => is_rejected(r, "unexpected frame "@ + shown@),
            },
    {
        match frame {
            GatewayServerFrame::SessionEstablished { session } => {
                let mut config = config;
                let state = gateway_session_state(&session, config.last_seen_inbox_seq);
                config.transport_kind = active_transport_kind;
                config.previous_session_id = Some(state.session_id.clone());
                config.resume_token = Some(state.resume_token.clone());
                config.last_seen_inbox_seq = state.accepted_inbox_seq;
                Ok(
                    GatewaySessionEngine {
                        config,
                        session: state,
                        request_counter: 1,
                        pending_deliveries: Vec::new(),
                    },
                )
            },
            GatewayServerFrame::Nack { reason } => Err(SdkError::GatewaySessionRejected(reason)),
            _ => Err(
                SdkError::GatewaySessionRejected("unexpected frame ".to_owned().concat(shown)),
            ),
        }
    }

    /// The session.
    pub fn session(&self) -> (r: &GatewaySessionState)
        ensures
            *r == self.session,
    {
        &self.session
    }

    /// The inbox that the session reads.
    pub fn target_delivery_id(&self) -> (r: &str)
        ensures
            r@ == self.config.target_delivery_id@,
    {
        self.config.target_delivery_id.as_str()
    }

    /// The transport that is in force.
    pub fn active_transport_kind(&self) -> (r: GatewaySessionTransportKind)
        ensures
            r == self.config.transport_kind,
    {
        self.config.transport_kind
    }

    /// A request of the session, before it is signed. Each takes the next number. `nonce` is the
    /// hash of the nonce text for this number at `now`.
    pub fn signed_request(
        &mut self,
        now: i64,
        method: &str,
        path: &str,
        device_proof_hash: &str,
        body_hash: &str,
        nonce: &str,
    ) -> (r: Result<SignedRequest, SdkError>)
        ensures
            final(self).session == old(self).session,
            final(self).pending_deliveries == old(self).pending_deliveries,
            if !(method@ == "POST"@ || method@ == "GET"@ || method@ == "PUT"@ || method@
                == "DELETE"@) {
                is_rejected(r, "unsupported method "@ + method@) && *final(self) == *old(self)
            } else {
                &&& final(self).config == old(self).config.refreshed(now)
                &&& if old(self).config.device_branch is None {
                    is_rejected(r, missing_branch_text(old(self).config.device_id@))
                        && final(self).request_counter == old(self).request_counter
                } else {
                    &&& r is Ok
                    &&& is_session_request(
                        r->Ok_0,
                        final(self).config,
                        request_name(
                            old(self).session.session_id@,
                            old(self).request_counter as nat,
                        ),
                        if method@ == "POST"@ {
                            HttpMethod::POST
                        } else if method@ == "GET"@ {
                            HttpMethod::GET
                        } else if method@ == "PUT"@ {
                            HttpMethod::PUT
                        } else {
                            HttpMethod::DELETE
                        },
                        path@,
                        device_proof_hash@,
                        body_hash@,
                        nonce@,
                    )
                    &&& final(self).request_counter == (if old(self).request_counter == u64::MAX {
                        u64::MAX
                    } else {
                        (old(self).request_counter + 1) as u64
                    })
                }
            },
    {
        let method = match http_method(method) {
            Ok(method) => method,
            Err(error) => {
                return Err(error);
            },
        };
        let session_id = self.session.session_id.clone();
        let counter: u64 = self.request_counter;
        let request = match build_gateway_signed_request(
            &mut self.config,
            now,
            session_id.as_str(),
            counter,
            method,
            path,
            device_proof_hash,
            body_hash,
            nonce,
        ) {
            Ok(request) => request,
            Err(error) => {
                return Err(error);
            },
        };
        self.request_counter = counter.saturating_add(1);
        Ok(request)
    }

    /// Sets aside a delivery that came in while something else is waited for, and passes over a
    /// wake-up; hands any other frame on.
    pub fn set_aside(&mut self, frame: GatewayServerFrame) -> (r: Option<GatewayServerFrame>)
        ensures
            match frame {
                GatewayServerFrame::Deliver { entry } => {
                    &&& r is None
                    &&& final(self).pending_deliveries@ == old(self).pending_deliveries@.push(entry)
                    &&& *final(self) == (GatewaySessionEngine {
                        pending_deliveries: final(self).pending_deliveries,
                        ..*old(self)
                    })
                },
                GatewayServerFrame::InBandWake { target_delivery_id, delivery_class } => r is None
                    && *final(self) == *old(self),
                _ => r == Some(frame) && *final(self) == *old(self),
            },
    {
        match frame {
            GatewayServerFrame::Deliver { entry } => {
                self.pending_deliveries.push(entry);
                None
            },
            GatewayServerFrame::InBandWake { target_delivery_id, delivery_class } => None,
            other => Some(other),
        }
    }

    /// Takes a frame while the delivery of a submitted envelope is waited for.
    pub fn submit_frame(
        &mut self,
        expected_envelope_id: &str,
        frame: GatewayServerFrame,
        shown: &str,
    ) -> (r: FrameStep<GatewayInboxEntry>)
        ensures
            match frame {
                GatewayServerFrame::Deliver { entry } => if entry.envelope.envelope_id@
                    == expected_envelope_id@ {
                    r == FrameStep::Done(entry) && *final(self) == *old(self)
                } else {
                    &&& r is ReadMore
                    &&& final(self).pending_deliveries@ == old(self).pending_deliveries@.push(entry)
                    &&& *final(self) == (GatewaySessionEngine {
                        pending_deliveries: final(self).pending_deliveries,
                        ..*old(self)
                    })
                },
                GatewayServerFrame::InBandWake { target_delivery_id, delivery_class } => r
                    is ReadMore && *final(self) == *old(self),
                GatewayServerFrame::Nack { reason } => fails_with(r, reason@) && *final(self)
                    == *old(self),
                _ => fails_with(r, "expected deliver after submit, got "@ + shown@) && *final(self)
                    == *old(self),
            },
    {
        match frame {
            GatewayServerFrame::Deliver { entry } => {
                if str_eq(entry.envelope.envelope_id.as_str(), expected_envelope_id) {
                    return FrameStep::Done(entry);
                }
                self.pending_deliveries.push(entry);
                FrameStep::ReadMore
            },
            GatewayServerFrame::InBandWake { target_delivery_id, delivery_class } => {
                FrameStep::ReadMore
            },
            GatewayServerFrame::Nack { reason } => FrameStep::Failed(
                SdkError::GatewaySessionRejected(reason),
            ),
            _ => refused("expected deliver after submit, got ", shown),
        }
    }

    /// Takes a frame while the answer to a fanout is waited for.
    pub fn fanout_frame(&mut self, frame: GatewayServerFrame, shown: &str) -> (r: FrameStep<
        GatewayOwnDeviceFanoutResponse,
    >)
        ensures
            match frame {
                GatewayServerFrame::OwnDeviceFanout { response } => r == FrameStep::Done(response)
                    && *final(self) == *old(self),
                GatewayServerFrame::Deliver { entry } => {
                    &&& r is ReadMore
                    &&& final(self).pending_deliveries@ == old(self).pending_deliveries@.push(entry)
                    &&& *final(self) == (GatewaySessionEngine {
                        pending_deliveries: final(self).pending_deliveries,
                        ..*old(self)
                    })
                },
                GatewayServerFrame::InBandWake { target_delivery_id, delivery_class } => r
                    is ReadMore && *final(self) == *old(self),
                GatewayServerFrame::Nack { reason } => fails_with(r, reason@) && *final(self)
                    == *old(self),
                _ => fails_with(r, "expected own-device fanout response, got "@ + shown@)
                    && *final(self) == *old(self),
            },
    {
        match frame {
            GatewayServerFrame::OwnDeviceFanout { response } => FrameStep::Done(response),
            GatewayServerFrame::Deliver { entry } => {
                self.pending_deliveries.push(entry);
                FrameStep::ReadMore
            },
            GatewayServerFrame::InBandWake { target_delivery_id, delivery_class } => {
                FrameStep::ReadMore
            },
            GatewayServerFrame::Nack { reason } => FrameStep::Failed(
                SdkError::GatewaySessionRejected(reason),
            ),
            _ => refused("expected own-device fanout response, got ", shown),
        }
    }

    /// The frame that asks for what came in after a place in the inbox.
    pub fn resume_request(&self, after_inbox_seq: u64, limit: usize) -> (r: GatewayResumeFrame)
        ensures
            r == (GatewayResumeFrame {
                target_delivery_id: self.config.target_delivery_id,
                after_inbox_seq,
                limit,
                resume_token: self.session.resume_token,
            }),
    {
        GatewayResumeFrame {
            target_delivery_id: self.config.target_delivery_id.clone(),
            after_inbox_seq,
            limit,
            resume_token: self.session.resume_token.clone(),
        }
    }

    /// Hands over the deliveries that were set aside.
    pub fn take_pending_deliveries(&mut self) -> (r: Vec<GatewayInboxEntry>)
        ensures
            r@ == old(self).pending_deliveries@,
            final(self).pending_deliveries@ == Seq::<GatewayInboxEntry>::empty(),
            *final(self) == (GatewaySessionEngine {
                pending_deliveries: final(self).pending_deliveries,
                ..*old(self)
            }),
    {
        let mut taken: Vec<GatewayInboxEntry> = Vec::new();
        taken.append(&mut self.pending_deliveries);
        assert(taken@ =~= old(self).pending_deliveries@);
        taken
    }

    /// Takes a frame while an inbox is resumed. `delivered` holds what came in so far: the
    /// deliveries that had been set aside, and those that came meanwhile. Each envelope is handed
    /// over once.
    pub fn resume_frame(
        delivered: &mut Vec<GatewayInboxEntry>,
        frame: GatewayServerFrame,
        shown: &str,
    ) -> (r: FrameStep<Vec<GatewayInboxEntry>>)
        ensures
            match frame {
                GatewayServerFrame::Deliver { entry } => r is ReadMore && final(delivered)@ == old(
                    delivered,
                )@.push(entry),
                GatewayServerFrame::InBandWake { target_delivery_id, delivery_class } => r
                    is ReadMore && final(delivered)@ == old(delivered)@,
                GatewayServerFrame::Resume { entries } => r matches FrameStep::Done(all) && all@
                    == deduped(old(delivered)@ + entries@) && final(delivered)@ == Seq::<
                    GatewayInboxEntry,
                >::empty(),
                GatewayServerFrame::Nack { reason } => fails_with(r, reason@) && final(delivered)@
                    == old(delivered)@,
                _ => fails_with(r, "expected resume frame, got "@ + shown@) && final(delivered)@
                    == old(delivered)@,
            },
    {
        match frame {
            GatewayServerFrame::Deliver { entry } => {
                delivered.push(entry);
                FrameStep::ReadMore
            },
            GatewayServerFrame::InBandWake { target_delivery_id, delivery_class } => {
                FrameStep::ReadMore
            },
            GatewayServerFrame::Resume { entries } => {
                let mut entries = entries;
                let mut all: Vec<GatewayInboxEntry> = Vec::new();
                all.append(delivered);
                all.append(&mut entries);
                assert(all@ =~= old(delivered)@ + frame->entries@);
                FrameStep::Done(dedup_gateway_entries(all))
            },
            GatewayServerFrame::Nack { reason } => FrameStep::Failed(
                SdkError::GatewaySessionRejected(reason),
            ),
            _ => refused("expected resume frame, got ", shown),
        }
    }

    /// Takes the first answer to an acknowledgement, which moves the session's place in the inbox.
    pub fn ack_frame(&mut self, frame: GatewayServerFrame, shown: &str) -> (r: Result<
        GatewayCursor,
        SdkError,
    >)
        ensures
            match frame {
                GatewayServerFrame::Ack { cursor } => r == Ok::<GatewayCursor, SdkError>(cursor)
                    && *final(self) == (GatewaySessionEngine {
                    config: GatewaySessionConfig {
                        last_seen_inbox_seq: cursor.inbox_seq,
                        ..old(self).config
                    },
                    ..*old(self)
                }),
                GatewayServerFrame::Nack { reason } => is_rejected(r, reason@) && *final(self)
                    == *old(self),
                _ => is_rejected(r, "expected ack cursor, got "@ + shown@) && *final(self) == *old(
                    self,
                ),
            },
    {
        match frame {
            GatewayServerFrame::Ack { cursor } => {
                self.config.last_seen_inbox_seq = cursor.inbox_seq;
                Ok(cursor)
            },
            GatewayServerFrame::Nack { reason } => Err(SdkError::GatewaySessionRejected(reason)),
            _ => Err(
                SdkError::GatewaySessionRejected("expected ack cursor, got ".to_owned().concat(shown)),
            ),
        }
    }

    /// Takes the second answer to an acknowledgement: the gateway's cursor, where it has one, else
    /// that of the first answer.
    pub fn cursor_after_ack_frame(
        &mut self,
        ack_cursor: GatewayCursor,
        frame: GatewayServerFrame,
        shown: &str,
    ) -> (r: Result<GatewayCursor, SdkError>)
        ensures
            match frame {
                GatewayServerFrame::Cursor { cursor: Some(cursor) } => r == Ok::<
                    GatewayCursor,
                    SdkError,
                >(cursor) && *final(self) == (GatewaySessionEngine {
                    config: GatewaySessionConfig {
                        last_seen_inbox_seq: cursor.inbox_seq,
                        ..old(self).config
                    },
                    ..*old(self)
                }),
                GatewayServerFrame::Cursor { cursor: None } => r == Ok::<GatewayCursor, SdkError>(
                    ack_cursor,
                ) && *final(self) == *old(self),
                GatewayServerFrame::Nack { reason } => is_rejected(r, reason@) && *final(self)
                    == *old(self),
                _ => is_rejected(r, "expected cursor after ack, got "@ + shown@) && *final(self)
                    == *old(self),
            },
    {
        match frame {
            GatewayServerFrame::Cursor { cursor } => match cursor {
                Some(cursor) => {
                    self.config.last_seen_inbox_seq = cursor.inbox_seq;
                    Ok(cursor)
                },
                None => Ok(ack_cursor),
            },
            GatewayServerFrame::Nack { reason } => Err(SdkError::GatewaySessionRejected(reason)),
            _ => Err(
                SdkError::GatewaySessionRejected(
                    "expected cursor after ack, got ".to_owned().concat(shown),
                ),
            ),
        }
    }

    /// The settings with which a session is opened anew from a place in the inbox.
    pub fn prepare_reconnect(&mut self, last_seen_inbox_seq: u64)
        ensures
            *final(self) == (GatewaySessionEngine {
                config: GatewaySessionConfig { last_seen_inbox_seq, ..old(self).config },
                ..*old(self)
            }),
    {
        self.config.last_seen_inbox_seq = last_seen_inbox_seq;
    }
}

/// Takes the answer to a heartbeat.
pub fn heartbeat_frame(frame: GatewayServerFrame, shown: &str) -> (r: Result<(), SdkError>)
    ensures
        match frame {
            GatewayServerFrame::Heartbeat { now } => r is Ok,
            GatewayServerFrame::Nack { reason } => is_rejected(r, reason@),
            _ => is_rejected(r, "expected heartbeat frame, got "@ + shown@),
        },
{
    match frame {
        GatewayServerFrame::Heartbeat { now } => Ok(()),
        GatewayServerFrame::Nack { reason } => Err(SdkError::GatewaySessionRejected(reason)),
        _ => Err(
            SdkError::GatewaySessionRejected("expected heartbeat frame, got ".to_owned().concat(shown)),
        ),
    }
}

/// Whether a session has to be opened anew: unless the heartbeat was answered in time.
pub fn must_reconnect(heartbeat: &Option<Result<(), SdkError>>) -> (r: bool)
    ensures
        r == !(*heartbeat matches Some(Ok(()))),
{
    match heartbeat {
        Some(Ok(())) => false,
        _ => true,
    }
}

/// Takes the answer to a question for the cursor.
pub fn cursor_frame(frame: GatewayServerFrame, shown: &str) -> (r: Result<
    Option<GatewayCursor>,
    SdkError,
>)
    ensures
        match frame {
            GatewayServerFrame::Cursor { cursor } => r == Ok::<Option<GatewayCursor>, SdkError>(
                cursor,
            ),
            GatewayServerFrame::Nack { reason } => is_rejected(r, reason@),
            _ => is_rejected(r, "expected cursor frame, got "@ + shown@),
        },
{
    match frame {
        GatewayServerFrame::Cursor { cursor } => Ok(cursor),
        GatewayServerFrame::Nack { reason } => Err(SdkError::GatewaySessionRejected(reason)),
        _ => Err(
            SdkError::GatewaySessionRejected("expected cursor frame, got ".to_owned().concat(shown)),
        ),
    }
}

/// Takes the answer to an identity registration.
pub fn identity_frame(frame: GatewayServerFrame, shown: &str) -> (r: Result<
    SdkMvp1IdentityRegistrationResponse,
    SdkError,
>)
    ensures
        match frame {
            GatewayServerFrame::IdentityRegistered { response } => r == Ok::<
                SdkMvp1IdentityRegistrationResponse,
                SdkError,
            >(response),
            GatewayServerFrame::Nack { reason } => is_rejected(r, reason@),
            _ => is_rejected(r, "expected identity_registered frame, got "@ + shown@),
        },
{
    match frame {
        GatewayServerFrame::IdentityRegistered { response } => Ok(response),
        GatewayServerFrame::Nack { reason } => Err(SdkError::GatewaySessionRejected(reason)),
        _ => Err(
            SdkError::GatewaySessionRejected(
                "expected identity_registered frame, got ".to_owned().concat(shown),
            ),
        ),
    }
}

/// A registration counts only if it bound the session.
pub fn check_session_bound(response: &SdkMvp1IdentityRegistrationResponse) -> (r: Result<
    (),
    SdkError,
>)
    ensures
        if response.session_bound {
            r is Ok
        } else {
            is_rejected(r, "identity registration did not bind the gateway session"@)
        },
{
    if !response.session_bound {
        return Err(
            SdkError::GatewaySessionRejected(
                "identity registration did not bind the gateway session".to_owned(),
            ),
        );
    }
    Ok(())
}

/// Takes the answer to a publication of prekeys.
pub fn prekey_published_frame(frame: GatewayServerFrame, shown: &str) -> (r: Result<
    SdkMvp1PrekeyResponse,
    SdkError,
>)
    ensures
        match frame {
            GatewayServerFrame::PrekeyPublished { response } => r == Ok::<
                SdkMvp1PrekeyResponse,
                SdkError,
            >(response),
            GatewayServerFrame::Nack { reason } => is_rejected(r, reason@),
            _ => is_rejected(r, "expected prekey_published frame, got "@ + shown@),
        },
{
    match frame {
        GatewayServerFrame::PrekeyPublished { response } => Ok(response),
        GatewayServerFrame::Nack { reason } => Err(SdkError::GatewaySessionRejected(reason)),
        _ => Err(
            SdkError::GatewaySessionRejected(
                "expected prekey_published frame, got ".to_owned().concat(shown),
            ),
        ),
    }
}

/// Takes the answer to a question for prekeys.
pub fn prekey_frame(frame: GatewayServerFrame, shown: &str) -> (r: Result<
    SdkMvp1PrekeyResponse,
    SdkError,
>)
    ensures
        match frame {
            GatewayServerFrame::Prekey { response } => r == Ok::<SdkMvp1PrekeyResponse, SdkError>(
                response,
            ),
            GatewayServerFrame::Nack { reason } => is_rejected(r, reason@),
            _ => is_rejected(r, "expected prekey frame, got "@ + shown@),
        },
{
    match frame {
        GatewayServerFrame::Prekey { response } => Ok(response),
        GatewayServerFrame::Nack { reason } => Err(SdkError::GatewaySessionRejected(reason)),
        _ => Err(
            SdkError::GatewaySessionRejected("expected prekey frame, got ".to_owned().concat(shown)),
        ),
    }
}

/// Takes the answer to a request for a token of the second version.
pub fn relay_token_frame(frame: GatewayServerFrame, shown: &str) -> (r: Result<
    SdkRelayToken,
    SdkError,
>)
    ensures
        match frame {
            GatewayServerFrame::RelayTokenIssued { response } => r == Ok::<SdkRelayToken, SdkError>(
                response.relay_token,
            ),
            GatewayServerFrame::Nack { reason } => is_rejected(r, reason@),
            _ => is_rejected(r, "expected relay_token_issued frame, got "@ + shown@),
        },
{
    match frame {
        GatewayServerFrame::RelayTokenIssued { response } => Ok(response.relay_token),
        GatewayServerFrame::Nack { reason } => Err(SdkError::GatewaySessionRejected(reason)),
        _ => Err(
            SdkError::GatewaySessionRejected(
                "expected relay_token_issued frame, got ".to_owned().concat(shown),
            ),
        ),
    }
}

/// Takes the answer to a request for a token of the third version.
pub fn relay_token_v3_frame(frame: GatewayServerFrame, shown: &str) -> (r: Result<
    RelayTokenV3,
    SdkError,
>)
    ensures
        match frame {
            GatewayServerFrame::RelayTokenV3Issued { relay_token } => r == Ok::<
                RelayTokenV3,
                SdkError,
            >(relay_token),
            GatewayServerFrame::Nack { reason } => is_rejected(r, reason@),
            _ => is_rejected(r, "expected relay_token_v3_issued frame, got "@ + shown@),
        },
{
    match frame {
        GatewayServerFrame::RelayTokenV3Issued { relay_token } => Ok(relay_token),
        GatewayServerFrame::Nack { reason } => Err(SdkError::GatewaySessionRejected(reason)),
        _ => Err(
            SdkError::GatewaySessionRejected(
                "expected relay_token_v3_issued frame, got ".to_owned().concat(shown),
            ),
        ),
    }
}

} // verus!
