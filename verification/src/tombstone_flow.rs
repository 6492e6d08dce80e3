//! The order of the steps in which an object is buried at a relay and then here.
//!
//! The object stays live here until the relay has buried it: only an answer that grants the request
//! lets the burial here begin.
use crate::client::state::RamfluxClient;
use crate::error::{is_denied, SdkError};
use crate::records::AccountDbRequest;
use crate::relay_requests::{
    exchange_step, relay_failure, relay_pool_error_to_sdk, relay_quic_success_body,
    GatewayQuicResponse, RelayQuicRequestError, TombstoneRequest,
};
use crate::text::decimal;
use vstd::prelude::*;

verus! {

/// What is to be done next to bury an object.
#[derive(Clone, Copy, Debug, PartialEq, Eq, Structural)]
pub enum TombstoneStep {
    /// Sign the owner's proof, and ask the gateway for a token.
    IssueToken,
    /// Send the request to the relay.
    SendRequest,
    /// Bury the object here.
    Bury,
    /// Nothing: the object is buried at the relay and here.
    Buried,
    /// Nothing: a step has failed, or nothing could begin.
    Stop,
}

/// What came of a step.
#[derive(Debug, PartialEq, Eq)]
pub enum TombstoneEvent {
    /// Whether a token was issued and the proof of possession signed.
    Token { issued: bool },
    /// What came of sending the request.
    Answer(Result<GatewayQuicResponse, RelayQuicRequestError>),
    /// Whether the object was buried here.
    Burial { succeeded: bool },
}

/// How the burial of an object stands.
#[derive(Clone, Copy, Debug, PartialEq, Eq, Structural)]
pub struct RemoteTombstone {
    pub step: TombstoneStep,
    /// How often the request has been sent.
    pub attempts: u32,
    /// Whether the relay has granted the request.
    pub granted: bool,
}

/// Whether an answer grants the request.
pub open spec fn grants(answer: Result<GatewayQuicResponse, RelayQuicRequestError>) -> bool {
    answer matches Ok(response) && response.status == 200
}

/// Whether one of the events is an answer that grants the request.
pub open spec fn granted_among(events: Seq<TombstoneEvent>) -> bool {
    exists|i: int|
        0 <= i < events.len() && (#[trigger] events[i] matches TombstoneEvent::Answer(answer)
            && grants(answer))
}

impl RemoteTombstone {
    /// The state before the first step, by whether the burial may begin.
    pub open spec fn fresh(may_begin: bool) -> RemoteTombstone {
        RemoteTombstone {
            step: if may_begin {
                TombstoneStep::IssueToken
            } else {
                TombstoneStep::Stop
            },
            attempts: 1,
            granted: false,
        }
    }

    /// The state after a step.
    pub open spec fn after(self, event: TombstoneEvent) -> RemoteTombstone {
        match (self.step, event) {
            (TombstoneStep::Buried, _) => self,
            (TombstoneStep::Stop, _) => self,
            (TombstoneStep::IssueToken, TombstoneEvent::Token { issued }) => RemoteTombstone {
                step: if issued {
                    TombstoneStep::SendRequest
                } else {
                    TombstoneStep::Stop
                },
                ..self
            },
            (TombstoneStep::SendRequest, TombstoneEvent::Answer(answer)) => if grants(answer) {
                RemoteTombstone { step: TombstoneStep::Bury, granted: true, ..self }
            } else if exchange_step(self.attempts, answer) is SendAgain {
                RemoteTombstone { attempts: 2, ..self }
            } else {
                RemoteTombstone { step: TombstoneStep::Stop, ..self }
            },
            (TombstoneStep::Bury, TombstoneEvent::Burial { succeeded }) => RemoteTombstone {
                step: if succeeded {
                    TombstoneStep::Buried
                } else {
                    TombstoneStep::Stop
                },
                ..self
            },
            _ => RemoteTombstone { step: TombstoneStep::Stop, ..self },
        }
    }

    /// The state after a run of steps.
    pub open spec fn run(self, events: Seq<TombstoneEvent>) -> RemoteTombstone
        decreases events.len(),
    {
        if events.len() == 0 {
            self
        } else {
            self.run(events.drop_last()).after(events.last())
        }
    }

    /// Starts with a request. One that could not be made buries nothing.
    pub fn start(request: &Result<TombstoneRequest, SdkError>) -> (r: RemoteTombstone)
        ensures
            r == RemoteTombstone::fresh(request is Ok),
    {
        RemoteTombstone {
            step: match request {
                Ok(_) => TombstoneStep::IssueToken,
                Err(_) => TombstoneStep::Stop,
            },
            attempts: 1,
            granted: false,
        }
    }

    /// Takes note of what came of a step.
    pub fn advance(&mut self, event: &TombstoneEvent)
        ensures
            *final(self) == old(self).after(*event),
    {
        match (self.step, event) {
            (TombstoneStep::Buried, _) => {},
            (TombstoneStep::Stop, _) => {},
            (TombstoneStep::IssueToken, TombstoneEvent::Token { issued }) => {
                self.step = if *issued {
                    TombstoneStep::SendRequest
                } else {
                    TombstoneStep::Stop
                };
            },
            (TombstoneStep::SendRequest, TombstoneEvent::Answer(answer)) => match answer {
                Ok(response) => {
                    if response.status == 200 {
                        self.granted = true;
                        self.step = TombstoneStep::Bury;
                    } else {
                        self.step = TombstoneStep::Stop;
                    }
                },
                Err(error) => {
                    if error.is_reconnect_retryable() && self.attempts == 1 {
                        self.attempts = 2;
                    } else {
                        self.step = TombstoneStep::Stop;
                    }
                },
            },
            (TombstoneStep::Bury, TombstoneEvent::Burial { succeeded }) => {
                self.step = if *succeeded {
                    TombstoneStep::Buried
                } else {
                    TombstoneStep::Stop
                };
            },
            _ => {
                self.step = TombstoneStep::Stop;
            },
        }
    }
}

/// What an answer that ends the exchange with a relay is an error for, if it does not grant the
/// request.
pub open spec fn is_refusal(
    r: Result<Option<AccountDbRequest>, SdkError>,
    answer: Result<GatewayQuicResponse, RelayQuicRequestError>,
) -> bool {
    match answer {
        Ok(response) => response.status != 200 && is_denied(
            r,
            "relay v3 request rejected with HTTP status "@ + decimal(response.status as nat)
                + ": "@ + response.body@,
        ),
        Err(error) => r == Err::<Option<AccountDbRequest>, SdkError>(relay_failure(error)),
    }
}

/// Whether `request` is what is written when an object is buried here.
pub open spec fn buries(
    client: RamfluxClient,
    request: Option<AccountDbRequest>,
    object_id: Seq<char>,
) -> bool {
    if client.unlocked() {
        request matches Some(AccountDbRequest::SetObjectTombstoned { object_id: o }) && o@
            == object_id
    } else {
        request is None
    }
}

impl RamfluxClient {
    /// What the answer that ended the exchange with the relay means for the object here. It is
    /// buried, and that is written if an account is unlocked, exactly when the relay granted the
    /// request; any other answer is an error, and the object stays live.
    pub fn tombstone_answered(
        &self,
        object_id: &str,
        answer: Result<GatewayQuicResponse, RelayQuicRequestError>,
    ) -> (r: Result<Option<AccountDbRequest>, SdkError>)
        ensures
            r is Ok <==> grants(answer),
            match r {
                Ok(request) => buries(*self, request, object_id@),
                Err(error) => is_refusal(r, answer),
            },
    {
        match answer {
            Ok(response) => match relay_quic_success_body(response) {
                Ok(_) => Ok(self.tombstone_object(object_id)),
                Err(error) => Err(error),
            },
            Err(error) => Err(relay_pool_error_to_sdk(error)),
        }
    }
}

proof fn lemma_tombstone_run(may_begin: bool, events: Seq<TombstoneEvent>)
    ensures
        ({
            let s = RemoteTombstone::fresh(may_begin).run(events);
            &&& s.step is Bury || s.step is Buried ==> s.granted
            &&& s.granted ==> may_begin && granted_among(events)
            &&& !may_begin ==> s.step is Stop
            &&& 1 <= s.attempts <= 2
        }),
    decreases events.len(),
{
    if events.len() > 0 {
        let before = events.drop_last();
        lemma_tombstone_run(may_begin, before);
        let s = RemoteTombstone::fresh(may_begin).run(before);
        if s.granted {
            let i = choose|i: int|
                0 <= i < before.len() && (#[trigger] before[i] matches TombstoneEvent::Answer(answer)
                    && grants(answer));
            assert(events[i] == before[i]);
        }
        assert(events[events.len() - 1] == events.last());
    }
}

/// No run buries the object here unless the burial might begin and the relay has answered the request
/// with status 200: in every other run the object stays live.
pub proof fn law_object_is_buried_only_after_the_relay(may_begin: bool, events: Seq<TombstoneEvent>)
    ensures
        ({
            let s = RemoteTombstone::fresh(may_begin).run(events);
            s.step is Bury || s.step is Buried ==> may_begin && granted_among(events)
        }),
{
    lemma_tombstone_run(may_begin, events);
}

/// An answer that does not grant the request, and does not let it be sent again, ends the burial for
/// good: nothing that follows buries the object here.
pub proof fn law_refused_object_stays_live(
    may_begin: bool,
    before: Seq<TombstoneEvent>,
    answer: Result<GatewayQuicResponse, RelayQuicRequestError>,
    behind: Seq<TombstoneEvent>,
)
    requires
        RemoteTombstone::fresh(may_begin).run(before).step is SendRequest,
        !grants(answer),
        !(exchange_step(RemoteTombstone::fresh(may_begin).run(before).attempts, answer)
            is SendAgain),
    ensures
        RemoteTombstone::fresh(may_begin).run(before).after(TombstoneEvent::Answer(answer)).run(
            behind,
        ).step is Stop,
    decreases behind.len(),
{
    if behind.len() > 0 {
        law_refused_object_stays_live(may_begin, before, answer, behind.drop_last());
    }
}

/// The request to bury an object is sent at most twice.
pub proof fn law_burial_is_asked_for_at_most_twice(may_begin: bool, events: Seq<TombstoneEvent>)
    ensures
        RemoteTombstone::fresh(may_begin).run(events).attempts <= 2,
{
    lemma_tombstone_run(may_begin, events);
}

} // verus!
