//! The order of the steps in which a direct message is sent, and in which one is taken in.
//!
//! Both orders keep a session safe against a crash: a key is never used twice for sending, and a
//! message that has not been taken in completely can be decrypted again.
use vstd::prelude::*;

verus! {

// ---- taking a message in ----

/// What is known of an entry before it is decrypted.
#[derive(Clone, Copy, Debug, PartialEq, Eq, Structural)]
pub enum ReceiveTerminalDecision {
    /// Everything is done but the cursor.
    CursorCatchUp,
    /// The entry has to be decrypted.
    Decrypt,
}

/// Decides whether an entry has to be decrypted. What counts is the checkpoint of the receiving
/// session: a message that is already listed may have been written before the session was.
pub fn receive_terminal_recovery(projection_present: bool, session_checkpoint_current: bool) -> (r:
    ReceiveTerminalDecision)
    ensures
        r == (if session_checkpoint_current {
            ReceiveTerminalDecision::CursorCatchUp
        } else {
            ReceiveTerminalDecision::Decrypt
        }),
{
    let _ = projection_present;
    if session_checkpoint_current {
        ReceiveTerminalDecision::CursorCatchUp
    } else {
        ReceiveTerminalDecision::Decrypt
    }
}

/// What is to be done next with an entry of the inbox.
#[derive(Clone, Copy, Debug, PartialEq, Eq, Structural)]
pub enum ReceiveStep {
    /// Record the envelope as it came.
    AppendDelivery,
    /// Look up whether the message is listed, and whether the session's checkpoint is at it.
    LookUp,
    /// Decode the payload, and decrypt it with the session or with a new one.
    Decrypt,
    /// Carry out what the plaintext asks for as a contact's event.
    ApplyContactEvent,
    /// Carry out what the plaintext says as a receipt.
    ApplyReceipt,
    /// Look up whether messages of this sender are turned away.
    CheckSender,
    /// Record that the message was turned away.
    RejectMessage,
    /// Read the body, its attachments and what is kept for a report.
    DecodeBody,
    /// Fetch the attachment with this number.
    ImportAttachment(usize),
    /// List the message.
    AppendProjection,
    /// Keep the session as it stands after decrypting.
    CommitSession,
    /// Keep how far the inbox has been taken in.
    PersistCursor,
    /// Hand the message out.
    Deliver,
    /// Nothing: the entry is done, and is not handed out.
    Skip,
    /// Nothing: a step has failed.
    Stop,
}

/// What came of a step.
#[derive(Clone, Copy, Debug, PartialEq, Eq, Structural)]
pub enum ReceiveEvent {
    /// The step succeeded, and there is no more to say.
    Done,
    LookedUp { projection_present: bool, session_checkpoint_current: bool },
    /// Whether the plaintext was a receipt.
    Receipt { applied: bool },
    /// Whether messages of this sender are turned away.
    Sender { turned_away: bool },
    /// How many attachments the body has.
    Body { attachments: usize },
    /// The step failed.
    Failed,
}

/// How the taking in of one entry stands.
#[derive(Clone, Copy, Debug, PartialEq, Eq, Structural)]
pub struct DmReceive {
    pub step: ReceiveStep,
    pub auto_fetch_attachments: bool,
    pub attachments: usize,
    /// Whether the message is to be handed out.
    pub deliver: bool,
    /// Whether the session's checkpoint was at the entry from the start.
    pub checkpoint_current: bool,
    pub session_committed: bool,
    pub cursor_persisted: bool,
}

impl DmReceive {
    /// The state after a step.
    pub open spec fn after(self, event: ReceiveEvent) -> DmReceive {
        let stopped = DmReceive { step: ReceiveStep::Stop, ..self };
        match (self.step, event) {
            (ReceiveStep::AppendDelivery, ReceiveEvent::Done) => DmReceive {
                step: ReceiveStep::LookUp,
                ..self
            },
            (
                ReceiveStep::LookUp,
                ReceiveEvent::LookedUp { projection_present, session_checkpoint_current },
            ) => if session_checkpoint_current {
                DmReceive { step: ReceiveStep::PersistCursor, checkpoint_current: true, ..self }
            } else {
                DmReceive { step: ReceiveStep::Decrypt, ..self }
            },
            (ReceiveStep::Decrypt, ReceiveEvent::Done) => DmReceive {
                step: ReceiveStep::ApplyContactEvent,
                ..self
            },
            (ReceiveStep::ApplyContactEvent, ReceiveEvent::Done) => DmReceive {
                step: ReceiveStep::ApplyReceipt,
                ..self
            },
            (ReceiveStep::ApplyReceipt, ReceiveEvent::Receipt { applied }) => DmReceive {
                step: if applied {
                    ReceiveStep::CommitSession
                } else {
                    ReceiveStep::CheckSender
                },
                ..self
            },
            (ReceiveStep::CheckSender, ReceiveEvent::Sender { turned_away }) => DmReceive {
                step: if turned_away {
                    ReceiveStep::RejectMessage
                } else {
                    ReceiveStep::DecodeBody
                },
                ..self
            },
            (ReceiveStep::RejectMessage, ReceiveEvent::Done) => DmReceive {
                step: ReceiveStep::CommitSession,
                ..self
            },
            (ReceiveStep::DecodeBody, ReceiveEvent::Body { attachments }) => DmReceive {
                step: if self.auto_fetch_attachments && attachments > 0 {
                    ReceiveStep::ImportAttachment(0)
                } else {
                    ReceiveStep::AppendProjection
                },
                attachments,
                deliver: true,
                ..self
            },
            (ReceiveStep::ImportAttachment(i), ReceiveEvent::Done) => DmReceive {
                step: if i + 1 < self.attachments {
                    ReceiveStep::ImportAttachment((i + 1) as usize)
                } else {
                    ReceiveStep::AppendProjection
                },
                ..self
            },
            (ReceiveStep::AppendProjection, ReceiveEvent::Done) => DmReceive {
                step: ReceiveStep::CommitSession,
                ..self
            },
            (ReceiveStep::CommitSession, ReceiveEvent::Done) => DmReceive {
                step: ReceiveStep::PersistCursor,
                session_committed: true,
                ..self
            },
            (ReceiveStep::PersistCursor, ReceiveEvent::Done) => DmReceive {
                step: if self.deliver {
                    ReceiveStep::Deliver
                } else {
                    ReceiveStep::Skip
                },
                cursor_persisted: true,
                ..self
            },
            (ReceiveStep::Deliver, _) => self,
            (ReceiveStep::Skip, _) => self,
            _ => stopped,
        }
    }

    /// The state before the first step.
    pub open spec fn fresh(auto_fetch_attachments: bool) -> DmReceive {
        DmReceive {
            step: ReceiveStep::AppendDelivery,
            auto_fetch_attachments,
            attachments: 0,
            deliver: false,
            checkpoint_current: false,
            session_committed: false,
            cursor_persisted: false,
        }
    }

    /// The state after a run of steps.
    pub open spec fn run(self, events: Seq<ReceiveEvent>) -> DmReceive
        decreases events.len(),
    {
        if events.len() == 0 {
            self
        } else {
            self.run(events.drop_last()).after(events.last())
        }
    }

    /// Whether the state is one that a run from the start can reach.
    pub open spec fn well_formed(self) -> bool {
        &&& self.cursor_persisted ==> self.checkpoint_current || self.session_committed
        &&& self.step is PersistCursor ==> self.checkpoint_current || self.session_committed
        &&& self.step is Deliver || self.step is Skip ==> self.cursor_persisted
        &&& self.step is Deliver ==> self.deliver
        &&& self.step is Skip ==> !self.deliver
        &&& self.step is ImportAttachment ==> self.auto_fetch_attachments
            && self.step->ImportAttachment_0 < self.attachments && self.deliver
        &&& self.step is AppendProjection ==> self.deliver
        &&& self.checkpoint_current ==> !self.session_committed && !self.deliver
        &&& self.session_committed ==> self.step is PersistCursor || self.step is Deliver
            || self.step is Skip || self.step is Stop
        &&& self.cursor_persisted ==> self.step is Deliver || self.step is Skip
        &&& self.checkpoint_current ==> self.step is PersistCursor || self.step is Skip
            || self.step is Stop
        &&& self.deliver ==> self.step is ImportAttachment || self.step is AppendProjection
            || self.step is CommitSession || self.step is PersistCursor || self.step is Deliver
            || self.step is Stop
    }

    /// Starts with an entry.
    pub fn start(auto_fetch_attachments: bool) -> (r: DmReceive)
        ensures
            r == DmReceive::fresh(auto_fetch_attachments),
            r.well_formed(),
    {
        DmReceive {
            step: ReceiveStep::AppendDelivery,
            auto_fetch_attachments,
            attachments: 0,
            deliver: false,
            checkpoint_current: false,
            session_committed: false,
            cursor_persisted: false,
        }
    }

    /// Takes note of what came of a step. Anything that the step cannot have given counts as a
    /// failure.
    pub fn advance(&mut self, event: ReceiveEvent)
        requires
            old(self).well_formed(),
        ensures
            *final(self) == old(self).after(event),
            final(self).well_formed(),
    {
        match (self.step, event) {
            (ReceiveStep::AppendDelivery, ReceiveEvent::Done) => {
                self.step = ReceiveStep::LookUp;
            },
            (
                ReceiveStep::LookUp,
                ReceiveEvent::LookedUp { projection_present, session_checkpoint_current },
            ) => {
                match receive_terminal_recovery(projection_present, session_checkpoint_current) {
                    ReceiveTerminalDecision::CursorCatchUp => {
                        self.checkpoint_current = true;
                        self.step = ReceiveStep::PersistCursor;
                    },
                    ReceiveTerminalDecision::Decrypt => {
                        self.step = ReceiveStep::Decrypt;
                    },
                }
            },
            (ReceiveStep::Decrypt, ReceiveEvent::Done) => {
                self.step = ReceiveStep::ApplyContactEvent;
            },
            (ReceiveStep::ApplyContactEvent, ReceiveEvent::Done) => {
                self.step = ReceiveStep::ApplyReceipt;
            },
            (ReceiveStep::ApplyReceipt, ReceiveEvent::Receipt { applied }) => {
                self.step = if applied {
                    ReceiveStep::CommitSession
                } else {
                    ReceiveStep::CheckSender
                };
            },
            (ReceiveStep::CheckSender, ReceiveEvent::Sender { turned_away }) => {
                self.step = if turned_away {
                    ReceiveStep::RejectMessage
                } else {
                    ReceiveStep::DecodeBody
                };
            },
            (ReceiveStep::RejectMessage, ReceiveEvent::Done) => {
                self.step = ReceiveStep::CommitSession;
            },
            (ReceiveStep::DecodeBody, ReceiveEvent::Body { attachments }) => {
                self.attachments = attachments;
                self.deliver = true;
                self.step = if self.auto_fetch_attachments && attachments > 0 {
                    ReceiveStep::ImportAttachment(0)
                } else {
                    ReceiveStep::AppendProjection
                };
            },
            (ReceiveStep::ImportAttachment(i), ReceiveEvent::Done) => {
                self.step = if i + 1 < self.attachments {
                    ReceiveStep::ImportAttachment(i + 1)
                } else {
                    ReceiveStep::AppendProjection
                };
            },
            (ReceiveStep::AppendProjection, ReceiveEvent::Done) => {
                self.step = ReceiveStep::CommitSession;
            },
            (ReceiveStep::CommitSession, ReceiveEvent::Done) => {
                self.session_committed = true;
                self.step = ReceiveStep::PersistCursor;
            },
            (ReceiveStep::PersistCursor, ReceiveEvent::Done) => {
                self.cursor_persisted = true;
                self.step = if self.deliver {
                    ReceiveStep::Deliver
                } else {
                    ReceiveStep::Skip
                };
            },
            (ReceiveStep::Deliver, _) => {},
            (ReceiveStep::Skip, _) => {},
            _ => {
                self.step = ReceiveStep::Stop;
            },
        }
    }
}

/// Every run from the start keeps the state well formed.
pub proof fn law_receive_runs_are_well_formed(auto_fetch_attachments: bool, events: Seq<ReceiveEvent>)
    ensures
        DmReceive::fresh(auto_fetch_attachments).run(events).well_formed(),
        DmReceive::fresh(auto_fetch_attachments).run(events).auto_fetch_attachments
            == auto_fetch_attachments,
    decreases events.len(),
{
    if events.len() > 0 {
        law_receive_runs_are_well_formed(auto_fetch_attachments, events.drop_last());
    }
}

/// The cursor never passes an entry whose session has not been kept: in every run, the cursor moves
/// only if the session was kept before, or was at the entry from the start.
pub proof fn law_cursor_follows_session(auto_fetch_attachments: bool, events: Seq<ReceiveEvent>)
    ensures
        ({
            let s = DmReceive::fresh(auto_fetch_attachments).run(events);
            s.cursor_persisted || s.step is PersistCursor ==> s.checkpoint_current
                || s.session_committed
        }),
{
    law_receive_runs_are_well_formed(auto_fetch_attachments, events);
}

/// A failed step leaves the session and the cursor as they are for good, so that the same message
/// can be decrypted again: once a step has failed, no run keeps a session or moves the cursor.
pub proof fn law_failure_keeps_session_and_cursor(
    auto_fetch_attachments: bool,
    before: Seq<ReceiveEvent>,
    behind: Seq<ReceiveEvent>,
)
    requires
        !(DmReceive::fresh(auto_fetch_attachments).run(before).step is Deliver),
        !(DmReceive::fresh(auto_fetch_attachments).run(before).step is Skip),
    ensures
        ({
            let s = DmReceive::fresh(auto_fetch_attachments).run(before);
            let t = s.after(ReceiveEvent::Failed).run(behind);
            t == (DmReceive { step: ReceiveStep::Stop, ..s }) && !t.cursor_persisted
                && t.session_committed == s.session_committed
        }),
    decreases behind.len(),
{
    law_receive_runs_are_well_formed(auto_fetch_attachments, before);
    if behind.len() > 0 {
        law_failure_keeps_session_and_cursor(auto_fetch_attachments, before, behind.drop_last());
    }
}

/// How many steps of the run took in an attachment.
pub open spec fn imports(s: DmReceive, events: Seq<ReceiveEvent>) -> nat
    decreases events.len(),
{
    if events.len() == 0 {
        0
    } else {
        let before = s.run(events.drop_last());
        imports(s, events.drop_last()) + if before.step is ImportAttachment
            && events.last() is Done {
            1nat
        } else {
            0nat
        }
    }
}

/// Whether the run has listed the message.
pub open spec fn projected(s: DmReceive, events: Seq<ReceiveEvent>) -> bool
    decreases events.len(),
{
    events.len() > 0 && (projected(s, events.drop_last()) || (s.run(
        events.drop_last(),
    ).step is AppendProjection && events.last() is Done))
}

proof fn lemma_run_progress(auto_fetch_attachments: bool, events: Seq<ReceiveEvent>)
    ensures
        ({
            let start = DmReceive::fresh(auto_fetch_attachments);
            let s = start.run(events);
            let wanted = if auto_fetch_attachments {
                s.attachments as nat
            } else {
                0
            };
            &&& s.step is ImportAttachment ==> imports(start, events)
                == s.step->ImportAttachment_0
            &&& s.step is AppendProjection ==> imports(start, events) == wanted
            &&& !s.deliver && !(s.step is Stop) ==> imports(start, events) == 0
            &&& s.deliver && (s.step is CommitSession || s.step is PersistCursor
                || s.step is Deliver) ==> projected(start, events) && imports(start, events)
                == wanted
            &&& s.session_committed && s.deliver ==> projected(start, events) && imports(
                start,
                events,
            ) == wanted
        }),
    decreases events.len(),
{
    law_receive_runs_are_well_formed(auto_fetch_attachments, events);
    if events.len() > 0 {
        lemma_run_progress(auto_fetch_attachments, events.drop_last());
        law_receive_runs_are_well_formed(auto_fetch_attachments, events.drop_last());
    }
}

/// Of a message that is to be handed out, the session is kept only once the message has been listed
/// and, where attachments are fetched, every one of them has been taken in.
pub proof fn law_session_follows_attachments(
    auto_fetch_attachments: bool,
    events: Seq<ReceiveEvent>,
)
    ensures
        ({
            let start = DmReceive::fresh(auto_fetch_attachments);
            let s = start.run(events);
            s.deliver && s.session_committed ==> projected(start, events) && imports(start, events)
                == if auto_fetch_attachments {
                s.attachments as nat
            } else {
                0nat
            }
        }),
{
    lemma_run_progress(auto_fetch_attachments, events);
}

// ---- taking a control event in ----

/// What is to be done next with an entry that holds a control event.
#[derive(Clone, Copy, Debug, PartialEq, Eq, Structural)]
pub enum ControlStep {
    /// Record the envelope as it came.
    AppendDelivery,
    /// Decode the payload, and decrypt it with the session or with a new one.
    Decrypt,
    /// Read the plaintext as a control event.
    ReadEvent,
    /// Keep the session as it stands after decrypting.
    CommitSession,
    /// Keep how far the inbox has been taken in.
    PersistCursor,
    /// Hand the event out.
    Deliver,
    /// Nothing: a step has failed.
    Stop,
}

impl ControlStep {
    /// The step behind this one.
    pub open spec fn after(self, succeeded: bool) -> ControlStep {
        match self {
            ControlStep::Deliver => ControlStep::Deliver,
            _ => if !succeeded {
                ControlStep::Stop
            } else {
                match self {
                    ControlStep::AppendDelivery => ControlStep::Decrypt,
                    ControlStep::Decrypt => ControlStep::ReadEvent,
                    ControlStep::ReadEvent => ControlStep::CommitSession,
                    ControlStep::CommitSession => ControlStep::PersistCursor,
                    ControlStep::PersistCursor => ControlStep::Deliver,
                    ControlStep::Deliver => ControlStep::Deliver,
                    ControlStep::Stop => ControlStep::Stop,
                }
            },
        }
    }

    /// The step behind this one.
    pub fn advanced(self, succeeded: bool) -> (r: ControlStep)
        ensures
            r == self.after(succeeded),
    {
        match self {
            ControlStep::Deliver => ControlStep::Deliver,
            ControlStep::Stop => ControlStep::Stop,
            _ if !succeeded => ControlStep::Stop,
            ControlStep::AppendDelivery => ControlStep::Decrypt,
            ControlStep::Decrypt => ControlStep::ReadEvent,
            ControlStep::ReadEvent => ControlStep::CommitSession,
            ControlStep::CommitSession => ControlStep::PersistCursor,
            ControlStep::PersistCursor => ControlStep::Deliver,
        }
    }

    /// The step after a run of steps from the start.
    pub open spec fn run(outcomes: Seq<bool>) -> ControlStep
        decreases outcomes.len(),
    {
        if outcomes.len() == 0 {
            ControlStep::AppendDelivery
        } else {
            ControlStep::run(outcomes.drop_last()).after(outcomes.last())
        }
    }

    /// Whether the session has been kept in a run from the start.
    pub open spec fn committed(outcomes: Seq<bool>) -> bool
        decreases outcomes.len(),
    {
        outcomes.len() > 0 && (ControlStep::committed(outcomes.drop_last()) || (ControlStep::run(
            outcomes.drop_last(),
        ) is CommitSession && outcomes.last()))
    }
}

/// In every run the cursor passes a control event only after the session has been kept.
pub proof fn law_control_cursor_follows_session(outcomes: Seq<bool>)
    ensures
        ControlStep::run(outcomes) is PersistCursor || ControlStep::run(outcomes) is Deliver
            ==> ControlStep::committed(outcomes),
    decreases outcomes.len(),
{
    if outcomes.len() > 0 {
        law_control_cursor_follows_session(outcomes.drop_last());
    }
}

// ---- sending a message ----

/// What is to be done next to send a message.
#[derive(Clone, Copy, Debug, PartialEq, Eq, Structural)]
pub enum SendStep {
    /// Encrypt the message, which moves the session on.
    Encrypt,
    /// List the message.
    Project,
    /// Keep the session as it stands after encrypting.
    PersistSession,
    /// Submit the envelope.
    Submit,
    /// Nothing: the message is sent.
    Sent,
    /// Nothing: a step has failed.
    Stop,
}

/// How the sending of one message stands.
#[derive(Clone, Copy, Debug, PartialEq, Eq, Structural)]
pub struct DmSend {
    pub step: SendStep,
    /// Whether the message is listed; a receipt is not.
    pub listed: bool,
    pub session_persisted: bool,
}

impl DmSend {
    /// The state before the first step.
    pub open spec fn fresh(listed: bool) -> DmSend {
        DmSend { step: SendStep::Encrypt, listed, session_persisted: false }
    }

    /// The state after a step.
    pub open spec fn after(self, succeeded: bool) -> DmSend {
        match self.step {
            SendStep::Sent => self,
            SendStep::Stop => self,
            _ => if !succeeded {
                DmSend { step: SendStep::Stop, ..self }
            } else {
                match self.step {
                    SendStep::Encrypt => DmSend {
                        step: if self.listed {
                            SendStep::Project
                        } else {
                            SendStep::PersistSession
                        },
                        ..self
                    },
                    SendStep::Project => DmSend { step: SendStep::PersistSession, ..self },
                    SendStep::PersistSession => DmSend {
                        step: SendStep::Submit,
                        session_persisted: true,
                        ..self
                    },
                    _ => DmSend { step: SendStep::Sent, ..self },
                }
            },
        }
    }

    /// The state after a run of steps.
    pub open spec fn run(self, outcomes: Seq<bool>) -> DmSend
        decreases outcomes.len(),
    {
        if outcomes.len() == 0 {
            self
        } else {
            self.run(outcomes.drop_last()).after(outcomes.last())
        }
    }

    /// Starts with a message.
    pub fn start(listed: bool) -> (r: DmSend)
        ensures
            r == DmSend::fresh(listed),
    {
        DmSend { step: SendStep::Encrypt, listed, session_persisted: false }
    }

    /// Takes note of whether a step succeeded.
    pub fn advance(&mut self, succeeded: bool)
        ensures
            *final(self) == old(self).after(succeeded),
    {
        match self.step {
            SendStep::Sent => {},
            SendStep::Stop => {},
            SendStep::Encrypt => {
                self.step = if !succeeded {
                    SendStep::Stop
                } else if self.listed {
                    SendStep::Project
                } else {
                    SendStep::PersistSession
                };
            },
            SendStep::Project => {
                self.step = if succeeded {
                    SendStep::PersistSession
                } else {
                    SendStep::Stop
                };
            },
            SendStep::PersistSession => {
                if succeeded {
                    self.session_persisted = true;
                    self.step = SendStep::Submit;
                } else {
                    self.step = SendStep::Stop;
                }
            },
            SendStep::Submit => {
                self.step = if succeeded {
                    SendStep::Sent
                } else {
                    SendStep::Stop
                };
            },
        }
    }
}

/// A session is kept before anything that it encrypted leaves: in every run, an envelope is
/// submitted only after the session has been kept, so that its key is not used again.
pub proof fn law_session_is_kept_before_submit(listed: bool, outcomes: Seq<bool>)
    ensures
        ({
            let s = DmSend::fresh(listed).run(outcomes);
            s.step is Submit || s.step is Sent ==> s.session_persisted
        }),
    decreases outcomes.len(),
{
    if outcomes.len() > 0 {
        law_session_is_kept_before_submit(listed, outcomes.drop_last());
    }
}

} // verus!
