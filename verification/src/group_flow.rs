//! The order of the steps in which an envelope to a group is taken in, and a message is sent to one.
//!
//! A member's key is kept before a message that it encrypted is handed out.
//! A message is handed out once: only after its counter was recorded anew and its sender's key was
//! kept. A message whose key is not there yet is set aside, and tried again when the key comes.
use vstd::prelude::*;

verus! {

/// What is to be done next with an envelope to a group.
#[derive(Clone, Copy, Debug, PartialEq, Eq, Structural)]
pub enum GroupStep {
    /// Record the envelope as it came.
    AppendDelivery,
    /// Decode the payload, and see whether it is a message or a member's key.
    Classify,
    /// Look up whether the message is listed, or its counter has come before.
    LookUp,
    /// Check the message's form, and load its sender's key.
    LoadKey,
    /// Decrypt the message, which moves the key on in memory.
    Decrypt,
    /// Record the message's counter.
    RecordCounter,
    /// Keep the key as it stands after decrypting.
    PersistKey,
    /// List the message.
    List,
    /// Take the message off those that are set aside.
    Settle,
    /// Set the message aside until its key comes.
    SetAside,
    /// Decrypt a member's key.
    DecryptDistribution,
    /// Keep the session that a member's key came with.
    PersistSession,
    /// Check the form of a member's key.
    CheckWrapper,
    /// Keep a member's key.
    ImportKey,
    /// Hand the message out.
    Deliver,
    /// Nothing: the message is done with for now, and is not handed out.
    Skip,
    /// Nothing: a member's key has been taken in.
    KeyTaken,
    /// Nothing: a step has failed.
    Stop,
}

/// What came of a step.
#[derive(Clone, Copy, Debug, PartialEq, Eq, Structural)]
pub enum GroupStepEvent {
    /// The step succeeded, and there is no more to say.
    Done,
    /// Whether the payload is a message.
    Payload { message: bool },
    /// Whether the message is listed, or its counter has come before.
    LookedUp { known: bool },
    /// Whether the counter had not come before.
    Recorded { anew: bool },
    /// The step failed, and whether that is because a sender's key is not there.
    Failed { key_missing: bool },
}

/// How the taking in of an envelope to a group stands.
#[derive(Clone, Copy, Debug, PartialEq, Eq, Structural)]
pub struct GroupReceive {
    pub step: GroupStep,
    /// Whether the message had been set aside, and is tried again.
    pub retrying: bool,
    /// Whether the message was listed, or its counter had come before.
    pub known: bool,
    pub counter_recorded: bool,
    pub key_persisted: bool,
    pub listed: bool,
    pub settled: bool,
    pub set_aside: bool,
}

impl GroupReceive {
    /// The state before the first step.
    pub open spec fn fresh(retrying: bool) -> GroupReceive {
        GroupReceive {
            step: if retrying {
                GroupStep::LookUp
            } else {
                GroupStep::AppendDelivery
            },
            retrying,
            known: false,
            counter_recorded: false,
            key_persisted: false,
            listed: false,
            settled: false,
            set_aside: false,
        }
    }

    /// Whether nothing is left to do.
    pub open spec fn ended(self) -> bool {
        self.step is Deliver || self.step is Skip || self.step is KeyTaken || self.step is Stop
    }

    /// Whether a key that is not there is told apart from other failures at this step.
    pub open spec fn decrypting(self) -> bool {
        self.step is LoadKey || self.step is Decrypt || self.step is RecordCounter
            || self.step is PersistKey
    }

    /// The state after a step.
    pub open spec fn after(self, event: GroupStepEvent) -> GroupReceive {
        if self.ended() {
            self
        } else {
            match (self.step, event) {
                (_, GroupStepEvent::Failed { key_missing }) => GroupReceive {
                    step: if key_missing && self.decrypting() {
                        if self.retrying {
                            GroupStep::Skip
                        } else {
                            GroupStep::SetAside
                        }
                    } else {
                        GroupStep::Stop
                    },
                    ..self
                },
                (GroupStep::AppendDelivery, GroupStepEvent::Done) => GroupReceive {
                    step: GroupStep::Classify,
                    ..self
                },
                (GroupStep::Classify, GroupStepEvent::Payload { message }) => GroupReceive {
                    step: if message {
                        GroupStep::LookUp
                    } else {
                        GroupStep::DecryptDistribution
                    },
                    ..self
                },
                (GroupStep::LookUp, GroupStepEvent::LookedUp { known }) => GroupReceive {
                    step: if known {
                        GroupStep::Settle
                    } else {
                        GroupStep::LoadKey
                    },
                    known,
                    ..self
                },
                (GroupStep::LoadKey, GroupStepEvent::Done) => GroupReceive {
                    step: GroupStep::Decrypt,
                    ..self
                },
                (GroupStep::Decrypt, GroupStepEvent::Done) => GroupReceive {
                    step: GroupStep::RecordCounter,
                    ..self
                },
                (GroupStep::RecordCounter, GroupStepEvent::Recorded { anew }) => GroupReceive {
                    step: if anew {
                        GroupStep::PersistKey
                    } else {
                        GroupStep::Stop
                    },
                    counter_recorded: anew,
                    ..self
                },
                (GroupStep::PersistKey, GroupStepEvent::Done) => GroupReceive {
                    step: GroupStep::List,
                    key_persisted: true,
                    ..self
                },
                (GroupStep::List, GroupStepEvent::Done) => GroupReceive {
                    step: GroupStep::Settle,
                    listed: true,
                    ..self
                },
                (GroupStep::Settle, GroupStepEvent::Done) => GroupReceive {
                    step: if self.known {
                        GroupStep::Skip
                    } else {
                        GroupStep::Deliver
                    },
                    settled: true,
                    ..self
                },
                (GroupStep::SetAside, GroupStepEvent::Done) => GroupReceive {
                    step: GroupStep::Skip,
                    set_aside: true,
                    ..self
                },
                (GroupStep::DecryptDistribution, GroupStepEvent::Done) => GroupReceive {
                    step: GroupStep::PersistSession,
                    ..self
                },
                (GroupStep::PersistSession, GroupStepEvent::Done) => GroupReceive {
                    step: GroupStep::CheckWrapper,
                    ..self
                },
                (GroupStep::CheckWrapper, GroupStepEvent::Done) => GroupReceive {
                    step: GroupStep::ImportKey,
                    ..self
                },
                (GroupStep::ImportKey, GroupStepEvent::Done) => GroupReceive {
                    step: GroupStep::KeyTaken,
                    ..self
                },
                _ => GroupReceive { step: GroupStep::Stop, ..self },
            }
        }
    }

    /// The state after a run of steps.
    pub open spec fn run(self, events: Seq<GroupStepEvent>) -> GroupReceive
        decreases events.len(),
    {
        if events.len() == 0 {
            self
        } else {
            self.run(events.drop_last()).after(events.last())
        }
    }

    /// Starts with an envelope, or with a message that had been set aside.
    pub fn start(retrying: bool) -> (r: GroupReceive)
        ensures
            r == GroupReceive::fresh(retrying),
    {
        GroupReceive {
            step: if retrying {
                GroupStep::LookUp
            } else {
                GroupStep::AppendDelivery
            },
            retrying,
            known: false,
            counter_recorded: false,
            key_persisted: false,
            listed: false,
            settled: false,
            set_aside: false,
        }
    }

    fn after_failure(&self, key_missing: bool) -> (r: GroupStep)
        ensures
            r == (if key_missing && self.decrypting() {
                if self.retrying {
                    GroupStep::Skip
                } else {
                    GroupStep::SetAside
                }
            } else {
                GroupStep::Stop
            }),
    {
        let decrypting = match self.step {
            GroupStep::LoadKey => true,
            GroupStep::Decrypt => true,
            GroupStep::RecordCounter => true,
            GroupStep::PersistKey => true,
            _ => false,
        };
        if key_missing && decrypting {
            if self.retrying {
                GroupStep::Skip
            } else {
                GroupStep::SetAside
            }
        } else {
            GroupStep::Stop
        }
    }

    /// Takes note of what came of a step.
    pub fn advance(&mut self, event: GroupStepEvent)
        ensures
            *final(self) == old(self).after(event),
    {
        match self.step {
            GroupStep::Deliver | GroupStep::Skip | GroupStep::KeyTaken | GroupStep::Stop => {
                return ;
            },
            _ => {},
        }
        match (self.step, event) {
            (_, GroupStepEvent::Failed { key_missing }) => {
                self.step = self.after_failure(key_missing);
            },
            (GroupStep::AppendDelivery, GroupStepEvent::Done) => {
                self.step = GroupStep::Classify;
            },
            (GroupStep::Classify, GroupStepEvent::Payload { message }) => {
                self.step = if message {
                    GroupStep::LookUp
                } else {
                    GroupStep::DecryptDistribution
                };
            },
            (GroupStep::LookUp, GroupStepEvent::LookedUp { known }) => {
                self.known = known;
                self.step = if known {
                    GroupStep::Settle
                } else {
                    GroupStep::LoadKey
                };
            },
            (GroupStep::LoadKey, GroupStepEvent::Done) => {
                self.step = GroupStep::Decrypt;
            },
            (GroupStep::Decrypt, GroupStepEvent::Done) => {
                self.step = GroupStep::RecordCounter;
            },
            (GroupStep::RecordCounter, GroupStepEvent::Recorded { anew }) => {
                self.counter_recorded = anew;
                self.step = if anew {
                    GroupStep::PersistKey
                } else {
                    GroupStep::Stop
                };
            },
            (GroupStep::PersistKey, GroupStepEvent::Done) => {
                self.key_persisted = true;
                self.step = GroupStep::List;
            },
            (GroupStep::List, GroupStepEvent::Done) => {
                self.listed = true;
                self.step = GroupStep::Settle;
            },
            (GroupStep::Settle, GroupStepEvent::Done) => {
                self.settled = true;
                self.step = if self.known {
                    GroupStep::Skip
                } else {
                    GroupStep::Deliver
                };
            },
            (GroupStep::SetAside, GroupStepEvent::Done) => {
                self.set_aside = true;
                self.step = GroupStep::Skip;
            },
            (GroupStep::DecryptDistribution, GroupStepEvent::Done) => {
                self.step = GroupStep::PersistSession;
            },
            (GroupStep::PersistSession, GroupStepEvent::Done) => {
                self.step = GroupStep::CheckWrapper;
            },
            (GroupStep::CheckWrapper, GroupStepEvent::Done) => {
                self.step = GroupStep::ImportKey;
            },
            (GroupStep::ImportKey, GroupStepEvent::Done) => {
                self.step = GroupStep::KeyTaken;
            },
            _ => {
                self.step = GroupStep::Stop;
            },
        }
    }
}

/// What is to be done next to send a message to a group.
#[derive(Clone, Copy, Debug, PartialEq, Eq, Structural)]
pub enum GroupSendStep {
    /// See whether the sender is a member.
    CheckSender,
    /// Load this member's key, or make one and keep it.
    EnsureKey,
    /// Encrypt the message, which moves the key on in memory.
    Encrypt,
    /// Keep the key as it stands after encrypting.
    PersistKey,
    /// Hand the encrypted message out.
    HandOut,
    /// Nothing: a step has failed.
    Stop,
}

/// How the sending of a message to a group stands.
#[derive(Clone, Copy, Debug, PartialEq, Eq, Structural)]
pub struct GroupSend {
    pub step: GroupSendStep,
    pub encrypted: bool,
    pub key_persisted: bool,
}

impl GroupSend {
    /// The state before the first step.
    pub open spec fn fresh() -> GroupSend {
        GroupSend { step: GroupSendStep::CheckSender, encrypted: false, key_persisted: false }
    }

    /// The state after a step.
    pub open spec fn after(self, succeeded: bool) -> GroupSend {
        match self.step {
            GroupSendStep::HandOut => self,
            GroupSendStep::Stop => self,
            _ => if !succeeded {
                GroupSend { step: GroupSendStep::Stop, ..self }
            } else {
                match self.step {
                    GroupSendStep::CheckSender => GroupSend {
                        step: GroupSendStep::EnsureKey,
                        ..self
                    },
                    GroupSendStep::EnsureKey => GroupSend { step: GroupSendStep::Encrypt, ..self },
                    GroupSendStep::Encrypt => GroupSend {
                        step: GroupSendStep::PersistKey,
                        encrypted: true,
                        ..self
                    },
                    _ => GroupSend { step: GroupSendStep::HandOut, key_persisted: true, ..self },
                }
            },
        }
    }

    /// The state after a run of steps.
    pub open spec fn run(self, outcomes: Seq<bool>) -> GroupSend
        decreases outcomes.len(),
    {
        if outcomes.len() == 0 {
            self
        } else {
            self.run(outcomes.drop_last()).after(outcomes.last())
        }
    }

    /// Starts with a message.
    pub fn start() -> (r: GroupSend)
        ensures
            r == GroupSend::fresh(),
    {
        GroupSend { step: GroupSendStep::CheckSender, encrypted: false, key_persisted: false }
    }

    /// Takes note of whether a step succeeded.
    pub fn advance(&mut self, succeeded: bool)
        ensures
            *final(self) == old(self).after(succeeded),
    {
        match self.step {
            GroupSendStep::HandOut | GroupSendStep::Stop => {
                return ;
            },
            _ => {},
        }
        if !succeeded {
            self.step = GroupSendStep::Stop;
            return ;
        }
        match self.step {
            GroupSendStep::CheckSender => {
                self.step = GroupSendStep::EnsureKey;
            },
            GroupSendStep::EnsureKey => {
                self.step = GroupSendStep::Encrypt;
            },
            GroupSendStep::Encrypt => {
                self.encrypted = true;
                self.step = GroupSendStep::PersistKey;
            },
            _ => {
                self.key_persisted = true;
                self.step = GroupSendStep::HandOut;
            },
        }
    }
}

/// A member's key is kept before anything that it encrypted leaves: in every run, a message is handed
/// out only after the key has been kept as it stands after encrypting, so that no counter is used
/// again.
pub proof fn law_group_key_is_kept_before_message(outcomes: Seq<bool>)
    ensures
        ({
            let s = GroupSend::fresh().run(outcomes);
            &&& s.step is HandOut ==> s.encrypted && s.key_persisted
            &&& s.key_persisted ==> s.encrypted
        }),
    decreases outcomes.len(),
{
    if outcomes.len() > 0 {
        law_group_key_is_kept_before_message(outcomes.drop_last());
        lemma_encrypted_before_keeping(outcomes.drop_last());
    }
}

proof fn lemma_encrypted_before_keeping(outcomes: Seq<bool>)
    ensures
        GroupSend::fresh().run(outcomes).step is PersistKey ==> GroupSend::fresh().run(
            outcomes,
        ).encrypted,
    decreases outcomes.len(),
{
    if outcomes.len() > 0 {
        lemma_encrypted_before_keeping(outcomes.drop_last());
    }
}

/// A message whose key could not be kept is never handed out, whatever follows.
pub proof fn law_failed_group_send_hands_out_nothing(before: Seq<bool>, behind: Seq<bool>)
    requires
        !(GroupSend::fresh().run(before).step is HandOut),
    ensures
        GroupSend::fresh().run(before).after(false).run(behind).step is Stop,
    decreases behind.len(),
{
    if behind.len() > 0 {
        law_failed_group_send_hands_out_nothing(before, behind.drop_last());
    }
}

proof fn lemma_group_run(retrying: bool, events: Seq<GroupStepEvent>)
    ensures
        ({
            let s = GroupReceive::fresh(retrying).run(events);
            &&& s.retrying == retrying
            &&& s.step is PersistKey || s.step is List ==> s.counter_recorded
            &&& s.step is List || s.listed ==> s.counter_recorded && s.key_persisted
            &&& s.key_persisted ==> s.counter_recorded && !s.known
            &&& s.step is Settle ==> s.known || s.listed
            &&& s.step is Deliver ==> !s.known && s.listed && s.settled
            &&& s.step is SetAside || s.set_aside ==> !s.known && !s.key_persisted && !retrying
            &&& s.settled ==> s.known || s.listed
            &&& s.set_aside ==> s.step is Skip && !s.settled
            &&& s.step is Skip ==> (s.known && s.settled) || s.set_aside || (retrying && !s.settled)
            &&& s.known ==> s.step is Settle || s.step is Skip || s.step is Stop
            &&& s.step is LoadKey || s.decrypting() ==> !s.known && !s.settled && !s.key_persisted
                && !s.set_aside
            &&& s.step is LookUp || s.step is AppendDelivery || s.step is Classify || s.step is List
                || s.step is SetAside ==> !s.settled && !s.set_aside && !s.known
            &&& s.step is LookUp || s.step is AppendDelivery || s.step is Classify ==> !s.listed
                && !s.key_persisted && !s.counter_recorded
        }),
    decreases events.len(),
{
    if events.len() > 0 {
        lemma_group_run(retrying, events.drop_last());
    }
}

/// A message is handed out only if it was not known, its counter was recorded anew, its sender's key
/// was kept, and it is listed and no longer set aside.
pub proof fn law_group_message_is_handed_out_once(retrying: bool, events: Seq<GroupStepEvent>)
    ensures
        ({
            let s = GroupReceive::fresh(retrying).run(events);
            s.step is Deliver ==> !s.known && s.counter_recorded && s.key_persisted && s.listed
                && s.settled
        }),
{
    lemma_group_run(retrying, events);
}

/// No message is lost: one that is neither handed out nor failed is known already, or is set aside,
/// or was set aside and stays so.
pub proof fn law_group_message_is_not_lost(retrying: bool, events: Seq<GroupStepEvent>)
    ensures
        ({
            let s = GroupReceive::fresh(retrying).run(events);
            s.step is Skip ==> s.known || s.set_aside || (retrying && !s.settled)
        }),
{
    lemma_group_run(retrying, events);
}

/// A message whose key is not there leaves every key as it was.
pub proof fn law_set_aside_keeps_keys(retrying: bool, events: Seq<GroupStepEvent>)
    ensures
        ({
            let s = GroupReceive::fresh(retrying).run(events);
            s.step is SetAside || s.set_aside ==> !s.key_persisted && !s.listed
        }),
{
    lemma_group_run(retrying, events);
}

/// A message whose counter has come before is never handed out, whatever follows.
pub proof fn law_replayed_counter_is_refused(
    retrying: bool,
    before: Seq<GroupStepEvent>,
    behind: Seq<GroupStepEvent>,
)
    requires
        GroupReceive::fresh(retrying).run(before).step is RecordCounter,
    ensures
        GroupReceive::fresh(retrying).run(before).after(
            GroupStepEvent::Recorded { anew: false },
        ).run(behind).step is Stop,
    decreases behind.len(),
{
    if behind.len() > 0 {
        law_replayed_counter_is_refused(retrying, before, behind.drop_last());
    }
}

} // verus!
