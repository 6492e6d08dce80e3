//! The order of the steps in which the key of an object is handed to another device.
//!
//! The key leaves last: when the session that it was encrypted with is kept, so that no key of the
//! session is used twice, and, for an attachment, when the object is on the relay and its grant is
//! signed.
use vstd::prelude::*;

verus! {

/// What is to be done next to hand the key of an object over.
#[derive(Clone, Copy, Debug, PartialEq, Eq, Structural)]
pub enum HandOverStep {
    /// Read how the relay is reached.
    ReadOptions,
    /// Put the attachment into an object, and keep it.
    PutObject,
    /// Bring the object to the relay.
    Upload,
    /// Find the object that is shared and its key, and name the message that carries the key.
    NameRecipient,
    /// Load the session for the key, or begin one.
    OpenSession,
    /// Encrypt the key.
    EncryptKey,
    /// Keep the session.
    PersistSession,
    /// Sign the grant that lets the recipient fetch the object.
    SignGrant,
    /// Nothing: the key has been handed over.
    HandedOver,
    /// Nothing: a step has failed.
    Stop,
}

/// How the handing over of a key stands.
#[derive(Clone, Copy, Debug, PartialEq, Eq, Structural)]
pub struct KeyHandOver {
    pub step: HandOverStep,
    /// Whether the object is an attachment, which the recipient fetches from the relay.
    pub attachment: bool,
    pub uploaded: bool,
    pub session_persisted: bool,
    pub grant_signed: bool,
}

impl KeyHandOver {
    /// The state before the first step.
    pub open spec fn fresh(attachment: bool) -> KeyHandOver {
        KeyHandOver {
            step: if attachment {
                HandOverStep::ReadOptions
            } else {
                HandOverStep::NameRecipient
            },
            attachment,
            uploaded: false,
            session_persisted: false,
            grant_signed: false,
        }
    }

    /// The state after a step.
    pub open spec fn after(self, succeeded: bool) -> KeyHandOver {
        if self.step is HandedOver || self.step is Stop {
            self
        } else if !succeeded {
            KeyHandOver { step: HandOverStep::Stop, ..self }
        } else {
            match self.step {
                HandOverStep::ReadOptions => KeyHandOver { step: HandOverStep::PutObject, ..self },
                HandOverStep::PutObject => KeyHandOver { step: HandOverStep::Upload, ..self },
                HandOverStep::Upload => KeyHandOver {
                    step: HandOverStep::NameRecipient,
                    uploaded: true,
                    ..self
                },
                HandOverStep::NameRecipient => KeyHandOver {
                    step: HandOverStep::OpenSession,
                    ..self
                },
                HandOverStep::OpenSession => KeyHandOver {
                    step: HandOverStep::EncryptKey,
                    ..self
                },
                HandOverStep::EncryptKey => KeyHandOver {
                    step: HandOverStep::PersistSession,
                    ..self
                },
                HandOverStep::PersistSession => KeyHandOver {
                    step: if self.attachment {
                        HandOverStep::SignGrant
                    } else {
                        HandOverStep::HandedOver
                    },
                    session_persisted: true,
                    ..self
                },
                _ => KeyHandOver { step: HandOverStep::HandedOver, grant_signed: true, ..self },
            }
        }
    }

    /// The state after a run of steps.
    pub open spec fn run(self, outcomes: Seq<bool>) -> KeyHandOver
        decreases outcomes.len(),
    {
        if outcomes.len() == 0 {
            self
        } else {
            self.run(outcomes.drop_last()).after(outcomes.last())
        }
    }

    /// Starts with the first step.
    pub fn start(attachment: bool) -> (r: KeyHandOver)
        ensures
            r == KeyHandOver::fresh(attachment),
    {
        KeyHandOver {
            step: if attachment {
                HandOverStep::ReadOptions
            } else {
                HandOverStep::NameRecipient
            },
            attachment,
            uploaded: false,
            session_persisted: false,
            grant_signed: false,
        }
    }

    /// Takes note of whether a step succeeded.
    pub fn advance(&mut self, succeeded: bool)
        ensures
            *final(self) == old(self).after(succeeded),
    {
        match self.step {
            HandOverStep::HandedOver | HandOverStep::Stop => {
                return ;
            },
            _ => {},
        }
        if !succeeded {
            self.step = HandOverStep::Stop;
            return ;
        }
        match self.step {
            HandOverStep::ReadOptions => {
                self.step = HandOverStep::PutObject;
            },
            HandOverStep::PutObject => {
                self.step = HandOverStep::Upload;
            },
            HandOverStep::Upload => {
                self.uploaded = true;
                self.step = HandOverStep::NameRecipient;
            },
            HandOverStep::NameRecipient => {
                self.step = HandOverStep::OpenSession;
            },
            HandOverStep::OpenSession => {
                self.step = HandOverStep::EncryptKey;
            },
            HandOverStep::EncryptKey => {
                self.step = HandOverStep::PersistSession;
            },
            HandOverStep::PersistSession => {
                self.session_persisted = true;
                self.step = if self.attachment {
                    HandOverStep::SignGrant
                } else {
                    HandOverStep::HandedOver
                };
            },
            _ => {
                self.grant_signed = true;
                self.step = HandOverStep::HandedOver;
            },
        }
    }
}

proof fn lemma_hand_over_run(attachment: bool, outcomes: Seq<bool>)
    ensures
        ({
            let s = KeyHandOver::fresh(attachment).run(outcomes);
            &&& s.attachment == attachment
            &&& s.step is SignGrant || s.step is HandedOver ==> s.session_persisted
            &&& s.step is SignGrant ==> attachment
            &&& s.step is ReadOptions || s.step is PutObject || s.step is Upload ==> attachment
            &&& attachment && (s.step is NameRecipient || s.step is OpenSession
                || s.step is EncryptKey || s.step is PersistSession || s.step is SignGrant
                || s.step is HandedOver) ==> s.uploaded
            &&& attachment && s.step is HandedOver ==> s.grant_signed
        }),
    decreases outcomes.len(),
{
    if outcomes.len() > 0 {
        lemma_hand_over_run(attachment, outcomes.drop_last());
    }
}

/// The key of an object leaves only when the session that it was encrypted with is kept. That of an
/// attachment is not even encrypted before the object is on the relay, and leaves with a signed
/// grant.
pub proof fn law_key_leaves_last(attachment: bool, outcomes: Seq<bool>)
    ensures
        ({
            let s = KeyHandOver::fresh(attachment).run(outcomes);
            &&& s.step is HandedOver ==> s.session_persisted
            &&& attachment && s.step is EncryptKey ==> s.uploaded
            &&& attachment && s.step is HandedOver ==> s.uploaded && s.grant_signed
        }),
{
    lemma_hand_over_run(attachment, outcomes);
}

/// A handing over that has failed hands no key over, for good.
pub proof fn law_failed_hand_over_ends(attachment: bool, before: Seq<bool>, behind: Seq<bool>)
    requires
        !(KeyHandOver::fresh(attachment).run(before).step is HandedOver),
    ensures
        KeyHandOver::fresh(attachment).run(before).after(false).run(behind).step is Stop,
    decreases behind.len(),
{
    if behind.len() > 0 {
        law_failed_hand_over_ends(attachment, before, behind.drop_last());
    }
}

} // verus!
