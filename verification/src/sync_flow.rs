//! The order of the steps in which a device hands its history over, and another takes it in.
//!
//! A history is announced last: when its object is on the relay, and the session that its key was
//! sent with is kept, so that no key is used twice. It is fetched only when the announcement is
//! known to come from a device of the same identity.
use vstd::prelude::*;

verus! {

/// What is to be done next to hand a history over.
#[derive(Clone, Copy, Debug, PartialEq, Eq, Structural)]
pub enum ExportStep {
    /// Find this device in the manifest of its identity.
    CheckSource,
    /// Find the other device in that manifest.
    CheckTarget,
    /// Compare the identities of the two.
    ComparePrincipals,
    /// Read the history.
    ReadHistory,
    /// Put the history into an object.
    PutObject,
    /// Bring the object to the relay.
    Upload,
    /// Load the session for the object's key, or begin one.
    OpenSession,
    /// Encrypt the object's key.
    EncryptKey,
    /// Keep the session.
    PersistSession,
    /// Sign the announcement.
    Announce,
    /// Nothing: the history has been handed over.
    Exported,
    /// Nothing: a step has failed.
    Stop,
}

/// How the handing over of a history stands.
#[derive(Clone, Copy, Debug, PartialEq, Eq, Structural)]
pub struct HistoryExport {
    pub step: ExportStep,
    pub same_principal: bool,
    pub uploaded: bool,
    pub session_persisted: bool,
    pub announced: bool,
}

impl HistoryExport {
    /// The state before the first step.
    pub open spec fn fresh() -> HistoryExport {
        HistoryExport {
            step: ExportStep::CheckSource,
            same_principal: false,
            uploaded: false,
            session_persisted: false,
            announced: false,
        }
    }

    /// The state after a step.
    pub open spec fn after(self, succeeded: bool) -> HistoryExport {
        match self.step {
            ExportStep::Exported => self,
            ExportStep::Stop => self,
            _ => if !succeeded {
                HistoryExport { step: ExportStep::Stop, ..self }
            } else {
                match self.step {
                    ExportStep::CheckSource => HistoryExport {
                        step: ExportStep::CheckTarget,
                        ..self
                    },
                    ExportStep::CheckTarget => HistoryExport {
                        step: ExportStep::ComparePrincipals,
                        ..self
                    },
                    ExportStep::ComparePrincipals => HistoryExport {
                        step: ExportStep::ReadHistory,
                        same_principal: true,
                        ..self
                    },
                    ExportStep::ReadHistory => HistoryExport {
                        step: ExportStep::PutObject,
                        ..self
                    },
                    ExportStep::PutObject => HistoryExport { step: ExportStep::Upload, ..self },
                    ExportStep::Upload => HistoryExport {
                        step: ExportStep::OpenSession,
                        uploaded: true,
                        ..self
                    },
                    ExportStep::OpenSession => HistoryExport {
                        step: ExportStep::EncryptKey,
                        ..self
                    },
                    ExportStep::EncryptKey => HistoryExport {
                        step: ExportStep::PersistSession,
                        ..self
                    },
                    ExportStep::PersistSession => HistoryExport {
                        step: ExportStep::Announce,
                        session_persisted: true,
                        ..self
                    },
                    _ => HistoryExport { step: ExportStep::Exported, announced: true, ..self },
                }
            },
        }
    }

    /// The state after a run of steps.
    pub open spec fn run(self, outcomes: Seq<bool>) -> HistoryExport
        decreases outcomes.len(),
    {
        if outcomes.len() == 0 {
            self
        } else {
            self.run(outcomes.drop_last()).after(outcomes.last())
        }
    }

    /// Starts with the first step.
    pub fn start() -> (r: HistoryExport)
        ensures
            r == HistoryExport::fresh(),
    {
        HistoryExport {
            step: ExportStep::CheckSource,
            same_principal: false,
            uploaded: false,
            session_persisted: false,
            announced: false,
        }
    }

    /// Takes note of whether a step succeeded.
    pub fn advance(&mut self, succeeded: bool)
        ensures
            *final(self) == old(self).after(succeeded),
    {
        match self.step {
            ExportStep::Exported | ExportStep::Stop => {
                return ;
            },
            _ => {},
        }
        if !succeeded {
            self.step = ExportStep::Stop;
            return ;
        }
        match self.step {
            ExportStep::CheckSource => {
                self.step = ExportStep::CheckTarget;
            },
            ExportStep::CheckTarget => {
                self.step = ExportStep::ComparePrincipals;
            },
            ExportStep::ComparePrincipals => {
                self.same_principal = true;
                self.step = ExportStep::ReadHistory;
            },
            ExportStep::ReadHistory => {
                self.step = ExportStep::PutObject;
            },
            ExportStep::PutObject => {
                self.step = ExportStep::Upload;
            },
            ExportStep::Upload => {
                self.uploaded = true;
                self.step = ExportStep::OpenSession;
            },
            ExportStep::OpenSession => {
                self.step = ExportStep::EncryptKey;
            },
            ExportStep::EncryptKey => {
                self.step = ExportStep::PersistSession;
            },
            ExportStep::PersistSession => {
                self.session_persisted = true;
                self.step = ExportStep::Announce;
            },
            _ => {
                self.announced = true;
                self.step = ExportStep::Exported;
            },
        }
    }
}

proof fn lemma_export_run(outcomes: Seq<bool>)
    ensures
        ({
            let s = HistoryExport::fresh().run(outcomes);
            &&& s.announced <==> s.step is Exported
            &&& s.session_persisted ==> s.uploaded
            &&& s.uploaded ==> s.same_principal
            &&& s.step is Announce || s.step is Exported ==> s.session_persisted
            &&& s.step is OpenSession || s.step is EncryptKey || s.step is PersistSession
                ==> s.uploaded
            &&& s.step is ReadHistory || s.step is PutObject || s.step is Upload
                ==> s.same_principal
        }),
    decreases outcomes.len(),
{
    if outcomes.len() > 0 {
        lemma_export_run(outcomes.drop_last());
    }
}

/// A history is read only for a device of the same identity, and is announced only when its object is
/// on the relay and the session of its key is kept.
pub proof fn law_history_is_announced_last(outcomes: Seq<bool>)
    ensures
        ({
            let s = HistoryExport::fresh().run(outcomes);
            &&& s.step is ReadHistory || s.step is PutObject || s.step is Upload
                ==> s.same_principal
            &&& s.step is Announce || s.announced ==> s.same_principal && s.uploaded
                && s.session_persisted
        }),
{
    lemma_export_run(outcomes);
}

/// A handing over that has failed announces nothing, for good.
pub proof fn law_failed_export_announces_nothing(before: Seq<bool>, behind: Seq<bool>)
    requires
        !(HistoryExport::fresh().run(before).step is Exported),
    ensures
        HistoryExport::fresh().run(before).after(false).run(behind).step is Stop,
        !HistoryExport::fresh().run(before).after(false).run(behind).announced,
    decreases behind.len(),
{
    lemma_export_run(before);
    if behind.len() > 0 {
        law_failed_export_announces_nothing(before, behind.drop_last());
    }
}

// ---- taking a history in ----

/// What is to be done next to take a history in.
#[derive(Clone, Copy, Debug, PartialEq, Eq, Structural)]
pub enum IntakeStep {
    /// Check the announcement on its face.
    CheckAnnouncement,
    /// Fetch the manifest of the identity.
    FetchManifest,
    /// Find the key that the announcement has to be signed with.
    FindSigner,
    /// Verify the signature of the announcement.
    VerifySignature,
    /// Fetch the object that holds the history.
    FetchObject,
    /// Read the history.
    ReadHistory,
    /// Carry out what takes the history in.
    TakeIn,
    /// Nothing: the history has been taken in.
    TakenIn,
    /// Nothing: a step has failed.
    Stop,
}

/// How the taking in of a history stands.
#[derive(Clone, Copy, Debug, PartialEq, Eq, Structural)]
pub struct HistoryIntake {
    pub step: IntakeStep,
    pub verified: bool,
    pub fetched: bool,
}

impl HistoryIntake {
    /// The state before the first step.
    pub open spec fn fresh() -> HistoryIntake {
        HistoryIntake { step: IntakeStep::CheckAnnouncement, verified: false, fetched: false }
    }

    /// The state after a step.
    pub open spec fn after(self, succeeded: bool) -> HistoryIntake {
        if self.step is TakenIn || self.step is Stop {
            self
        } else if !succeeded {
            HistoryIntake { step: IntakeStep::Stop, ..self }
        } else {
            match self.step {
                IntakeStep::CheckAnnouncement => HistoryIntake {
                    step: IntakeStep::FetchManifest,
                    ..self
                },
                IntakeStep::FetchManifest => HistoryIntake { step: IntakeStep::FindSigner, ..self },
                IntakeStep::FindSigner => HistoryIntake {
                    step: IntakeStep::VerifySignature,
                    ..self
                },
                IntakeStep::VerifySignature => HistoryIntake {
                    step: IntakeStep::FetchObject,
                    verified: true,
                    ..self
                },
                IntakeStep::FetchObject => HistoryIntake {
                    step: IntakeStep::ReadHistory,
                    fetched: true,
                    ..self
                },
                IntakeStep::ReadHistory => HistoryIntake { step: IntakeStep::TakeIn, ..self },
                _ => HistoryIntake { step: IntakeStep::TakenIn, ..self },
            }
        }
    }

    /// The state after a run of steps.
    pub open spec fn run(self, outcomes: Seq<bool>) -> HistoryIntake
        decreases outcomes.len(),
    {
        if outcomes.len() == 0 {
            self
        } else {
            self.run(outcomes.drop_last()).after(outcomes.last())
        }
    }

    /// Starts with the first step.
    pub fn start() -> (r: HistoryIntake)
        ensures
            r == HistoryIntake::fresh(),
    {
        HistoryIntake { step: IntakeStep::CheckAnnouncement, verified: false, fetched: false }
    }

    /// Takes note of whether a step succeeded.
    pub fn advance(&mut self, succeeded: bool)
        ensures
            *final(self) == old(self).after(succeeded),
    {
        match self.step {
            IntakeStep::TakenIn | IntakeStep::Stop => {
                return ;
            },
            _ => {},
        }
        if !succeeded {
            self.step = IntakeStep::Stop;
            return ;
        }
        match self.step {
            IntakeStep::CheckAnnouncement => {
                self.step = IntakeStep::FetchManifest;
            },
            IntakeStep::FetchManifest => {
                self.step = IntakeStep::FindSigner;
            },
            IntakeStep::FindSigner => {
                self.step = IntakeStep::VerifySignature;
            },
            IntakeStep::VerifySignature => {
                self.verified = true;
                self.step = IntakeStep::FetchObject;
            },
            IntakeStep::FetchObject => {
                self.fetched = true;
                self.step = IntakeStep::ReadHistory;
            },
            IntakeStep::ReadHistory => {
                self.step = IntakeStep::TakeIn;
            },
            _ => {
                self.step = IntakeStep::TakenIn;
            },
        }
    }
}

proof fn lemma_intake_run(outcomes: Seq<bool>)
    ensures
        ({
            let s = HistoryIntake::fresh().run(outcomes);
            &&& s.fetched ==> s.verified
            &&& s.step is FetchObject ==> s.verified
            &&& s.step is ReadHistory || s.step is TakeIn || s.step is TakenIn ==> s.fetched
        }),
    decreases outcomes.len(),
{
    if outcomes.len() > 0 {
        lemma_intake_run(outcomes.drop_last());
    }
}

/// A history is fetched, and anything of it written, only when the signature of its announcement is
/// verified.
pub proof fn law_history_is_fetched_when_verified(outcomes: Seq<bool>)
    ensures
        ({
            let s = HistoryIntake::fresh().run(outcomes);
            s.step is FetchObject || s.step is ReadHistory || s.step is TakeIn || s.step is TakenIn
                ==> s.verified
        }),
{
    lemma_intake_run(outcomes);
}

/// A history whose announcement fails a check is neither fetched nor taken in, for good.
pub proof fn law_refused_history_stays_out(before: Seq<bool>, behind: Seq<bool>)
    requires
        !(HistoryIntake::fresh().run(before).step is TakenIn),
    ensures
        HistoryIntake::fresh().run(before).after(false).run(behind).step is Stop,
        HistoryIntake::fresh().run(before).after(false).run(behind).fetched
            == HistoryIntake::fresh().run(before).fetched,
    decreases behind.len(),
{
    if behind.len() > 0 {
        law_refused_history_stays_out(before, behind.drop_last());
    }
}

} // verus!
