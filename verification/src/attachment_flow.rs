//! The order of the steps in which an attachment is fetched and taken in.
//!
//! Nothing is fetched before the owner's grant to this device is verified.
//! A relay forgets a chunk that has been acknowledged, so nothing is acknowledged before the object
//! is kept; and the session of the attachment's key moves on last, so that an import that failed can
//! be done again.
use vstd::prelude::*;

verus! {

/// What is to be done next to take an attachment in.
#[derive(Clone, Copy, Debug, PartialEq, Eq, Structural)]
pub enum ImportStep {
    /// Decrypt the object's key, which moves its session on in memory.
    DecryptKey,
    /// Read the options of the relay.
    ReadOptions,
    /// Verify the grant with which the owner lets this device fetch the object.
    VerifyGrant,
    /// Fetch the chunks, and put them together.
    Download,
    /// Compare the hash of the object with the one that was announced.
    CheckManifest,
    /// Keep the object and its key.
    PersistObject,
    /// Keep that the transfer is complete.
    PersistTransfer,
    /// Decrypt the object, and compare the hash of what comes out with the one announced.
    CheckPlaintext,
    /// Acknowledge the chunk with this number.
    Acknowledge(u32),
    /// Keep the session of the object's key.
    CommitKeySession,
    /// Nothing: the attachment has been taken in.
    Imported,
    /// Nothing: a step has failed.
    Stop,
}

/// How the taking in of an attachment stands.
#[derive(Clone, Copy, Debug, PartialEq, Eq, Structural)]
pub struct AttachmentImport {
    pub step: ImportStep,
    /// Whether chunks are acknowledged.
    pub acknowledges: bool,
    pub total_chunks: u32,
    pub grant_verified: bool,
    pub object_persisted: bool,
    pub plaintext_checked: bool,
    pub acknowledged: u32,
    pub session_committed: bool,
}

impl AttachmentImport {
    /// The state before the first step.
    pub open spec fn fresh(acknowledges: bool, total_chunks: u32) -> AttachmentImport {
        AttachmentImport {
            step: ImportStep::DecryptKey,
            acknowledges,
            total_chunks,
            grant_verified: false,
            object_persisted: false,
            plaintext_checked: false,
            acknowledged: 0,
            session_committed: false,
        }
    }

    /// The step that acknowledges the chunk with this number, or what follows if there is none.
    pub open spec fn acknowledging(self, chunk_index: u32) -> ImportStep {
        if self.acknowledges && chunk_index < self.total_chunks {
            ImportStep::Acknowledge(chunk_index)
        } else {
            ImportStep::CommitKeySession
        }
    }

    /// The state after a step.
    pub open spec fn after(self, succeeded: bool) -> AttachmentImport {
        match self.step {
            ImportStep::Imported => self,
            ImportStep::Stop => self,
            _ => if !succeeded {
                AttachmentImport { step: ImportStep::Stop, ..self }
            } else {
                match self.step {
                    ImportStep::DecryptKey => AttachmentImport {
                        step: ImportStep::ReadOptions,
                        ..self
                    },
                    ImportStep::ReadOptions => AttachmentImport {
                        step: ImportStep::VerifyGrant,
                        ..self
                    },
                    ImportStep::VerifyGrant => AttachmentImport {
                        step: ImportStep::Download,
                        grant_verified: true,
                        ..self
                    },
                    ImportStep::Download => AttachmentImport {
                        step: ImportStep::CheckManifest,
                        ..self
                    },
                    ImportStep::CheckManifest => AttachmentImport {
                        step: ImportStep::PersistObject,
                        ..self
                    },
                    ImportStep::PersistObject => AttachmentImport {
                        step: ImportStep::PersistTransfer,
                        object_persisted: true,
                        ..self
                    },
                    ImportStep::PersistTransfer => AttachmentImport {
                        step: ImportStep::CheckPlaintext,
                        ..self
                    },
                    ImportStep::CheckPlaintext => AttachmentImport {
                        step: self.acknowledging(0),
                        plaintext_checked: true,
                        ..self
                    },
                    ImportStep::Acknowledge(i) => AttachmentImport {
                        step: if i == u32::MAX {
                            ImportStep::CommitKeySession
                        } else {
                            self.acknowledging((i + 1) as u32)
                        },
                        acknowledged: if i == u32::MAX {
                            i
                        } else {
                            (i + 1) as u32
                        },
                        ..self
                    },
                    _ => AttachmentImport {
                        step: ImportStep::Imported,
                        session_committed: true,
                        ..self
                    },
                }
            },
        }
    }

    /// The state after a run of steps.
    pub open spec fn run(self, outcomes: Seq<bool>) -> AttachmentImport
        decreases outcomes.len(),
    {
        if outcomes.len() == 0 {
            self
        } else {
            self.run(outcomes.drop_last()).after(outcomes.last())
        }
    }

    /// Starts with an attachment.
    pub fn start(acknowledges: bool, total_chunks: u32) -> (r: AttachmentImport)
        ensures
            r == AttachmentImport::fresh(acknowledges, total_chunks),
    {
        AttachmentImport {
            step: ImportStep::DecryptKey,
            acknowledges,
            total_chunks,
            grant_verified: false,
            object_persisted: false,
            plaintext_checked: false,
            acknowledged: 0,
            session_committed: false,
        }
    }

    fn next_acknowledgement(&self, chunk_index: u32) -> (r: ImportStep)
        ensures
            r == self.acknowledging(chunk_index),
    {
        if self.acknowledges && chunk_index < self.total_chunks {
            ImportStep::Acknowledge(chunk_index)
        } else {
            ImportStep::CommitKeySession
        }
    }

    /// Takes note of whether a step succeeded.
    pub fn advance(&mut self, succeeded: bool)
        ensures
            *final(self) == old(self).after(succeeded),
    {
        match self.step {
            ImportStep::Imported => {
                return ;
            },
            ImportStep::Stop => {
                return ;
            },
            _ => {},
        }
        if !succeeded {
            self.step = ImportStep::Stop;
            return ;
        }
        match self.step {
            ImportStep::DecryptKey => {
                self.step = ImportStep::ReadOptions;
            },
            ImportStep::ReadOptions => {
                self.step = ImportStep::VerifyGrant;
            },
            ImportStep::VerifyGrant => {
                self.grant_verified = true;
                self.step = ImportStep::Download;
            },
            ImportStep::Download => {
                self.step = ImportStep::CheckManifest;
            },
            ImportStep::CheckManifest => {
                self.step = ImportStep::PersistObject;
            },
            ImportStep::PersistObject => {
                self.object_persisted = true;
                self.step = ImportStep::PersistTransfer;
            },
            ImportStep::PersistTransfer => {
                self.step = ImportStep::CheckPlaintext;
            },
            ImportStep::CheckPlaintext => {
                self.plaintext_checked = true;
                self.step = self.next_acknowledgement(0);
            },
            ImportStep::Acknowledge(i) => {
                if i == u32::MAX {
                    self.acknowledged = i;
                    self.step = ImportStep::CommitKeySession;
                } else {
                    self.acknowledged = i + 1;
                    self.step = self.next_acknowledgement(i + 1);
                }
            },
            _ => {
                self.session_committed = true;
                self.step = ImportStep::Imported;
            },
        }
    }
}

proof fn lemma_import_run(acknowledges: bool, total_chunks: u32, outcomes: Seq<bool>)
    ensures
        ({
            let s = AttachmentImport::fresh(acknowledges, total_chunks).run(outcomes);
            &&& s.acknowledges == acknowledges
            &&& s.total_chunks == total_chunks
            &&& s.session_committed <==> s.step is Imported
            &&& s.plaintext_checked ==> s.object_persisted
            &&& s.step is PersistTransfer || s.step is CheckPlaintext ==> s.object_persisted
            &&& s.acknowledged > 0 ==> s.plaintext_checked && acknowledges
            &&& s.object_persisted ==> s.grant_verified
            &&& s.step is Download || s.step is CheckManifest || s.step is PersistObject
                ==> s.grant_verified
            &&& s.step is DecryptKey || s.step is ReadOptions || s.step is VerifyGrant
                || s.step is Download || s.step is CheckManifest || s.step is PersistObject
                || s.step is PersistTransfer || s.step is CheckPlaintext
                ==> s.acknowledged == 0 && !s.plaintext_checked
            &&& s.step matches ImportStep::Acknowledge(i) ==> acknowledges && s.plaintext_checked
                && s.acknowledged == i && i < total_chunks
            &&& s.step is CommitKeySession || s.step is Imported ==> s.plaintext_checked
                && s.acknowledged == if acknowledges {
                total_chunks
            } else {
                0
            }
        }),
    decreases outcomes.len(),
{
    if outcomes.len() > 0 {
        lemma_import_run(acknowledges, total_chunks, outcomes.drop_last());
    }
}

/// Nothing is fetched, kept or acknowledged before the grant of the object's owner is verified.
pub proof fn law_nothing_is_fetched_without_a_grant(
    acknowledges: bool,
    total_chunks: u32,
    outcomes: Seq<bool>,
)
    ensures
        ({
            let s = AttachmentImport::fresh(acknowledges, total_chunks).run(outcomes);
            s.step is Download || s.object_persisted || s.acknowledged > 0 || s.session_committed
                ==> s.grant_verified
        }),
{
    lemma_import_run(acknowledges, total_chunks, outcomes);
}

/// Nothing is acknowledged before the object is kept and its plaintext is the announced one, and
/// only where acknowledging is wanted.
pub proof fn law_acknowledges_only_what_is_kept(
    acknowledges: bool,
    total_chunks: u32,
    outcomes: Seq<bool>,
)
    ensures
        ({
            let s = AttachmentImport::fresh(acknowledges, total_chunks).run(outcomes);
            s.step is Acknowledge || s.acknowledged > 0 ==> acknowledges && s.object_persisted
                && s.plaintext_checked
        }),
{
    lemma_import_run(acknowledges, total_chunks, outcomes);
}

/// The session of the object's key is kept only once everything else is done: the object is kept, its
/// plaintext is the announced one, and every chunk is acknowledged where that is wanted.
pub proof fn law_key_session_is_kept_last(
    acknowledges: bool,
    total_chunks: u32,
    outcomes: Seq<bool>,
)
    ensures
        ({
            let s = AttachmentImport::fresh(acknowledges, total_chunks).run(outcomes);
            s.session_committed || s.step is CommitKeySession ==> s.object_persisted
                && s.plaintext_checked && (acknowledges ==> s.acknowledged == total_chunks)
        }),
{
    lemma_import_run(acknowledges, total_chunks, outcomes);
}

/// An import that has failed leaves the session of the object's key as it was, for good.
pub proof fn law_failed_import_keeps_key_session(
    acknowledges: bool,
    total_chunks: u32,
    before: Seq<bool>,
    behind: Seq<bool>,
)
    requires
        !(AttachmentImport::fresh(acknowledges, total_chunks).run(before).step is Imported),
    ensures
        !AttachmentImport::fresh(acknowledges, total_chunks).run(before).after(false).run(
            behind,
        ).session_committed,
        AttachmentImport::fresh(acknowledges, total_chunks).run(before).after(false).run(
            behind,
        ).step is Stop,
    decreases behind.len(),
{
    lemma_import_run(acknowledges, total_chunks, before);
    if behind.len() > 0 {
        law_failed_import_keeps_key_session(acknowledges, total_chunks, before, behind.drop_last());
    }
}

} // verus!
