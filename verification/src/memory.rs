//! A data directory kept in memory: a host that never fails for reasons
//! of its own, against which the commands can be run and their laws
//! stated.

use crate::document::Document;
use crate::error::{IoStage, StoreErrorView};
use crate::host::{Effect, EffectView, Outcome, OutcomeView};
use crate::load::{empty_document, loaded_view, LoadJob, LoadPhase, LoadStep, Loaded};
use crate::save::{saved_view, SaveJob, SaveJobView, SavePhase, SaveStep, Saved};
use vstd::prelude::*;

verus! {

/// A data directory as a mathematical value: whether it exists, and the
/// text of each file in it.
pub struct DataDir {
    pub present: bool,
    pub notes: Option<Seq<char>>,
    pub tasks: Option<Seq<char>>,
}

/// What a write reports when the directory was never created.
pub open spec fn missing_dir_reason() -> Seq<char> {
    "the data directory does not exist"@
}

/// What a read reports when there is no such file.
pub open spec fn missing_file_reason() -> Seq<char> {
    "the file does not exist"@
}

impl DataDir {
    /// A directory that was never created.
    pub open spec fn empty() -> DataDir {
        DataDir { present: false, notes: None, tasks: None }
    }

    /// The text of the document's file, if there is such a file.
    pub open spec fn file(self, doc: Document) -> Option<Seq<char>> {
        match doc {
            Document::Notes => self.notes,
            Document::Tasks => self.tasks,
        }
    }

    /// The directory with the document's file replaced by the text.
    pub open spec fn with_file(self, doc: Document, text: Seq<char>) -> DataDir {
        match doc {
            Document::Notes => DataDir { notes: Some(text), ..self },
            Document::Tasks => DataDir { tasks: Some(text), ..self },
        }
    }

    /// The directory after it was created, with what it held before.
    pub open spec fn created(self) -> DataDir {
        DataDir { present: true, ..self }
    }

    /// What the directory answers to an effect, and what it is afterwards.
    pub open spec fn perform(self, effect: EffectView) -> (OutcomeView, DataDir) {
        match effect {
            EffectView::ResolveDataDir => (OutcomeView::Done, self),
            EffectView::CreateDataDir => (OutcomeView::Done, self.created()),
            EffectView::WriteFile { doc, content } => if self.present {
                (OutcomeView::Done, self.with_file(doc, content))
            } else {
                (OutcomeView::Failed(missing_dir_reason()), self)
            },
            EffectView::ProbeFile { doc } => if self.file(doc) is Some {
                (OutcomeView::Done, self)
            } else {
                (OutcomeView::Absent, self)
            },
            EffectView::ReadFile { doc } => match self.file(doc) {
                Some(text) => (OutcomeView::Text(text), self),
                None => (OutcomeView::Failed(missing_file_reason()), self),
            },
        }
    }

    /// The reply of a save that is run to its end against the directory.
    pub open spec fn save_reply(self, job: SaveJobView) -> Result<(), StoreErrorView> {
        match job.phase {
            SavePhase::Resolving | SavePhase::Creating => match job.text {
                Ok(_) => Ok(()),
                Err(reason) => Err(StoreErrorView::Serialization { reason }),
            },
            SavePhase::Writing => if self.present {
                Ok(())
            } else {
                Err(
                    StoreErrorView::Io {
                        stage: IoStage::Write(job.doc),
                        reason: missing_dir_reason(),
                    },
                )
            },
        }
    }

    /// The directory after a save was run to its end against it.
    pub open spec fn after_save(self, job: SaveJobView) -> DataDir {
        match job.phase {
            SavePhase::Resolving | SavePhase::Creating => match job.text {
                Ok(text) => self.created().with_file(job.doc, text),
                Err(_) => self.created(),
            },
            SavePhase::Writing => if self.present {
                self.with_file(job.doc, job.text->Ok_0)
            } else {
                self
            },
        }
    }

    /// The reply of a load that is run to its end against the directory.
    pub open spec fn load_reply(self, job: LoadJob) -> Result<Seq<char>, StoreErrorView> {
        match self.file(job.doc) {
            Some(text) => Ok(text),
            None => match job.phase {
                LoadPhase::Resolving | LoadPhase::Probing => Ok(empty_document()),
                LoadPhase::Reading => Err(
                    StoreErrorView::Io {
                        stage: IoStage::Read(job.doc),
                        reason: missing_file_reason(),
                    },
                ),
            },
        }
    }
}

/// A data directory held in memory.
pub struct MemoryDir {
    present: bool,
    notes: Option<String>,
    tasks: Option<String>,
}

spec fn text_view(text: Option<String>) -> Option<Seq<char>> {
    match text {
        Some(s) => Some(s@),
        None => None,
    }
}

impl View for MemoryDir {
    type V = DataDir;

    closed spec fn view(&self) -> DataDir {
        DataDir {
            present: self.present,
            notes: text_view(self.notes),
            tasks: text_view(self.tasks),
        }
    }
}

impl MemoryDir {
    /// A directory that was never created.
    pub fn new() -> (dir: MemoryDir)
        ensures
            dir@ == DataDir::empty(),
    {
        MemoryDir { present: false, notes: None, tasks: None }
    }

    /// Carries out one effect and reports its outcome.
    pub fn perform(&mut self, effect: Effect<'_>) -> (outcome: Outcome)
        ensures
            (outcome@, final(self)@) == old(self)@.perform(effect@),
    {
        match effect {
            Effect::ResolveDataDir => Outcome::Done,
            Effect::CreateDataDir => {
                self.present = true;
                Outcome::Done
            },
            Effect::WriteFile { doc, content } => {
                if self.present {
                    let text = String::from_str(content);
                    match doc {
                        Document::Notes => {
                            self.notes = Some(text);
                        },
                        Document::Tasks => {
                            self.tasks = Some(text);
                        },
                    }
                    Outcome::Done
                } else {
                    Outcome::Failed(String::from_str("the data directory does not exist"))
                }
            },
            Effect::ProbeFile { doc } => {
                let found = match doc {
                    Document::Notes => self.notes.is_some(),
                    Document::Tasks => self.tasks.is_some(),
                };
                if found {
                    Outcome::Done
                } else {
                    Outcome::Absent
                }
            },
            Effect::ReadFile { doc } => {
                let file = match doc {
                    Document::Notes => &self.notes,
                    Document::Tasks => &self.tasks,
                };
                match file {
                    Some(text) => Outcome::Text(text.clone()),
                    None => Outcome::Failed(String::from_str("the file does not exist")),
                }
            },
        }
    }

    /// Runs a save to its end: performs each effect it asks for and hands
    /// it the outcome, until it replies.
    pub fn save(&mut self, job: SaveJob) -> (reply: Saved)
        ensures
            saved_view(reply) == old(self)@.save_reply(job@),
            final(self)@ == old(self)@.after_save(job@),
    {
        let mut current = job;
        loop
            invariant
                self@.save_reply(current@) == old(self)@.save_reply(job@),
                self@.after_save(current@) == old(self)@.after_save(job@),
            decreases current@.phase.effects_left(),
        {
            let outcome = self.perform(current.pending());
            match current.step(outcome) {
                SaveStep::Continue(next) => {
                    current = next;
                },
                SaveStep::Finish(reply) => {
                    return reply;
                },
            }
        }
    }

    /// Runs a load to its end: performs each effect it asks for and hands
    /// it the outcome, until it replies. The directory stays as it is.
    pub fn load(&mut self, job: LoadJob) -> (reply: Loaded)
        ensures
            loaded_view(reply) == old(self)@.load_reply(job),
            final(self)@ == old(self)@,
    {
        let mut current = job;
        loop
            invariant
                self@ == old(self)@,
                self@.load_reply(current) == self@.load_reply(job),
            decreases current.phase.effects_left(),
        {
            let outcome = self.perform(current.pending());
            match current.step(outcome) {
                LoadStep::Continue(next) => {
                    current = next;
                },
                LoadStep::Finish(reply) => {
                    return reply;
                },
            }
        }
    }
}

} // verus!
