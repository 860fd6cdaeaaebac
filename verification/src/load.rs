//! Loading a document: the text of its file, or the empty list where
//! nothing was saved yet.

use crate::document::Document;
use crate::error::{IoStage, StoreError, StoreErrorView};
use crate::host::{Effect, EffectView, Outcome, OutcomeView};
use vstd::prelude::*;

verus! {

/// How far a load has come: what it is waiting for.
#[derive(Clone, Copy, Debug, PartialEq, Eq, Structural)]
pub enum LoadPhase {
    /// Waiting to learn where the data directory is.
    Resolving,
    /// Waiting to learn whether the file exists.
    Probing,
    /// Waiting for the text of the file.
    Reading,
}

impl LoadPhase {
    /// How many effects a load in this phase still asks for, at most.
    pub open spec fn effects_left(self) -> nat {
        match self {
            LoadPhase::Resolving => 3,
            LoadPhase::Probing => 2,
            LoadPhase::Reading => 1,
        }
    }
}

/// A load in progress: which document, and how far.
#[derive(Clone, Copy, Debug, PartialEq, Eq, Structural)]
pub struct LoadJob {
    pub doc: Document,
    pub phase: LoadPhase,
}

/// The end of a load.
pub type Loaded = Result<String, StoreError>;

/// What a load does after an outcome: go on, or end with a reply.
pub enum LoadStep {
    Continue(LoadJob),
    Finish(Loaded),
}

pub enum LoadStepView {
    Continue(LoadJob),
    Finish(Result<Seq<char>, StoreErrorView>),
}

/// The reply of a load with its texts as sequences of characters.
pub open spec fn loaded_view(reply: Loaded) -> Result<Seq<char>, StoreErrorView> {
    match reply {
        Ok(text) => Ok(text@),
        Err(e) => Err(e@),
    }
}

impl View for LoadStep {
    type V = LoadStepView;

    open spec fn view(&self) -> LoadStepView {
        match self {
            LoadStep::Continue(job) => LoadStepView::Continue(*job),
            LoadStep::Finish(reply) => LoadStepView::Finish(loaded_view(*reply)),
        }
    }
}

/// What a load answers for a document that was never saved: the JSON text
/// of an empty list.
pub open spec fn empty_document() -> Seq<char> {
    "[]"@
}

impl LoadJob {
    /// A load that has not asked anything yet.
    pub open spec fn fresh(doc: Document) -> LoadJob {
        LoadJob { doc, phase: LoadPhase::Resolving }
    }

    /// What the host is asked to do next.
    pub open spec fn pending_spec(self) -> EffectView {
        match self.phase {
            LoadPhase::Resolving => EffectView::ResolveDataDir,
            LoadPhase::Probing => EffectView::ProbeFile { doc: self.doc },
            LoadPhase::Reading => EffectView::ReadFile { doc: self.doc },
        }
    }

    /// What the load does with an outcome. Without a file it ends with the
    /// empty list, which is no error; a file that is there is read, and
    /// its text is the reply as it stands. An outcome that does not answer
    /// the pending effect changes nothing.
    pub open spec fn step_spec(self, outcome: OutcomeView) -> LoadStepView {
        match (self.phase, outcome) {
            (LoadPhase::Resolving, OutcomeView::Done) => LoadStepView::Continue(
                LoadJob { phase: LoadPhase::Probing, ..self },
            ),
            (LoadPhase::Resolving, OutcomeView::Failed(reason)) => LoadStepView::Finish(
                Err(StoreErrorView::DirectoryResolution { reason }),
            ),
            (LoadPhase::Probing, OutcomeView::Done) => LoadStepView::Continue(
                LoadJob { phase: LoadPhase::Reading, ..self },
            ),
            (LoadPhase::Probing, OutcomeView::Absent) => LoadStepView::Finish(
                Ok(empty_document()),
            ),
            (LoadPhase::Reading, OutcomeView::Text(text)) => LoadStepView::Finish(Ok(text)),
            (LoadPhase::Reading, OutcomeView::Failed(reason)) => LoadStepView::Finish(
                Err(StoreErrorView::Io { stage: IoStage::Read(self.doc), reason }),
            ),
            _ => LoadStepView::Continue(self),
        }
    }

    /// What the host is asked to do next.
    pub fn pending(&self) -> (effect: Effect<'static>)
        ensures
            effect@ == self.pending_spec(),
    {
        match self.phase {
            LoadPhase::Resolving => Effect::ResolveDataDir,
            LoadPhase::Probing => Effect::ProbeFile { doc: self.doc },
            LoadPhase::Reading => Effect::ReadFile { doc: self.doc },
        }
    }

    /// Takes the host's outcome and says how the load goes on.
    pub fn step(self, outcome: Outcome) -> (next: LoadStep)
        ensures
            next@ == self.step_spec(outcome@),
    {
        match self.phase {
            LoadPhase::Resolving => match outcome {
                Outcome::Done => LoadStep::Continue(
                    LoadJob { doc: self.doc, phase: LoadPhase::Probing },
                ),
                Outcome::Failed(reason) => LoadStep::Finish(
                    Err(StoreError::DirectoryResolution { reason }),
                ),
                _ => LoadStep::Continue(self),
            },
            LoadPhase::Probing => match outcome {
                Outcome::Done => LoadStep::Continue(
                    LoadJob { doc: self.doc, phase: LoadPhase::Reading },
                ),
                Outcome::Absent => LoadStep::Finish(Ok(String::from_str("[]"))),
                _ => LoadStep::Continue(self),
            },
            LoadPhase::Reading => match outcome {
                Outcome::Text(text) => LoadStep::Finish(Ok(text)),
                Outcome::Failed(reason) => LoadStep::Finish(
                    Err(StoreError::Io { stage: IoStage::Read(self.doc), reason }),
                ),
                _ => LoadStep::Continue(self),
            },
        }
    }
}

/// Begins a load of the notes.
pub fn load_notes() -> (job: LoadJob)
    ensures
        job == LoadJob::fresh(Document::Notes),
{
    LoadJob { doc: Document::Notes, phase: LoadPhase::Resolving }
}

/// Begins a load of the tasks.
pub fn load_tasks() -> (job: LoadJob)
    ensures
        job == LoadJob::fresh(Document::Tasks),
{
    LoadJob { doc: Document::Tasks, phase: LoadPhase::Resolving }
}

} // verus!
