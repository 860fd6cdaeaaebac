//! Saving a document: make sure the data directory is there, then replace
//! the document's file by the new text.

use crate::document::Document;
use crate::error::{IoStage, StoreError, StoreErrorView};
use crate::host::{Effect, EffectView, Outcome, OutcomeView};
use crate::json::{encode, encoded_view, json_text, TasksPayload};
use vstd::prelude::*;

verus! {

/// How far a save has come: what it is waiting for.
#[derive(Clone, Copy, Debug, PartialEq, Eq, Structural)]
pub enum SavePhase {
    /// Waiting to learn where the data directory is.
    Resolving,
    /// Waiting for the data directory to be created.
    Creating,
    /// Waiting for the file to be written.
    Writing,
}

impl SavePhase {
    /// How many effects a save in this phase still asks for, at most.
    pub open spec fn effects_left(self) -> nat {
        match self {
            SavePhase::Resolving => 3,
            SavePhase::Creating => 2,
            SavePhase::Writing => 1,
        }
    }
}

/// What is to be saved: text as it came, or a JSON value yet to be encoded.
enum Body {
    Text(String),
    Json(serde_json::Value),
}

enum SaveState {
    Resolving(Body),
    Creating(Body),
    Writing(String),
}

/// A save in progress.
pub struct SaveJob {
    doc: Document,
    state: SaveState,
}

/// A save in progress, as a mathematical value: which document, how far,
/// and the text that is to reach the disk (or why there is no such text).
pub struct SaveJobView {
    pub doc: Document,
    pub phase: SavePhase,
    pub text: Result<Seq<char>, Seq<char>>,
}

/// The end of a save.
pub type Saved = Result<(), StoreError>;

/// What a save does after an outcome: go on, or end with a reply.
pub enum SaveStep {
    Continue(SaveJob),
    Finish(Saved),
}

pub enum SaveStepView {
    Continue(SaveJobView),
    Finish(Result<(), StoreErrorView>),
}

impl Body {
    spec fn text(self) -> Result<Seq<char>, Seq<char>> {
        match self {
            Body::Text(text) => Ok(text@),
            Body::Json(value) => json_text(value),
        }
    }
}

impl View for SaveJob {
    type V = SaveJobView;

    closed spec fn view(&self) -> SaveJobView {
        match self.state {
            SaveState::Resolving(body) => SaveJobView {
                doc: self.doc,
                phase: SavePhase::Resolving,
                text: body.text(),
            },
            SaveState::Creating(body) => SaveJobView {
                doc: self.doc,
                phase: SavePhase::Creating,
                text: body.text(),
            },
            SaveState::Writing(content) => SaveJobView {
                doc: self.doc,
                phase: SavePhase::Writing,
                text: Ok(content@),
            },
        }
    }
}

/// The reply of a save with its texts as sequences of characters.
pub open spec fn saved_view(reply: Saved) -> Result<(), StoreErrorView> {
    match reply {
        Ok(_) => Ok(()),
        Err(e) => Err(e@),
    }
}

impl View for SaveStep {
    type V = SaveStepView;

    open spec fn view(&self) -> SaveStepView {
        match self {
            SaveStep::Continue(job) => SaveStepView::Continue(job@),
            SaveStep::Finish(reply) => SaveStepView::Finish(saved_view(*reply)),
        }
    }
}

impl SaveJobView {
    /// A save that has reached the writing has a text to write.
    pub open spec fn wf(self) -> bool {
        self.phase is Writing ==> self.text is Ok
    }

    /// A save of the given text that has not asked anything yet.
    pub open spec fn fresh(doc: Document, text: Result<Seq<char>, Seq<char>>) -> SaveJobView {
        SaveJobView { doc, phase: SavePhase::Resolving, text }
    }

    /// What the host is asked to do next.
    pub open spec fn pending(self) -> EffectView {
        match self.phase {
            SavePhase::Resolving => EffectView::ResolveDataDir,
            SavePhase::Creating => EffectView::CreateDataDir,
            SavePhase::Writing => EffectView::WriteFile { doc: self.doc, content: self.text->Ok_0 },
        }
    }

    /// What follows once the encoder has answered and the directory stands:
    /// the writing, or the end for want of a text.
    pub open spec fn after_encoding(
        doc: Document,
        encoded: Result<Seq<char>, Seq<char>>,
    ) -> SaveStepView {
        match encoded {
            Ok(content) => SaveStepView::Continue(
                SaveJobView { doc, phase: SavePhase::Writing, text: Ok(content) },
            ),
            Err(reason) => SaveStepView::Finish(Err(StoreErrorView::Serialization { reason })),
        }
    }

    /// What the save does with an outcome. A failure ends it with the error
    /// of the phase; success moves it on; an outcome that does not answer
    /// the pending effect changes nothing.
    pub open spec fn step(self, outcome: OutcomeView) -> SaveStepView {
        match (self.phase, outcome) {
            (SavePhase::Resolving, OutcomeView::Done) => SaveStepView::Continue(
                SaveJobView { phase: SavePhase::Creating, ..self },
            ),
            (SavePhase::Resolving, OutcomeView::Failed(reason)) => SaveStepView::Finish(
                Err(StoreErrorView::DirectoryResolution { reason }),
            ),
            (SavePhase::Creating, OutcomeView::Done) => Self::after_encoding(self.doc, self.text),
            (SavePhase::Creating, OutcomeView::Failed(reason)) => SaveStepView::Finish(
                Err(StoreErrorView::Io { stage: IoStage::CreateDir, reason }),
            ),
            (SavePhase::Writing, OutcomeView::Done) => SaveStepView::Finish(Ok(())),
            (SavePhase::Writing, OutcomeView::Failed(reason)) => SaveStepView::Finish(
                Err(StoreErrorView::Io { stage: IoStage::Write(self.doc), reason }),
            ),
            _ => SaveStepView::Continue(self),
        }
    }
}

impl SaveJob {
    /// What the host is asked to do next.
    pub fn pending(&self) -> (effect: Effect<'_>)
        ensures
            effect@ == self@.pending(),
            self@.wf(),
    {
        match &self.state {
            SaveState::Resolving(_) => Effect::ResolveDataDir,
            SaveState::Creating(_) => Effect::CreateDataDir,
            SaveState::Writing(content) => Effect::WriteFile {
                doc: self.doc,
                content: content.as_str(),
            },
        }
    }

    /// The step that follows the creation of the directory, given what the
    /// encoder answered: with a text the save goes on to write it; without
    /// one it ends with a serialization error that carries the encoder's
    /// description.
    pub fn after_encoding(doc: Document, encoded: Result<String, String>) -> (next: SaveStep)
        ensures
            next@ == SaveJobView::after_encoding(doc, encoded_view(encoded)),
    {
        match encoded {
            Ok(content) => SaveStep::Continue(SaveJob { doc, state: SaveState::Writing(content) }),
            Err(reason) => SaveStep::Finish(Err(StoreError::Serialization { reason })),
        }
    }

    /// Takes the host's outcome and says how the save goes on.
    pub fn step(self, outcome: Outcome) -> (next: SaveStep)
        ensures
            next@ == self@.step(outcome@),
            next matches SaveStep::Continue(job) ==> job@.wf(),
    {
        let SaveJob { doc, state } = self;
        match state {
            SaveState::Resolving(body) => match outcome {
                Outcome::Done => SaveStep::Continue(
                    SaveJob { doc, state: SaveState::Creating(body) },
                ),
                Outcome::Failed(reason) => SaveStep::Finish(
                    Err(StoreError::DirectoryResolution { reason }),
                ),
                _ => SaveStep::Continue(SaveJob { doc, state: SaveState::Resolving(body) }),
            },
            SaveState::Creating(body) => match outcome {
                Outcome::Done => match body {
                    Body::Text(text) => Self::after_encoding(doc, Ok(text)),
                    Body::Json(value) => Self::after_encoding(doc, encode(&value)),
                },
                Outcome::Failed(reason) => SaveStep::Finish(
                    Err(StoreError::Io { stage: IoStage::CreateDir, reason }),
                ),
                _ => SaveStep::Continue(SaveJob { doc, state: SaveState::Creating(body) }),
            },
            SaveState::Writing(content) => match outcome {
                Outcome::Done => SaveStep::Finish(Ok(())),
                Outcome::Failed(reason) => SaveStep::Finish(
                    Err(StoreError::Io { stage: IoStage::Write(doc), reason }),
                ),
                _ => SaveStep::Continue(SaveJob { doc, state: SaveState::Writing(content) }),
            },
        }
    }
}

/// Begins a save of the notes: the text is stored as it is given.
pub fn save_notes(notes: String) -> (job: SaveJob)
    ensures
        job@ == SaveJobView::fresh(Document::Notes, Ok(notes@)),
{
    SaveJob { doc: Document::Notes, state: SaveState::Resolving(Body::Text(notes)) }
}

/// Begins a save of the tasks: what the envelope holds is encoded as JSON
/// text, and that text alone is stored.
pub fn save_tasks(payload: TasksPayload) -> (job: SaveJob)
    ensures
        job@ == SaveJobView::fresh(Document::Tasks, json_text(payload.tasks)),
{
    SaveJob { doc: Document::Tasks, state: SaveState::Resolving(Body::Json(payload.tasks)) }
}

} // verus!
