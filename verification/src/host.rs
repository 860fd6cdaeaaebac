//! What a command asks of the host, and what the host answers.
//!
//! A command never touches the disk. It names one effect at a time; the
//! host performs it and reports the outcome.

use crate::document::Document;
use vstd::prelude::*;

verus! {

/// One thing the host is asked to do.
#[derive(Debug)]
pub enum Effect<'a> {
    /// Find out where the data directory is.
    ResolveDataDir,
    /// Create the data directory and every missing directory above it.
    CreateDataDir,
    /// Replace the whole file of the document by the given text.
    WriteFile { doc: Document, content: &'a str },
    /// Tell whether the file of the document exists.
    ProbeFile { doc: Document },
    /// Read the whole file of the document as text.
    ReadFile { doc: Document },
}

/// An effect with its text as a sequence of characters.
pub enum EffectView {
    ResolveDataDir,
    CreateDataDir,
    WriteFile { doc: Document, content: Seq<char> },
    ProbeFile { doc: Document },
    ReadFile { doc: Document },
}

impl<'a> View for Effect<'a> {
    type V = EffectView;

    open spec fn view(&self) -> EffectView {
        match self {
            Effect::ResolveDataDir => EffectView::ResolveDataDir,
            Effect::CreateDataDir => EffectView::CreateDataDir,
            Effect::WriteFile { doc, content } => EffectView::WriteFile {
                doc: *doc,
                content: content@,
            },
            Effect::ProbeFile { doc } => EffectView::ProbeFile { doc: *doc },
            Effect::ReadFile { doc } => EffectView::ReadFile { doc: *doc },
        }
    }
}

/// What the host reports after an effect.
#[derive(Debug)]
pub enum Outcome {
    /// The effect was carried out; for a probe: the file exists.
    Done,
    /// The answer to a probe: there is no such file.
    Absent,
    /// The answer to a read: what the file holds.
    Text(String),
    /// The effect failed, with the host's description of the failure.
    Failed(String),
}

/// An outcome with its text as a sequence of characters.
pub enum OutcomeView {
    Done,
    Absent,
    Text(Seq<char>),
    Failed(Seq<char>),
}

impl View for Outcome {
    type V = OutcomeView;

    open spec fn view(&self) -> OutcomeView {
        match self {
            Outcome::Done => OutcomeView::Done,
            Outcome::Absent => OutcomeView::Absent,
            Outcome::Text(text) => OutcomeView::Text(text@),
            Outcome::Failed(reason) => OutcomeView::Failed(reason@),
        }
    }
}

impl EffectView {
    /// Whether the outcome is one of the answers the effect can have. A
    /// command leaves any other outcome aside and goes on waiting.
    pub open spec fn answered_by(self, outcome: OutcomeView) -> bool {
        match self {
            EffectView::ResolveDataDir | EffectView::CreateDataDir | EffectView::WriteFile {
                ..
            } => outcome is Done || outcome is Failed,
            EffectView::ProbeFile { .. } => outcome is Done || outcome is Absent,
            EffectView::ReadFile { .. } => outcome is Text || outcome is Failed,
        }
    }
}

} // verus!
