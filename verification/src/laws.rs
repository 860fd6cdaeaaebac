//! What holds of saving and loading, whatever the directory held before.

use crate::document::Document;
use crate::error::StoreErrorView;
use crate::host::{EffectView, OutcomeView};
use crate::load::{empty_document, LoadJob, LoadStepView};
use crate::memory::DataDir;
use crate::save::{SaveJobView, SaveStepView};
use vstd::prelude::*;

verus! {

/// What was saved is what is loaded: a save of a text succeeds, and a load
/// of the same document that follows it replies with that text, character
/// for character.
pub proof fn law_round_trip(dir: DataDir, doc: Document, text: Seq<char>)
    ensures
        dir.save_reply(SaveJobView::fresh(doc, Ok(text))) is Ok,
        dir.after_save(SaveJobView::fresh(doc, Ok(text))).load_reply(LoadJob::fresh(doc)) == Ok::<
            Seq<char>,
            StoreErrorView,
        >(text),
{
}

/// A document that has no file loads as the empty list, and that is no
/// error. In a directory that was never created this holds of every
/// document.
pub proof fn law_missing_file_default(dir: DataDir, doc: Document)
    ensures
        dir.file(doc) is None ==> dir.load_reply(LoadJob::fresh(doc)) == Ok::<
            Seq<char>,
            StoreErrorView,
        >(empty_document()),
        DataDir::empty().load_reply(LoadJob::fresh(doc)) == Ok::<Seq<char>, StoreErrorView>(
            empty_document(),
        ),
{
}

/// Saving the same text a second time changes nothing: the directory is
/// what it was after the first save, and the reply is the same.
pub proof fn law_save_idempotent(dir: DataDir, doc: Document, text: Result<Seq<char>, Seq<char>>)
    ensures
        ({
            let job = SaveJobView::fresh(doc, text);
            &&& dir.after_save(job).after_save(job) == dir.after_save(job)
            &&& dir.after_save(job).save_reply(job) == dir.save_reply(job)
        }),
{
}

/// A save replaces the file whole: of what the file held before, nothing
/// is left; and the other document's file is not touched.
pub proof fn law_save_replaces(dir: DataDir, doc: Document, other: Document, text: Seq<char>)
    requires
        other != doc,
    ensures
        ({
            let job = SaveJobView::fresh(doc, Ok(text));
            &&& dir.after_save(job).file(doc) == Some(text)
            &&& dir.after_save(job).file(other) == dir.file(other)
            &&& dir.after_save(job).present
        }),
{
}

/// A save takes an outcome to heart exactly if it answers the effect that
/// is pending: such an outcome ends the save or brings it nearer to its
/// end, and any other leaves it as it was.
pub proof fn law_save_progress(job: SaveJobView, outcome: OutcomeView)
    requires
        job.wf(),
    ensures
        !job.pending().answered_by(outcome) ==> job.step(outcome) == SaveStepView::Continue(job),
        job.pending().answered_by(outcome) ==> match job.step(outcome) {
            SaveStepView::Continue(next) => next.wf() && next.doc == job.doc && next.text
                == job.text && next.phase.effects_left() < job.phase.effects_left(),
            SaveStepView::Finish(_) => true,
        },
{
}

/// A load takes an outcome to heart exactly if it answers the effect that
/// is pending: such an outcome ends the load or brings it nearer to its
/// end, and any other leaves it as it was.
pub proof fn law_load_progress(job: LoadJob, outcome: OutcomeView)
    ensures
        !job.pending_spec().answered_by(outcome) ==> job.step_spec(outcome)
            == LoadStepView::Continue(job),
        job.pending_spec().answered_by(outcome) ==> match job.step_spec(outcome) {
            LoadStepView::Continue(next) => next.doc == job.doc && next.phase.effects_left()
                < job.phase.effects_left(),
            LoadStepView::Finish(_) => true,
        },
{
}

/// The directory in memory answers every effect with an outcome that the
/// effect can have, and only a creation or a write changes it.
pub proof fn law_directory_answers(dir: DataDir, effect: EffectView)
    ensures
        effect.answered_by(dir.perform(effect).0),
        !(effect is CreateDataDir || effect is WriteFile) ==> dir.perform(effect).1 == dir,
{
}

} // verus!
