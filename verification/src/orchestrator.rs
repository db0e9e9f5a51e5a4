//! The run's sequencing and failure policy: templates are applied before any
//! write, the library stage precedes every book stage, a template or library
//! failure aborts the run, and one library's book-stage failure only moves
//! the loop to the next library.
use vstd::prelude::*;

verus! {

/// Where the run stands: applying templates, loading the library set, working
/// through the per-library book loop, finished, or aborted.
#[derive(Clone, Copy, PartialEq, Eq, Structural, Debug)]
pub enum RunStage {
    ApplyTemplates,
    LoadLibraries,
    LoadBooks { remaining: usize },
    Done,
    Aborted,
}

/// What one stage reports back: templates applied or rejected, the library
/// stage done (with how many libraries the book loop must visit) or failed,
/// one library's book stage finished (well or not).
#[derive(Clone, Copy, PartialEq, Eq, Structural, Debug)]
pub enum RunEvent {
    TemplatesApplied { ok: bool },
    LibrariesLoaded { ok: bool, page_identifiers: usize },
    BookStageDone { ok: bool },
}

/// Which events each stage admits.
pub open spec fn run_event_enabled(stage: RunStage, ev: RunEvent) -> bool {
    match ev {
        RunEvent::TemplatesApplied { .. } => stage is ApplyTemplates,
        RunEvent::LibrariesLoaded { .. } => stage is LoadLibraries,
        RunEvent::BookStageDone { .. } => stage matches RunStage::LoadBooks { remaining }
            && remaining > 0,
    }
}

/// The failure policy as a transition function: a template or library failure
/// aborts; a book-stage outcome, good or bad, only advances the loop.
pub open spec fn spec_run_step(stage: RunStage, ev: RunEvent) -> RunStage {
    match ev {
        RunEvent::TemplatesApplied { ok } => if ok {
            RunStage::LoadLibraries
        } else {
            RunStage::Aborted
        },
        RunEvent::LibrariesLoaded { ok, page_identifiers } => if ok {
            if page_identifiers == 0 {
                RunStage::Done
            } else {
                RunStage::LoadBooks { remaining: page_identifiers }
            }
        } else {
            RunStage::Aborted
        },
        RunEvent::BookStageDone { ok } => match stage {
            RunStage::LoadBooks { remaining } => if remaining <= 1 {
                RunStage::Done
            } else {
                RunStage::LoadBooks { remaining: (remaining - 1) as usize }
            },
            _ => stage,
        },
    }
}

/// Takes one step of the run.
pub fn run_step(stage: RunStage, ev: RunEvent) -> (r: RunStage)
    requires
        run_event_enabled(stage, ev),
    ensures
        r == spec_run_step(stage, ev),
{
    match ev {
        RunEvent::TemplatesApplied { ok } => if ok {
            RunStage::LoadLibraries
        } else {
            RunStage::Aborted
        },
        RunEvent::LibrariesLoaded { ok, page_identifiers } => if ok {
            if page_identifiers == 0 {
                RunStage::Done
            } else {
                RunStage::LoadBooks { remaining: page_identifiers }
            }
        } else {
            RunStage::Aborted
        },
        RunEvent::BookStageDone { ok: _ } => match stage {
            RunStage::LoadBooks { remaining } => if remaining <= 1 {
                RunStage::Done
            } else {
                RunStage::LoadBooks { remaining: remaining - 1 }
            },
            _ => stage,
        },
    }
}

/// Law: one library's book-stage failure never aborts the run; the loop
/// simply advances, exactly as a success would.
pub proof fn lemma_book_failure_continues(stage: RunStage, ok: bool)
    requires
        run_event_enabled(stage, RunEvent::BookStageDone { ok }),
    ensures
        !(spec_run_step(stage, RunEvent::BookStageDone { ok }) is Aborted),
        spec_run_step(stage, RunEvent::BookStageDone { ok }) == spec_run_step(
            stage,
            RunEvent::BookStageDone { ok: true },
        ),
{
}

/// Law: a template rejection or a library-stage failure is fatal: the run
/// aborts before any later stage.
pub proof fn lemma_fatal_stages(stage: RunStage, n: usize)
    ensures
        run_event_enabled(stage, RunEvent::TemplatesApplied { ok: false })
            ==> spec_run_step(stage, RunEvent::TemplatesApplied { ok: false }) is Aborted,
        run_event_enabled(stage, RunEvent::LibrariesLoaded { ok: false, page_identifiers: n })
            ==> spec_run_step(
            stage,
            RunEvent::LibrariesLoaded { ok: false, page_identifiers: n },
        ) is Aborted,
{
}

} // verus!
