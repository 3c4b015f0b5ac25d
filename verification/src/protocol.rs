//! The safe-copy protocol: the step policy of one tag mutation.
//!
//! A file is never edited in place. The shell copies it to a scratch
//! location, reads and rewrites the tag there, and copies the scratch file
//! back only once the tag was persisted; the original is touched at that
//! final copy-back and nowhere else. Each phase here names the one
//! filesystem action the shell performs next; `edit_step` is the policy
//! that, given the action's outcome, decides the following phase. The laws
//! at the end pin the policy's two guarantees: a tag-read failure never
//! aborts an edit, and the copy-back is reached only on the success path.

use vstd::prelude::*;
use crate::errors::BatchError;

verus! {

/// The outcome the shell reports for one phase's action. `TagMissing` is
/// meaningful only when loading: the file carries no tag container at all.
#[derive(Debug, Clone, Copy, PartialEq, Eq, Structural)]
pub enum StepEvent {
    Success,
    Failure,
    TagMissing,
}

/// The phases of one file's mutation, each naming the action the shell
/// performs: verify the file exists (`Check`), copy it to the scratch
/// location (`Stage`), read the scratch copy's tag (`Load`), write the
/// edited tag into the scratch copy (`Store`), copy the scratch file back
/// over the original (`Commit`), delete the scratch file (`Clean`).
/// `Done` and `Stopped` are terminal.
#[derive(Debug, Clone, Copy, PartialEq, Eq, Structural)]
pub enum EditPhase {
    Check,
    Stage,
    Load,
    Store,
    Commit,
    Clean,
    Done,
    Stopped(BatchError),
}

/// The step rule: which phase follows which outcome.
pub open spec fn spec_step(phase: EditPhase, ev: StepEvent) -> EditPhase {
    match phase {
        EditPhase::Check => if ev == StepEvent::Success {
            EditPhase::Stage
        } else {
            EditPhase::Stopped(BatchError::FileNotFound)
        },
        EditPhase::Stage => if ev == StepEvent::Success {
            EditPhase::Load
        } else {
            EditPhase::Stopped(BatchError::CopyFailed)
        },
        // a missing or unreadable tag container degrades to an empty tag;
        // it never stops the edit
        EditPhase::Load => EditPhase::Store,
        EditPhase::Store => if ev == StepEvent::Success {
            EditPhase::Commit
        } else {
            EditPhase::Stopped(BatchError::TagWriteFailed)
        },
        EditPhase::Commit => if ev == StepEvent::Success {
            EditPhase::Clean
        } else {
            EditPhase::Stopped(BatchError::CopyFailed)
        },
        // the mutation already succeeded; a failed deletion is only logged
        EditPhase::Clean => EditPhase::Done,
        EditPhase::Done => EditPhase::Done,
        EditPhase::Stopped(e) => EditPhase::Stopped(e),
    }
}

/// Decide the phase that follows `phase` once its action ended with `ev`.
pub fn edit_step(phase: EditPhase, ev: StepEvent) -> (next: EditPhase)
    ensures
        next == spec_step(phase, ev),
{
    match phase {
        EditPhase::Check => if ev == StepEvent::Success {
            EditPhase::Stage
        } else {
            EditPhase::Stopped(BatchError::FileNotFound)
        },
        EditPhase::Stage => if ev == StepEvent::Success {
            EditPhase::Load
        } else {
            EditPhase::Stopped(BatchError::CopyFailed)
        },
        EditPhase::Load => EditPhase::Store,
        EditPhase::Store => if ev == StepEvent::Success {
            EditPhase::Commit
        } else {
            EditPhase::Stopped(BatchError::TagWriteFailed)
        },
        EditPhase::Commit => if ev == StepEvent::Success {
            EditPhase::Clean
        } else {
            EditPhase::Stopped(BatchError::CopyFailed)
        },
        EditPhase::Clean => EditPhase::Done,
        EditPhase::Done => EditPhase::Done,
        EditPhase::Stopped(e) => EditPhase::Stopped(e),
    }
}

/// The phase reached from `phase` after the outcomes in `events`, in order.
pub open spec fn run_steps(phase: EditPhase, events: Seq<StepEvent>) -> EditPhase
    decreases events.len(),
{
    if events.len() == 0 {
        phase
    } else {
        run_steps(spec_step(phase, events[0]), events.skip(1))
    }
}

/// A stopped edit stays stopped, whatever else is reported.
pub proof fn lemma_stopped_absorbs(e: BatchError, events: Seq<StepEvent>)
    ensures
        run_steps(EditPhase::Stopped(e), events) == EditPhase::Stopped(e),
    decreases events.len(),
{
    if events.len() > 0 {
        lemma_stopped_absorbs(e, events.skip(1));
    }
}

/// A finished edit stays finished.
pub proof fn lemma_done_absorbs(events: Seq<StepEvent>)
    ensures
        run_steps(EditPhase::Done, events) == EditPhase::Done,
    decreases events.len(),
{
    if events.len() > 0 {
        lemma_done_absorbs(events.skip(1));
    }
}

/// A failure to read the tag container never aborts the edit: from the
/// load phase, every outcome proceeds to storing the edited tag.
pub proof fn lemma_load_never_fatal()
    ensures
        forall|ev: StepEvent| spec_step(EditPhase::Load, ev) == EditPhase::Store,
{
}

/// The original file is reached only on the success path: an edit stands in
/// the copy-back phase exactly when the existence check, the staging copy
/// and the tag write all succeeded, and the copy-back is the fifth action.
pub proof fn lemma_commit_needs_persisted_tag(events: Seq<StepEvent>)
    requires
        run_steps(EditPhase::Check, events) == EditPhase::Commit,
    ensures
        events.len() == 4,
        events[0] == StepEvent::Success,
        events[1] == StepEvent::Success,
        events[3] == StepEvent::Success,
{
    assert(events.len() >= 1);
    let s1 = events.skip(1);
    let p1 = spec_step(EditPhase::Check, events[0]);
    assert(run_steps(EditPhase::Check, events) == run_steps(p1, s1));
    if events[0] != StepEvent::Success {
        lemma_stopped_absorbs(BatchError::FileNotFound, s1);
    }
    assert(p1 == EditPhase::Stage);
    assert(s1.len() >= 1);
    let s2 = s1.skip(1);
    let p2 = spec_step(p1, s1[0]);
    assert(run_steps(p1, s1) == run_steps(p2, s2));
    assert(s1[0] == events[1]);
    if events[1] != StepEvent::Success {
        lemma_stopped_absorbs(BatchError::CopyFailed, s2);
    }
    assert(p2 == EditPhase::Load);
    assert(s2.len() >= 1);
    let s3 = s2.skip(1);
    let p3 = spec_step(p2, s2[0]);
    assert(run_steps(p2, s2) == run_steps(p3, s3));
    assert(p3 == EditPhase::Store);
    assert(s3.len() >= 1);
    let s4 = s3.skip(1);
    let p4 = spec_step(p3, s3[0]);
    assert(run_steps(p3, s3) == run_steps(p4, s4));
    assert(s3[0] == events[3]);
    if events[3] != StepEvent::Success {
        lemma_stopped_absorbs(BatchError::TagWriteFailed, s4);
    }
    assert(p4 == EditPhase::Commit);
    if s4.len() > 0 {
        let s5 = s4.skip(1);
        let p5 = spec_step(p4, s4[0]);
        assert(run_steps(p4, s4) == run_steps(p5, s5));
        if s4[0] == StepEvent::Success {
            lemma_no_commit_from_clean(s5);
        } else {
            lemma_stopped_absorbs(BatchError::CopyFailed, s5);
        }
    }
    assert(events.len() == 4);
}

/// Once the copy-back happened, no later phase is the copy-back again.
proof fn lemma_no_commit_from_clean(events: Seq<StepEvent>)
    ensures
        run_steps(EditPhase::Clean, events) != EditPhase::Commit,
{
    if events.len() > 0 {
        lemma_done_absorbs(events.skip(1));
    }
}

/// The success path: when the existence check, the staging copy, the tag
/// write and the copy-back all succeed, six actions finish the edit,
/// whatever the tag read and the scratch deletion reported.
pub proof fn lemma_protocol_success(events: Seq<StepEvent>)
    requires
        events.len() == 6,
        events[0] == StepEvent::Success,
        events[1] == StepEvent::Success,
        events[3] == StepEvent::Success,
        events[4] == StepEvent::Success,
    ensures
        run_steps(EditPhase::Check, events) == EditPhase::Done,
{
    let s1 = events.skip(1);
    let s2 = s1.skip(1);
    let s3 = s2.skip(1);
    let s4 = s3.skip(1);
    let s5 = s4.skip(1);
    assert(s1[0] == events[1] && s2[0] == events[2] && s3[0] == events[3] && s4[0] == events[4]
        && s5[0] == events[5]);
    assert(run_steps(EditPhase::Check, events) == run_steps(EditPhase::Stage, s1));
    assert(run_steps(EditPhase::Stage, s1) == run_steps(EditPhase::Load, s2));
    assert(run_steps(EditPhase::Load, s2) == run_steps(EditPhase::Store, s3));
    assert(run_steps(EditPhase::Store, s3) == run_steps(EditPhase::Commit, s4));
    assert(run_steps(EditPhase::Commit, s4) == run_steps(EditPhase::Clean, s5));
    assert(s5.len() == 1);
    assert(run_steps(EditPhase::Clean, s5) == run_steps(EditPhase::Done, s5.skip(1)));
    assert(s5.skip(1).len() == 0);
}

} // verus!
