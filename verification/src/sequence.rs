//! The order of the steps of one demonstration: allocate, record, submit,
//! wait, verify. The caller performs each step on the device and reports how
//! it went; what is due next is decided here.
//!
//! A submission runs on the device while the host goes on. What a buffer
//! holds may be read only once the wait on that submission has returned.

use vstd::prelude::*;

verus! {

/// Where a demonstration stands: the step that is due, or how it ended.
#[derive(Clone, Copy, Debug, PartialEq, Eq, Structural)]
pub enum Stage {
    /// The buffers are to be created and filled.
    Allocate,
    /// The command is to be recorded.
    Record,
    /// The recorded command is to be submitted to the queue.
    Submit,
    /// The submission is in flight; the host is to block until it completes.
    Wait,
    /// The submission is complete; the buffers are to be read and checked.
    Verify,
    /// Every step succeeded.
    Finished,
    /// A step failed. Nothing is retried.
    Aborted,
}

/// How the step that was due went.
#[derive(Clone, Copy, Debug, PartialEq, Eq, Structural)]
pub enum Outcome {
    Succeeded,
    Failed,
}

/// The stage that follows `stage` once its step went as `outcome` says.
pub open spec fn advance_spec(stage: Stage, outcome: Outcome) -> Stage {
    match stage {
        Stage::Finished => Stage::Finished,
        Stage::Aborted => Stage::Aborted,
        _ => match outcome {
            Outcome::Failed => Stage::Aborted,
            Outcome::Succeeded => match stage {
                Stage::Allocate => Stage::Record,
                Stage::Record => Stage::Submit,
                Stage::Submit => Stage::Wait,
                Stage::Wait => Stage::Verify,
                _ => Stage::Finished,
            },
        },
    }
}

/// The stage reached from the start after the steps went as `outcomes` say,
/// in that order.
pub open spec fn stage_after(outcomes: Seq<Outcome>) -> Stage
    decreases outcomes.len(),
{
    if outcomes.len() == 0 {
        Stage::Allocate
    } else {
        advance_spec(stage_after(outcomes.drop_last()), outcomes.last())
    }
}

/// At `stage` the last submission has completed, so that what the buffers
/// hold may be read.
pub open spec fn readable(stage: Stage) -> bool {
    stage == Stage::Verify || stage == Stage::Finished
}

/// The stage at which every demonstration starts.
pub fn start() -> (stage: Stage)
    ensures
        stage == Stage::Allocate,
        stage == stage_after(Seq::<Outcome>::empty()),
{
    Stage::Allocate
}

/// Moves on from `stage` after its step went as `outcome` says. A failure
/// aborts the demonstration, and an ended demonstration stays as it is.
pub fn advance(stage: Stage, outcome: Outcome) -> (next: Stage)
    ensures
        next == advance_spec(stage, outcome),
{
    match stage {
        Stage::Finished => Stage::Finished,
        Stage::Aborted => Stage::Aborted,
        _ => match outcome {
            Outcome::Failed => Stage::Aborted,
            Outcome::Succeeded => match stage {
                Stage::Allocate => Stage::Record,
                Stage::Record => Stage::Submit,
                Stage::Submit => Stage::Wait,
                Stage::Wait => Stage::Verify,
                _ => Stage::Finished,
            },
        },
    }
}

/// Whether the buffers may be read at `stage`: only once the wait on the
/// submission has returned.
pub fn may_read(stage: Stage) -> (allowed: bool)
    ensures
        allowed == readable(stage),
{
    match stage {
        Stage::Verify | Stage::Finished => true,
        _ => false,
    }
}

/// Whether the demonstration has ended at `stage`, well or badly.
pub fn has_ended(stage: Stage) -> (ended: bool)
    ensures
        ended == (stage == Stage::Finished || stage == Stage::Aborted),
{
    match stage {
        Stage::Finished | Stage::Aborted => true,
        _ => false,
    }
}

/// One more outcome moves the stage on by one step.
pub proof fn stage_after_push(outcomes: Seq<Outcome>, outcome: Outcome)
    ensures
        stage_after(outcomes.push(outcome)) == advance_spec(stage_after(outcomes), outcome),
{
    assert(outcomes.push(outcome).drop_last() =~= outcomes);
}

/// How far a demonstration has come: the number of steps that succeeded on
/// the way to `stage`, where it has not been aborted.
pub open spec fn steps_done(stage: Stage) -> int {
    match stage {
        Stage::Allocate => 0,
        Stage::Record => 1,
        Stage::Submit => 2,
        Stage::Wait => 3,
        Stage::Verify => 4,
        Stage::Finished => 5,
        Stage::Aborted => -1,
    }
}

/// A stage other than the aborted one is reached only by that many
/// successes in a row from the start.
proof fn progress_needs_successes(outcomes: Seq<Outcome>)
    requires
        stage_after(outcomes) != Stage::Aborted,
    ensures
        steps_done(stage_after(outcomes)) <= outcomes.len(),
        stage_after(outcomes) != Stage::Finished ==> steps_done(stage_after(outcomes))
            == outcomes.len(),
        forall|i: int|
            0 <= i < steps_done(stage_after(outcomes)) ==> #[trigger] outcomes[i]
                == Outcome::Succeeded,
        forall|k: int|
            0 <= k <= steps_done(stage_after(outcomes)) ==> steps_done(
                #[trigger] stage_after(outcomes.take(k)),
            ) == k,
    decreases outcomes.len(),
{
    if outcomes.len() == 0 {
        assert forall|k: int| 0 <= k <= 0 implies steps_done(
            #[trigger] stage_after(outcomes.take(k)),
        ) == k by {
            assert(outcomes.take(0) =~= outcomes);
        }
    } else {
        let before = outcomes.drop_last();
        progress_needs_successes(before);
        let done = steps_done(stage_after(outcomes));
        assert forall|i: int| 0 <= i < done implies #[trigger] outcomes[i]
            == Outcome::Succeeded by {
            if i < before.len() {
                assert(outcomes[i] == before[i]);
            }
        }
        assert forall|k: int| 0 <= k <= done implies steps_done(
            #[trigger] stage_after(outcomes.take(k)),
        ) == k by {
            if k == outcomes.len() {
                assert(outcomes.take(k) =~= outcomes);
            } else {
                assert(outcomes.take(k) =~= before.take(k));
            }
        }
    }
}

/// No read before the wait: whenever the buffers may be read, the first
/// four steps all succeeded, the fourth of them was the wait on the
/// submission, and the submission was made in the step before it.
pub proof fn read_only_after_wait(outcomes: Seq<Outcome>)
    requires
        readable(stage_after(outcomes)),
    ensures
        outcomes.len() >= 4,
        forall|i: int| 0 <= i < 4 ==> #[trigger] outcomes[i] == Outcome::Succeeded,
        stage_after(outcomes.take(2)) == Stage::Submit,
        stage_after(outcomes.take(3)) == Stage::Wait,
        stage_after(outcomes.take(4)) == Stage::Verify,
{
    progress_needs_successes(outcomes);
    assert(steps_done(stage_after(outcomes.take(2))) == 2);
    assert(steps_done(stage_after(outcomes.take(3))) == 3);
    assert(steps_done(stage_after(outcomes.take(4))) == 4);
}

/// While a submission is in flight, and at every stage before it, the
/// buffers may not be read.
pub proof fn no_read_in_flight(outcomes: Seq<Outcome>)
    requires
        outcomes.len() < 4,
    ensures
        !readable(stage_after(outcomes)),
{
    if readable(stage_after(outcomes)) {
        read_only_after_wait(outcomes);
    }
}

/// A failure is final: once a step has failed before the end, the
/// demonstration is aborted whatever is reported afterwards.
pub proof fn failure_is_final(outcomes: Seq<Outcome>, k: int)
    requires
        0 <= k < outcomes.len(),
        k < 5,
        outcomes[k] == Outcome::Failed,
    ensures
        stage_after(outcomes) == Stage::Aborted,
{
    if stage_after(outcomes) != Stage::Aborted {
        progress_needs_successes(outcomes);
    }
}

/// Five successes in a row finish the demonstration.
pub proof fn five_successes_finish(outcomes: Seq<Outcome>)
    requires
        outcomes.len() == 5,
        forall|i: int| 0 <= i < 5 ==> #[trigger] outcomes[i] == Outcome::Succeeded,
    ensures
        stage_after(outcomes) == Stage::Finished,
{
    let s = Outcome::Succeeded;
    let o0 = Seq::<Outcome>::empty();
    stage_after_push(o0, s);
    stage_after_push(o0.push(s), s);
    stage_after_push(o0.push(s).push(s), s);
    stage_after_push(o0.push(s).push(s).push(s), s);
    stage_after_push(o0.push(s).push(s).push(s).push(s), s);
    assert(outcomes =~= o0.push(s).push(s).push(s).push(s).push(s));
}

} // verus!
