//! The program as a whole: set up the context, run the copy demonstration,
//! run the compute demonstration, and stop. Before each phase a line names
//! it; any failure ends the program with a failing exit code.

use vstd::prelude::*;
use crate::sequence::Outcome;

verus! {

/// Where the program stands: the phase that is due, or how it ended.
#[derive(Clone, Copy, Debug, PartialEq, Eq, Structural)]
pub enum Phase {
    /// The execution context is to be set up.
    Init,
    /// The copy demonstration is to be run.
    CopyDemo,
    /// The compute demonstration is to be run.
    ComputeDemo,
    /// Every phase succeeded.
    Done,
    /// A phase failed.
    Aborted,
}

/// The exit code of a program that succeeded in full.
pub const EXIT_SUCCESS: i32 = 0;

/// The exit code of a program that gave up on a failure.
pub const EXIT_FAILURE: i32 = 1;

/// The phase that follows `phase` once it went as `outcome` says.
pub open spec fn next_phase_spec(phase: Phase, outcome: Outcome) -> Phase {
    match phase {
        Phase::Done => Phase::Done,
        Phase::Aborted => Phase::Aborted,
        _ => match outcome {
            Outcome::Failed => Phase::Aborted,
            Outcome::Succeeded => match phase {
                Phase::Init => Phase::CopyDemo,
                Phase::CopyDemo => Phase::ComputeDemo,
                _ => Phase::Done,
            },
        },
    }
}

/// The phase reached from the start after the phases went as `outcomes`
/// say, in that order.
pub open spec fn phase_after(outcomes: Seq<Outcome>) -> Phase
    decreases outcomes.len(),
{
    if outcomes.len() == 0 {
        Phase::Init
    } else {
        next_phase_spec(phase_after(outcomes.drop_last()), outcomes.last())
    }
}

/// A demonstration runs in `phase`, so that buffers are created and used.
pub open spec fn uses_buffers(phase: Phase) -> bool {
    phase == Phase::CopyDemo || phase == Phase::ComputeDemo
}

/// The line printed on entering `phase`, where there is one.
pub open spec fn progress_line_spec(phase: Phase) -> Option<Seq<char>> {
    match phase {
        Phase::Init => Some("init()"@),
        Phase::CopyDemo => Some("example_operation()"@),
        Phase::ComputeDemo => Some("example_compute()"@),
        Phase::Done => Some("DONE!"@),
        Phase::Aborted => None,
    }
}

/// The exit code with which the program leaves at `phase`, once it has
/// ended.
pub open spec fn exit_code_spec(phase: Phase) -> Option<i32> {
    match phase {
        Phase::Done => Some(EXIT_SUCCESS),
        Phase::Aborted => Some(EXIT_FAILURE),
        _ => None,
    }
}

/// The phase in which the program starts.
pub fn first_phase() -> (phase: Phase)
    ensures
        phase == Phase::Init,
        phase == phase_after(Seq::<Outcome>::empty()),
{
    Phase::Init
}

/// Moves on from `phase` after it went as `outcome` says. A failure ends the
/// program; an ended program stays as it is.
pub fn next_phase(phase: Phase, outcome: Outcome) -> (next: Phase)
    ensures
        next == next_phase_spec(phase, outcome),
{
    match phase {
        Phase::Done => Phase::Done,
        Phase::Aborted => Phase::Aborted,
        _ => match outcome {
            Outcome::Failed => Phase::Aborted,
            Outcome::Succeeded => match phase {
                Phase::Init => Phase::CopyDemo,
                Phase::CopyDemo => Phase::ComputeDemo,
                _ => Phase::Done,
            },
        },
    }
}

/// The line to print on entering `phase`. A program that gave up prints no
/// such line.
pub fn progress_line(phase: Phase) -> (line: Option<&'static str>)
    ensures
        line is Some <==> phase != Phase::Aborted,
        match line {
            Some(text) => progress_line_spec(phase) == Some(text@),
            None => progress_line_spec(phase) is None,
        },
{
    match phase {
        Phase::Init => Some("init()"),
        Phase::CopyDemo => Some("example_operation()"),
        Phase::ComputeDemo => Some("example_compute()"),
        Phase::Done => Some("DONE!"),
        Phase::Aborted => None,
    }
}

/// The exit code of the program once it has ended at `phase`: zero after
/// full success, non-zero after a failure, none while a phase is still due.
pub fn exit_code(phase: Phase) -> (code: Option<i32>)
    ensures
        code == exit_code_spec(phase),
        code == Some(0i32) <==> phase == Phase::Done,
        code matches Some(c) && c != 0 <==> phase == Phase::Aborted,
{
    match phase {
        Phase::Done => Some(EXIT_SUCCESS),
        Phase::Aborted => Some(EXIT_FAILURE),
        _ => None,
    }
}

/// One more outcome moves the program on by one phase.
pub proof fn phase_after_push(outcomes: Seq<Outcome>, outcome: Outcome)
    ensures
        phase_after(outcomes.push(outcome)) == next_phase_spec(phase_after(outcomes), outcome),
{
    assert(outcomes.push(outcome).drop_last() =~= outcomes);
}

/// Where the context cannot be set up, the program ends at once with a
/// failing exit code: no demonstration is ever due, so no buffer is touched,
/// whatever is reported afterwards.
pub proof fn failed_init_touches_no_buffer(outcomes: Seq<Outcome>)
    requires
        outcomes.len() > 0,
        outcomes[0] == Outcome::Failed,
    ensures
        phase_after(outcomes) == Phase::Aborted,
        !uses_buffers(phase_after(outcomes)),
        exit_code_spec(phase_after(outcomes)) == Some(EXIT_FAILURE),
        progress_line_spec(phase_after(outcomes)) is None,
{
    phase_after_push(Seq::<Outcome>::empty(), outcomes[0]);
    assert(Seq::<Outcome>::empty().push(outcomes[0]) =~= outcomes.take(1));
    ended_stays(outcomes, 1);
}

/// The program leaves with exit code zero exactly when the first three
/// phases all succeeded.
pub proof fn success_needs_every_phase(outcomes: Seq<Outcome>)
    ensures
        phase_after(outcomes) == Phase::Done <==> outcomes.len() >= 3 && outcomes[0]
            == Outcome::Succeeded && outcomes[1] == Outcome::Succeeded && outcomes[2]
            == Outcome::Succeeded,
{
    let e = Seq::<Outcome>::empty();
    if outcomes.len() >= 1 {
        phase_after_push(e, outcomes[0]);
        assert(e.push(outcomes[0]) =~= outcomes.take(1));
    }
    if outcomes.len() >= 2 {
        phase_after_push(outcomes.take(1), outcomes[1]);
        assert(outcomes.take(1).push(outcomes[1]) =~= outcomes.take(2));
    }
    if outcomes.len() >= 3 {
        phase_after_push(outcomes.take(2), outcomes[2]);
        assert(outcomes.take(2).push(outcomes[2]) =~= outcomes.take(3));
        ended_stays(outcomes, 3);
    }
    if outcomes.len() == 0 {
        assert(outcomes =~= e);
    } else if outcomes.len() == 1 {
        assert(outcomes.take(1) =~= outcomes);
    } else if outcomes.len() == 2 {
        assert(outcomes.take(2) =~= outcomes);
    }
}

/// After three outcomes the program has ended, and nothing reported later
/// changes how.
proof fn ended_stays(outcomes: Seq<Outcome>, k: int)
    requires
        0 <= k <= outcomes.len(),
        phase_after(outcomes.take(k)) == Phase::Done || phase_after(outcomes.take(k))
            == Phase::Aborted,
    ensures
        phase_after(outcomes) == phase_after(outcomes.take(k)),
    decreases outcomes.len() - k,
{
    if k == outcomes.len() {
        assert(outcomes.take(k) =~= outcomes);
    } else {
        phase_after_push(outcomes.take(k), outcomes[k]);
        assert(outcomes.take(k).push(outcomes[k]) =~= outcomes.take(k + 1));
        ended_stays(outcomes, k + 1);
    }
}

} // verus!
