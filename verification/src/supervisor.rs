//! The per-task supervisor decision.
//!
//! Each launched unit of work runs inside a supervisor that races the work's
//! own completion against the task's dedicated stop signal, and posts exactly
//! one result for the task onto the shared result channel: the work's own
//! outcome if the work finished first, a synthetic success if the stop signal
//! won the race. A stop is not itself an error — the error that caused it was
//! already posted along its own path.

use vstd::prelude::*;

verus! {

/// Which side of the supervisor's race finished first.
pub enum RaceOutcome<E> {
    /// The task's own work finished, with its own outcome.
    WorkFinished(Result<(), E>),
    /// The task's stop signal arrived before its work finished.
    StopReceived,
}

/// The single result a supervised task posts for a given race outcome.
pub open spec fn report_spec<E>(race: RaceOutcome<E>) -> Result<(), E> {
    match race {
        RaceOutcome::WorkFinished(output) => output,
        RaceOutcome::StopReceived => Result::Ok(()),
    }
}

/// The sequence of results posted by a group of supervised tasks, one per
/// task, each determined by that task's own race alone.
pub open spec fn reports_of<E>(races: Seq<RaceOutcome<E>>) -> Seq<Result<(), E>> {
    races.map_values(|race: RaceOutcome<E>| report_spec(race))
}

/// Decide the one result a supervised task posts: forward the work's own
/// outcome when the work won the race, acknowledge a stop with a synthetic
/// success when the stop signal won.
pub fn supervisor_report<E>(race: RaceOutcome<E>) -> (report: Result<(), E>)
    ensures
        report == report_spec(race),
{
    match race {
        RaceOutcome::WorkFinished(output) => output,
        RaceOutcome::StopReceived => Result::Ok(()),
    }
}

/// Exactly one result per launched task: however each task's race resolves, a
/// group of tasks posts one result each — never zero, never more than one —
/// and a task whose stop signal won the race always reports success.
pub proof fn lemma_exactly_one_report<E>(races: Seq<RaceOutcome<E>>)
    ensures
        reports_of(races).len() == races.len(),
        forall|i: int| 0 <= i < races.len() ==> reports_of(races)[i] == report_spec(races[i]),
        forall|i: int|
            0 <= i < races.len() && races[i] is StopReceived ==> reports_of(races)[i] is Ok,
{
}

} // verus!
