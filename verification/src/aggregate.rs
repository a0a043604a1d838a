//! Reduction of the per-task results into the one group outcome.
//!
//! Every supervised task posts exactly one result onto the shared result
//! channel, and an explicit stop request posts one more. The aggregation loop
//! takes these results in arrival order, counts successes, and decides after
//! each one whether to keep waiting, to report group success, or to report the
//! error it just saw and broadcast a stop signal to every launched task.

use vstd::prelude::*;

verus! {

/// What the aggregation loop does after taking one result off the shared
/// result channel.
pub enum ObserveAction<E> {
    /// Keep waiting: more results are needed before the group outcome is known.
    Pending,
    /// Every launched task has reported success: the group outcome is success.
    Succeed,
    /// A task failed, or the caller asked to stop: broadcast a stop signal to
    /// every launched task and report this error as the group outcome.
    Fail(E),
}

/// The decision taken on one received result, given the number of launched
/// tasks (`total`) and the number of successes counted so far (`completed`).
pub open spec fn step_spec<E>(total: nat, completed: nat, result: Result<(), E>) -> ObserveAction<E> {
    match result {
        Result::Err(e) => ObserveAction::Fail(e),
        Result::Ok(_) => if completed + 1 == total {
            ObserveAction::Succeed
        } else {
            ObserveAction::Pending
        },
    }
}

/// The group outcome reached after consuming a sequence of received results,
/// starting with `completed` successes already counted: `None` when the
/// results run out while the loop would still be waiting on the channel.
pub open spec fn aggregate_spec<E>(total: nat, completed: nat, events: Seq<Result<(), E>>) -> Option<Result<(), E>>
    decreases events.len(),
{
    if events.len() == 0 {
        None
    } else {
        match step_spec(total, completed, events[0]) {
            ObserveAction::Fail(e) => Some(Result::Err(e)),
            ObserveAction::Succeed => Some(Result::Ok(())),
            ObserveAction::Pending => aggregate_spec(total, completed + 1, events.skip(1)),
        }
    }
}

/// One turn of the aggregation loop: decide on one received result.
pub fn observe_step<E>(total: usize, completed: usize, result: Result<(), E>) -> (action: ObserveAction<E>)
    ensures
        action == step_spec(total as nat, completed as nat, result),
{
    match result {
        Result::Err(e) => ObserveAction::Fail(e),
        Result::Ok(()) => {
            if completed < total && completed + 1 == total {
                ObserveAction::Succeed
            } else {
                ObserveAction::Pending
            }
        },
    }
}

/// The whole aggregation loop over a sequence of already-received results:
/// take each in arrival order, count successes, stop at the first decision.
pub fn aggregate<E>(total: usize, events: Vec<Result<(), E>>) -> (outcome: Option<Result<(), E>>)
    ensures
        outcome == aggregate_spec(total as nat, 0, events@),
{
    let mut remaining = events;
    let ghost all = remaining@;
    proof {
        vstd::std_specs::vec::axiom_spec_len(&remaining);
    }
    let mut completed: usize = 0;
    loop
        invariant
            all == events@,
            completed as nat == all.len() - remaining@.len(),
            remaining@.len() <= all.len(),
            all.len() <= usize::MAX,
            aggregate_spec(total as nat, 0, all) == aggregate_spec(total as nat, completed as nat, remaining@),
        decreases remaining@.len(),
    {
        if remaining.len() == 0 {
            return None;
        }
        let ghost before = remaining@;
        let next = remaining.remove(0);
        proof {
            assert(before.remove(0) =~= before.skip(1));
        }
        match observe_step(total, completed, next) {
            ObserveAction::Fail(e) => {
                return Some(Result::Err(e));
            },
            ObserveAction::Succeed => {
                return Some(Result::Ok(()));
            },
            ObserveAction::Pending => {
                completed = completed + 1;
            },
        }
    }
}

proof fn lemma_all_ok_general<E>(total: nat, completed: nat, events: Seq<Result<(), E>>)
    requires
        forall|i: int| 0 <= i < events.len() ==> events[i] is Ok,
    ensures
        completed < total && total <= completed + events.len()
            ==> aggregate_spec(total, completed, events) == Some(Result::<(), E>::Ok(())),
        completed + events.len() < total ==> aggregate_spec(total, completed, events) is None,
        total <= completed ==> aggregate_spec(total, completed, events) is None,
    decreases events.len(),
{
    if events.len() == 0 {
    } else {
        if completed + 1 == total {
        } else {
            assert(forall|i: int| 0 <= i < events.skip(1).len() ==> events.skip(1)[i] is Ok);
            lemma_all_ok_general(total, completed + 1, events.skip(1));
        }
    }
}

/// All-success: when every posted result is a success, the group outcome is
/// success exactly when one result per launched task has arrived, and the
/// loop is still waiting on every shorter stream. (A group of zero tasks
/// never reaches its success count and keeps waiting.)
pub proof fn lemma_all_success<E>(total: nat, events: Seq<Result<(), E>>)
    requires
        forall|i: int| 0 <= i < events.len() ==> events[i] is Ok,
    ensures
        total > 0 && events.len() == total
            ==> aggregate_spec(total, 0, events) == Some(Result::<(), E>::Ok(())),
        events.len() < total ==> aggregate_spec(total, 0, events) is None,
{
    lemma_all_ok_general(total, 0, events);
}

proof fn lemma_first_error_general<E>(total: nat, completed: nat, events: Seq<Result<(), E>>, k: int)
    requires
        0 <= k < events.len(),
        events[k] is Err,
        forall|i: int| 0 <= i < k ==> events[i] is Ok,
        !(completed < total && total <= completed + k),
    ensures
        aggregate_spec(total, completed, events) == Some(Result::<(), E>::Err(events[k]->Err_0)),
    decreases k,
{
    if k == 0 {
    } else {
        assert(forall|i: int| 0 <= i < k - 1 ==> events.skip(1)[i] is Ok);
        assert(events.skip(1)[k - 1] == events[k]);
        lemma_first_error_general(total, completed + 1, events.skip(1), k - 1);
    }
}

/// Fail-fast: the first error to arrive is the group outcome, provided the
/// successes before it have not already completed the group; nothing that
/// would arrive later plays any part.
pub proof fn lemma_fail_fast<E>(total: nat, events: Seq<Result<(), E>>, k: int)
    requires
        0 <= k < events.len(),
        events[k] is Err,
        forall|i: int| 0 <= i < k ==> events[i] is Ok,
        total == 0 || k < total,
    ensures
        aggregate_spec(total, 0, events) == Some(Result::<(), E>::Err(events[k]->Err_0)),
{
    lemma_first_error_general(total, 0, events, k);
}

proof fn lemma_outcome_final_general<E>(total: nat, completed: nat, events: Seq<Result<(), E>>, more: Seq<Result<(), E>>)
    requires
        aggregate_spec(total, completed, events) is Some,
    ensures
        aggregate_spec(total, completed, events + more) == aggregate_spec(total, completed, events),
    decreases events.len(),
{
    assert(events.len() > 0);
    assert((events + more)[0] == events[0]);
    match step_spec(total, completed, events[0]) {
        ObserveAction::Fail(_) => {},
        ObserveAction::Succeed => {},
        ObserveAction::Pending => {
            assert((events + more).skip(1) =~= events.skip(1) + more);
            lemma_outcome_final_general(total, completed + 1, events.skip(1), more);
        },
    }
}

/// At most one group outcome is ever produced: once the results received so
/// far decide the outcome, the loop has stopped receiving, and any results
/// that arrive afterwards leave the outcome unchanged. In particular the
/// aggregator never waits for a still-running task once a failure has arrived,
/// and the stop broadcast that a failure triggers is issued exactly once.
pub proof fn lemma_outcome_is_final<E>(total: nat, events: Seq<Result<(), E>>, more: Seq<Result<(), E>>)
    requires
        aggregate_spec(total, 0, events) is Some,
    ensures
        aggregate_spec(total, 0, events + more) == aggregate_spec(total, 0, events),
{
    lemma_outcome_final_general(total, 0, events, more);
}

/// Explicit stop: when the caller's stop reason is the first result to reach
/// the shared channel — as it is when every launched task is still running —
/// the group outcome is exactly that reason, whatever arrives afterwards.
pub proof fn lemma_explicit_stop<E>(total: nat, reason: E, later: Seq<Result<(), E>>)
    ensures
        aggregate_spec(total, 0, seq![Result::<(), E>::Err(reason)] + later) == Some(Result::<(), E>::Err(reason)),
{
    let events = seq![Result::<(), E>::Err(reason)] + later;
    assert(events[0] == Result::<(), E>::Err(reason));
    lemma_fail_fast(total, events, 0);
}

proof fn lemma_bounded_receives_general<E>(total: nat, completed: nat, events: Seq<Result<(), E>>)
    requires
        completed < total,
        events.len() >= total - completed,
    ensures
        aggregate_spec(total, completed, events) is Some,
    decreases events.len(),
{
    if events.len() == 0 {
    } else {
        match step_spec(total, completed, events[0]) {
            ObserveAction::Fail(_) => {},
            ObserveAction::Succeed => {},
            ObserveAction::Pending => {
                lemma_bounded_receives_general(total, completed + 1, events.skip(1));
            },
        }
    }
}

/// Termination of the aggregation loop: a group of at least one task reaches
/// its outcome after at most as many receives as tasks were launched — either
/// the needed successes all arrive, or an error cuts the wait short.
pub proof fn lemma_bounded_receives<E>(total: nat, events: Seq<Result<(), E>>)
    requires
        total > 0,
        events.len() >= total,
    ensures
        aggregate_spec(total, 0, events) is Some,
{
    lemma_bounded_receives_general(total, 0, events);
}

} // verus!
