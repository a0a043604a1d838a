//! The coordinator object for one task group.
//!
//! It owns the handle to the executor that launches are submitted to and the
//! sending half of every launched task's dedicated stop channel, one per task
//! in launch order. The executor and the channel halves are opaque here: all
//! submission, sending and receiving happens at the asynchronous boundary
//! around this library, which drives the verified decisions of
//! [`crate::aggregate`] and [`crate::supervisor`].

use vstd::prelude::*;

use crate::aggregate::aggregate;
use crate::aggregate::aggregate_spec;

verus! {

/// futures' work-stealing executor. Opaque: the coordinator only stores and
/// hands out the handle; submitting work to it happens at the async boundary.
#[verifier::external_type_specification]
#[verifier::external_body]
pub struct ExThreadPool(futures::executor::ThreadPool);

/// The sending half of an async-std bounded channel. Opaque: the coordinator
/// records one per launched task; the sends happen at the async boundary.
#[verifier::external_type_specification]
#[verifier::external_body]
#[verifier::reject_recursive_types(T)]
pub struct ExSender<T>(async_std::channel::Sender<T>);

/// The coordinator for one group of supervised tasks.
///
/// It grows monotonically while tasks are launched and becomes logically
/// terminal once a group outcome has been produced; it is not meant to be
/// reused afterwards. The error type of the group's tasks appears only in the
/// results the coordinator is handed, so the object itself carries none.
pub struct StoppableThreadPool {
    /// The executor that future launches will be submitted to. Tasks already
    /// launched stay bound to whichever executor they were submitted to.
    pub pool: futures::executor::ThreadPool,
    /// One stop sender per task ever launched, in launch order. Its length is
    /// the size of the group, and a stop broadcast addresses exactly its
    /// entries.
    pub stop_senders: Vec<async_std::channel::Sender<()>>,
}

impl StoppableThreadPool {
    /// Create a coordinator over a caller-supplied executor, with no tasks
    /// launched yet.
    pub fn new_with_pool(pool: futures::executor::ThreadPool) -> (coordinator: StoppableThreadPool)
        ensures
            coordinator.pool == pool,
            coordinator.stop_senders@.len() == 0,
    {
        StoppableThreadPool { pool, stop_senders: Vec::new() }
    }

    /// Replace the executor for the launches still to come. The group's
    /// bookkeeping is untouched: every stop sender recorded so far is kept,
    /// in order, so tasks bound to the old executor are unaffected.
    pub fn with_pool(&mut self, pool: futures::executor::ThreadPool)
        ensures
            final(self).pool == pool,
            final(self).stop_senders@ == old(self).stop_senders@,
    {
        self.pool = pool;
    }

    /// Record the launch of one supervised task by keeping the sending half
    /// of its dedicated stop channel: the list always holds exactly one
    /// sender per task ever launched, in launch order, and the executor
    /// handle is untouched.
    pub fn spawn(&mut self, stop_sender: async_std::channel::Sender<()>)
        ensures
            final(self).stop_senders@ == old(self).stop_senders@.push(stop_sender),
            final(self).pool == old(self).pool,
    {
        self.stop_senders.push(stop_sender);
    }

    /// How many tasks have been launched: one recorded stop sender each.
    pub fn launched(&self) -> (count: usize)
        ensures
            count == self.stop_senders@.len(),
    {
        self.stop_senders.len()
    }

    /// Reduce a sequence of received results to the group outcome: count
    /// successes until one per launched task has arrived, or stop at the
    /// first error. `None` when the results run out while the group outcome
    /// is still open.
    pub fn observe<E>(&self, results: Vec<Result<(), E>>) -> (outcome: Option<Result<(), E>>)
        ensures
            outcome == aggregate_spec(self.stop_senders@.len(), 0, results@),
    {
        aggregate(self.stop_senders.len(), results)
    }

    /// Turn a caller's stop request into the result-channel event that
    /// carries it: the reason is posted as if a task had failed with it, and
    /// takes the ordinary failure path through the aggregation loop.
    pub fn stop<E>(&self, why: E) -> (event: Result<(), E>)
        ensures
            event == Result::<(), E>::Err(why),
    {
        Result::Err(why)
    }
}

/// Swapping the executor never changes the group outcome: the outcome depends
/// only on how many tasks were launched and on the results that arrive, never
/// on which executor handle the coordinator holds.
pub proof fn lemma_executor_swap_irrelevant<E>(
    before: StoppableThreadPool,
    after: StoppableThreadPool,
    results: Seq<Result<(), E>>,
)
    requires
        before.stop_senders@.len() == after.stop_senders@.len(),
    ensures
        aggregate_spec(before.stop_senders@.len(), 0, results) == aggregate_spec(
            after.stop_senders@.len(),
            0,
            results,
        ),
{
}

} // verus!
