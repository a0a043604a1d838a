//! A task-group coordinator layered over a work-stealing executor.
//!
//! A caller launches many asynchronous units of work, treats the whole group
//! as one logical operation, and awaits a single aggregated outcome: success
//! once every unit has reported success, or the first failure (or explicit
//! stop request) to arrive. On that first failure every other unit is asked,
//! through its own stop channel, to stand down at its next suspension point.
//!
//! The decisions of the coordinator live here, verified: which single result a
//! supervised task posts ([`supervisor`]), how the stream of posted results is
//! reduced to the one group outcome ([`aggregate`]), and the per-task
//! bookkeeping of the coordinator object itself ([`pool`]). The asynchronous
//! shell that drives these decisions — channel sends and receives, submission
//! to the executor — sits outside, in ordinary async code.

pub mod aggregate;
pub mod pool;
pub mod supervisor;
