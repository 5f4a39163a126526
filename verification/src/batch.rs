//! The batch coordinator's scheduling model: many independent
//! per-accession jobs run concurrently under a fixed in-flight cap,
//! with no completion order required and no job cancelling another.
//!
//! The caller owns the actual task scheduling; this model decides when
//! a job may start and proves that the cap is never exceeded and that
//! a batch that keeps stepping resolves every job.

use vstd::prelude::*;

verus! {

/// The default in-flight cap of a batch.
pub const DEFAULT_QUEUE_SIZE: usize = 50;

/// The scheduling state of one batch: jobs are started in some order
/// and finish in any order.
#[derive(Debug, Clone, Copy, PartialEq, Eq, Structural)]
pub struct BatchState {
    /// How many jobs the batch holds.
    pub total: usize,
    /// Jobs started so far.
    pub started: usize,
    /// Jobs finished so far.
    pub finished: usize,
    /// The in-flight cap.
    pub cap: usize,
}

/// Jobs currently in flight.
pub open spec fn in_flight(b: BatchState) -> int {
    b.started - b.finished
}

/// The coordinator's invariant: no job finishes before it starts, no
/// job starts twice, and the cap is respected and positive.
pub open spec fn batch_wf(b: BatchState) -> bool {
    b.finished <= b.started && b.started <= b.total && in_flight(b) <= b.cap && b.cap >= 1
}

/// A fresh batch with nothing started.
pub fn batch_init(total: usize, cap: usize) -> (b: BatchState)
    requires
        cap >= 1,
    ensures
        b.total == total,
        b.cap == cap,
        b.started == 0,
        b.finished == 0,
        batch_wf(b),
{
    BatchState { total, started: 0, finished: 0, cap }
}

/// Whether another job may start now: jobs remain and the cap leaves
/// room.
pub fn can_start(b: &BatchState) -> (r: bool)
    requires
        batch_wf(*b),
    ensures
        r == (b.started < b.total && in_flight(*b) < b.cap),
{
    b.started < b.total && b.started - b.finished < b.cap
}

/// Starts one job.
pub fn start_one(b: &mut BatchState)
    requires
        batch_wf(*old(b)),
        old(b).started < old(b).total,
        in_flight(*old(b)) < old(b).cap,
    ensures
        final(b).started == old(b).started + 1,
        final(b).finished == old(b).finished,
        final(b).total == old(b).total,
        final(b).cap == old(b).cap,
        batch_wf(*final(b)),
{
    b.started += 1;
}

/// Records one job's completion, successful or not: a failed job
/// resolves like any other and never cancels its siblings.
pub fn finish_one(b: &mut BatchState)
    requires
        batch_wf(*old(b)),
        old(b).finished < old(b).started,
    ensures
        final(b).finished == old(b).finished + 1,
        final(b).started == old(b).started,
        final(b).total == old(b).total,
        final(b).cap == old(b).cap,
        batch_wf(*final(b)),
{
    b.finished += 1;
}

/// Whether every job has resolved.
pub fn all_resolved(b: &BatchState) -> (r: bool)
    ensures
        r == (b.finished == b.total),
{
    b.finished == b.total
}

/// The cap is never exceeded: a well-formed batch has at most `cap`
/// jobs in flight at any instant.
pub proof fn lemma_in_flight_bounded(b: BatchState)
    requires
        batch_wf(b),
    ensures
        in_flight(b) <= b.cap,
{
}

/// A batch that is not done can always move: either another job may
/// start, or one is in flight and its completion will be recorded. So
/// every job eventually resolves.
pub proof fn lemma_batch_progress(b: BatchState)
    requires
        batch_wf(b),
        b.finished < b.total,
    ensures
        (b.started < b.total && in_flight(b) < b.cap) || in_flight(b) > 0,
{
}

} // verus!
