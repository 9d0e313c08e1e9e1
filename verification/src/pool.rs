//! A counted model of the worker pool: a fixed number of workers draining a
//! queue of submitted work items.
//!
//! The pool itself runs outside the library; this model is what the admission
//! logic and the tests reason over. `queued` counts items submitted but not
//! yet started — exactly what the admission controller observes — and
//! `running` counts items a worker is executing. Submission never blocks and
//! only grows the queue; a worker picks one queued item up at a time and
//! finishes it before the next. Every admitted item is handled exactly once:
//! it leaves the queue only by being started, and leaves `running` only by
//! finishing.

use vstd::prelude::*;

verus! {

/// The pool's state, counted: workers available, items queued but not yet
/// started, items currently running.
#[derive(Clone, Copy, PartialEq, Eq, Structural, Debug)]
pub struct PoolModel {
    pub workers: usize,
    pub queued: usize,
    pub running: usize,
}

impl PoolModel {
    /// Well-formedness: no more items run than there are workers.
    pub open spec fn wf(self) -> bool {
        self.running <= self.workers
    }

    /// A fresh pool: all workers idle, nothing queued.
    pub fn new(workers: usize) -> (p: Self)
        ensures
            p.wf(),
            p.workers == workers,
            p.queued == 0,
            p.running == 0,
    {
        PoolModel { workers, queued: 0, running: 0 }
    }

    /// The count the admission controller reads: items submitted but not yet
    /// started by a worker.
    pub fn queued_count(&self) -> (n: usize)
        ensures
            n == self.queued,
    {
        self.queued
    }

    /// A work item is submitted. Submission never blocks and never starts
    /// work by itself: it only lengthens the queue by one.
    pub fn submit(&mut self)
        requires
            old(self).wf(),
            old(self).queued < usize::MAX,
        ensures
            final(self).wf(),
            final(self).workers == old(self).workers,
            final(self).queued == old(self).queued + 1,
            final(self).running == old(self).running,
    {
        self.queued = self.queued + 1;
    }

    /// An idle worker picks up the next queued item: the queue shrinks by
    /// one and one more item runs.
    pub fn start_next(&mut self)
        requires
            old(self).wf(),
            old(self).queued > 0,
            old(self).running < old(self).workers,
        ensures
            final(self).wf(),
            final(self).workers == old(self).workers,
            final(self).queued == old(self).queued - 1,
            final(self).running == old(self).running + 1,
    {
        self.queued = self.queued - 1;
        self.running = self.running + 1;
    }

    /// A worker finishes its item and becomes idle again.
    pub fn finish(&mut self)
        requires
            old(self).wf(),
            old(self).running > 0,
        ensures
            final(self).wf(),
            final(self).workers == old(self).workers,
            final(self).queued == old(self).queued,
            final(self).running == old(self).running - 1,
    {
        self.running = self.running - 1;
    }
}

} // verus!
