//! Jobs and their cancellation.
//!
//! Every scan is a job with a number. The controller counts jobs upward and
//! publishes the number of the one it accepts; a worker compares its own
//! number with the published one and stops as soon as they differ.

use std::sync::Arc;
use std::sync::atomic::AtomicU64;
use std::sync::atomic::Ordering;
use vstd::prelude::*;

verus! {

/// The published number of the accepted job, shared between the controller
/// and its workers. What a worker reads depends on what the controller has
/// published by then, so reading promises nothing about the value.
pub struct CancelToken {
    accepted: Arc<AtomicU64>,
}

impl CancelToken {
    /// A token that accepts job `job_id`.
    pub fn new(job_id: u64) -> Self {
        CancelToken { accepted: Arc::new(AtomicU64::new(job_id)) }
    }

    /// A second handle on the same token, for a worker.
    pub fn share(&self) -> (r: Self)
        ensures
            r == *self,
    {
        CancelToken { accepted: self.accepted.clone() }
    }

    /// Whether `job_id` is the accepted job at this moment. The answer is
    /// that of the moment only: another handle may publish the next job
    /// right after, so nothing is promised about it.
    pub fn is_current(&self, job_id: u64) -> bool {
        self.accepted.load(Ordering::Relaxed) == job_id
    }

    /// Makes `job_id` the accepted job.
    pub fn publish(&self, job_id: u64) {
        self.accepted.store(job_id, Ordering::SeqCst);
    }
}

} // verus!
