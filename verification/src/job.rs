//! Jobs that wait for a runner.

use vstd::prelude::*;

use crate::ident::Uuid;

verus! {

pub type JobId = Uuid;

/// A job that waits for a runner with enough capacity.
#[derive(Debug, Clone)]
pub struct AvailableJob {
    job_id: JobId,
    runner_capacity_required: u64,
}

/// What a job that waits for a runner consists of.
pub struct AvailableJobModel {
    pub job_id: JobId,
    pub runner_capacity_required: u64,
}

impl View for AvailableJob {
    type V = AvailableJobModel;

    closed spec fn view(&self) -> AvailableJobModel {
        AvailableJobModel {
            job_id: self.job_id,
            runner_capacity_required: self.runner_capacity_required,
        }
    }
}

impl AvailableJob {
    /// Constructs a new [`AvailableJob`].
    pub fn new(job_id: JobId, runner_capacity_required: u64) -> (job: Self)
        ensures
            job@ == (AvailableJobModel { job_id, runner_capacity_required }),
    {
        AvailableJob { job_id, runner_capacity_required }
    }

    /// Returns the [`JobId`].
    pub fn job_id(&self) -> (job_id: JobId)
        ensures
            job_id == self@.job_id,
    {
        self.job_id
    }

    /// Returns the capacity that a runner needs for the job.
    pub fn runner_capacity_required(&self) -> (capacity: u64)
        ensures
            capacity == self@.runner_capacity_required,
    {
        self.runner_capacity_required
    }
}

} // verus!
