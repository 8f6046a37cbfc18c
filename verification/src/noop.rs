//! A store that keeps nothing: a placeholder for running the scheduler
//! without persistence.
use vstd::prelude::*;
use crate::error::BackingError;
use crate::job::{ScheduledJob, Timestamp};

verus! {

/// The store that keeps nothing.  Every operation succeeds and a recovery
/// finds no jobs.
#[derive(Default, Debug, Clone, Copy)]
pub struct Store;

impl Store {
    /// Accepts the job and keeps nothing of it.
    pub fn upsert<D>(&self, job: &ScheduledJob<D>) -> (r: Result<(), BackingError>)
        ensures
            r is Ok,
    {
        Ok(())
    }

    /// Accepts the last run and keeps nothing of it.
    pub fn touch(&self, job_id: &str, last_run: &Timestamp) -> (r: Result<(), BackingError>)
        ensures
            r is Ok,
    {
        Ok(())
    }

    /// Accepts the removal; there is nothing to remove.
    pub fn delete(&self, job_id: &str) -> (r: Result<(), BackingError>)
        ensures
            r is Ok,
    {
        Ok(())
    }

    /// The jobs recovered: none.
    pub fn recover<D>(&self) -> (jobs: Vec<Result<ScheduledJob<D>, BackingError>>)
        ensures
            jobs@.len() == 0,
    {
        Vec::new()
    }
}

} // verus!
