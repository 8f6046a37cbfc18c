//! The errors that a backing store reports to the scheduler.
use vstd::prelude::*;

verus! {

/// The operation of a backing store that failed on a particular job.
#[derive(PartialEq, Eq, Structural, Clone, Copy, Debug)]
pub enum Operation {
    Upsert,
    Touch,
    Delete,
}

/// An error reported by a backing store.  Each carries the failure's message
/// and whether trying the operation again may succeed.
#[derive(Clone, Debug)]
pub enum BackingError {
    /// Storing a job failed.
    Upsert { job_id: String, message: String, is_retryable: bool },
    /// Recording a job's last run failed.
    Touch { job_id: String, message: String, is_retryable: bool },
    /// Removing a job failed.
    Delete { job_id: String, message: String, is_retryable: bool },
    /// Reading the stored jobs back failed.
    Recovery { message: String, is_retryable: bool },
}

/// `e` is the error of operation `op` on the job `job_id`, with the given
/// message and retryability.
pub open spec fn is_job_error(
    e: BackingError,
    op: Operation,
    job_id: Seq<char>,
    message: Seq<char>,
    retryable: bool,
) -> bool {
    match e {
        BackingError::Upsert { job_id: id, message: m, is_retryable: r } => {
            op == Operation::Upsert && id@ == job_id && m@ == message && r == retryable
        },
        BackingError::Touch { job_id: id, message: m, is_retryable: r } => {
            op == Operation::Touch && id@ == job_id && m@ == message && r == retryable
        },
        BackingError::Delete { job_id: id, message: m, is_retryable: r } => {
            op == Operation::Delete && id@ == job_id && m@ == message && r == retryable
        },
        BackingError::Recovery { .. } => false,
    }
}

/// `e` is a recovery error with the given message and retryability.
pub open spec fn is_recovery_error(e: BackingError, message: Seq<char>, retryable: bool) -> bool {
    match e {
        BackingError::Recovery { message: m, is_retryable: r } => m@ == message && r == retryable,
        _ => false,
    }
}

/// Whether the error says that trying again may succeed.
pub open spec fn error_retryable(e: BackingError) -> bool {
    match e {
        BackingError::Upsert { is_retryable, .. } => is_retryable,
        BackingError::Touch { is_retryable, .. } => is_retryable,
        BackingError::Delete { is_retryable, .. } => is_retryable,
        BackingError::Recovery { is_retryable, .. } => is_retryable,
    }
}

/// The error of operation `op` on the job `job_id`.
pub open spec fn job_failure(
    op: Operation,
    job_id: String,
    message: String,
    is_retryable: bool,
) -> BackingError {
    match op {
        Operation::Upsert => BackingError::Upsert { job_id, message, is_retryable },
        Operation::Touch => BackingError::Touch { job_id, message, is_retryable },
        Operation::Delete => BackingError::Delete { job_id, message, is_retryable },
    }
}

/// Builds the error of operation `op` on the job `job_id`.
pub fn job_error(op: Operation, job_id: &String, message: String, is_retryable: bool) -> (e:
    BackingError)
    ensures
        e == job_failure(op, *job_id, message, is_retryable),
        is_job_error(e, op, job_id@, message@, is_retryable),
{
    let job_id = job_id.clone();
    match op {
        Operation::Upsert => BackingError::Upsert { job_id, message, is_retryable },
        Operation::Touch => BackingError::Touch { job_id, message, is_retryable },
        Operation::Delete => BackingError::Delete { job_id, message, is_retryable },
    }
}

impl BackingError {
    /// Whether trying the failed operation again may succeed.
    pub fn is_retryable(&self) -> (r: bool)
        ensures
            r == error_retryable(*self),
    {
        match self {
            BackingError::Upsert { is_retryable, .. } => *is_retryable,
            BackingError::Touch { is_retryable, .. } => *is_retryable,
            BackingError::Delete { is_retryable, .. } => *is_retryable,
            BackingError::Recovery { is_retryable, .. } => *is_retryable,
        }
    }
}

} // verus!
