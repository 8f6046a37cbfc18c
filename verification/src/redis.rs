//! The Redis backing store.
//!
//! Each job is kept under its id as the key, with the job's encoded text as
//! the value.  Recording a job's last run reads the job back, changes it and
//! writes it again; recovery lists every key and reads each job.
use vstd::prelude::*;
use vstd::pervasive::unreached;
use crate::error::{BackingError, Operation, job_error, job_failure};
use crate::job::{ScheduledJob, Timestamp, ran_at};
use crate::machine::{Step, StreamStep};

verus! {

/// The kinds of error of the `redis` crate's `ErrorKind`.
#[derive(PartialEq, Eq, Structural, Clone, Copy, Debug)]
pub enum RedisErrorKind {
    ResponseError,
    AuthenticationFailed,
    TypeError,
    ExecAbortError,
    BusyLoadingError,
    NoScriptError,
    InvalidClientConfig,
    Moved,
    Ask,
    TryAgain,
    ClusterDown,
    CrossSlot,
    MasterDown,
    IoError,
    ClientError,
    ExtensionError,
    ReadOnly,
}

/// A failed Redis call, as the store sees it: the error's kind, whether it is
/// an I/O timeout, whether the connection was dropped, and its message.
#[derive(Clone, Debug)]
pub struct RedisFailure {
    pub kind: RedisErrorKind,
    pub is_timeout: bool,
    pub is_connection_dropped: bool,
    pub message: String,
}

impl RedisFailure {
    /// A failure is worth retrying when the server is loading its data set
    /// or asks for a retry, or when an I/O error is a timeout or a dropped
    /// connection.
    pub open spec fn retryable(self) -> bool {
        match self.kind {
            RedisErrorKind::BusyLoadingError | RedisErrorKind::TryAgain => true,
            RedisErrorKind::IoError => self.is_timeout || self.is_connection_dropped,
            _ => false,
        }
    }
}

/// Whether a failed Redis call is worth retrying.
pub fn is_retryable(e: &RedisFailure) -> (r: bool)
    ensures
        r == e.retryable(),
{
    match e.kind {
        RedisErrorKind::BusyLoadingError | RedisErrorKind::TryAgain => true,
        RedisErrorKind::IoError => e.is_timeout || e.is_connection_dropped,
        _ => false,
    }
}

/// A piece of outside work that a Redis operation asks for.
#[derive(Debug)]
pub enum RedisWork<D> {
    /// Open a connection to the server.
    Connect,
    /// Encode the job as the text that the store keeps.
    Encode(ScheduledJob<D>),
    /// Decode a job from the text that the store keeps.
    Decode(String),
    /// `SET key value`.
    Put { key: String, value: String },
    /// `GET key`, whose reply is the text kept under the key.
    Get { key: String },
    /// `DEL key`.
    Del { key: String },
    /// `KEYS *`, whose reply is the name of every key.
    ListKeys,
}

/// The outcome of a piece of outside work.
#[derive(Debug)]
pub enum RedisOutcome<D> {
    /// `Connect`, `Put` or `Del` succeeded.
    Done,
    /// The text that `Encode` produced or that `Get` read.
    Text(String),
    /// The key names that `ListKeys` returned.
    Keys(Vec<String>),
    /// The job that `Decode` read.
    Decoded(ScheduledJob<D>),
    /// Connecting or a command failed.
    Failed(RedisFailure),
    /// Encoding or decoding failed, with the codec's message.
    CodecFailed(String),
}

/// The outcome answers a connection or a command that returns nothing.
pub open spec fn answers_command<D>(o: RedisOutcome<D>) -> bool {
    o is Done || o is Failed
}

/// The outcome answers a command that reads text.
pub open spec fn answers_read<D>(o: RedisOutcome<D>) -> bool {
    o is Text || o is Failed
}

/// The outcome answers an encoding.
pub open spec fn answers_encode<D>(o: RedisOutcome<D>) -> bool {
    o is Text || o is CodecFailed
}

/// The outcome answers a decoding.
pub open spec fn answers_decode<D>(o: RedisOutcome<D>) -> bool {
    o is Decoded || o is CodecFailed
}

/// Storing a job: connect, encode the job, then `SET id text`.
#[derive(Debug)]
pub enum RedisUpsert<D> {
    Connecting { job: ScheduledJob<D> },
    Encoding { job_id: String },
    Storing { job_id: String },
    Finished,
}

impl<D> RedisUpsert<D> {
    /// The outcome answers the work that this state waits for.
    pub open spec fn accepts(self, o: RedisOutcome<D>) -> bool {
        match self {
            RedisUpsert::Connecting { .. } => answers_command(o),
            RedisUpsert::Encoding { .. } => answers_encode(o),
            RedisUpsert::Storing { .. } => answers_command(o),
            RedisUpsert::Finished => false,
        }
    }

    /// The state and step that follow the outcome `o`.
    pub open spec fn next(self, o: RedisOutcome<D>) -> (RedisUpsert<D>, Step<RedisWork<D>>) {
        match self {
            RedisUpsert::Connecting { job } => match o {
                RedisOutcome::Failed(f) => (
                    RedisUpsert::Finished,
                    Step::Finish(Err(job_failure(Operation::Upsert, job.id, f.message, f.retryable()))),
                ),
                _ => (RedisUpsert::Encoding { job_id: job.id }, Step::Run(RedisWork::Encode(job))),
            },
            RedisUpsert::Encoding { job_id } => match o {
                RedisOutcome::Text(text) => (
                    RedisUpsert::Storing { job_id },
                    Step::Run(RedisWork::Put { key: job_id, value: text }),
                ),
                RedisOutcome::CodecFailed(m) => (
                    RedisUpsert::Finished,
                    Step::Finish(Err(job_failure(Operation::Upsert, job_id, m, false))),
                ),
                _ => (RedisUpsert::Finished, Step::Finish(Ok(()))),
            },
            RedisUpsert::Storing { job_id } => match o {
                RedisOutcome::Failed(f) => (
                    RedisUpsert::Finished,
                    Step::Finish(Err(job_failure(Operation::Upsert, job_id, f.message, f.retryable()))),
                ),
                _ => (RedisUpsert::Finished, Step::Finish(Ok(()))),
            },
            RedisUpsert::Finished => (RedisUpsert::Finished, Step::Finish(Ok(()))),
        }
    }

    /// Starts storing `job`: the first work is connecting.
    pub fn start(job: ScheduledJob<D>) -> (r: (RedisUpsert<D>, RedisWork<D>))
        ensures
            r == (RedisUpsert::Connecting { job }, RedisWork::<D>::Connect),
    {
        (RedisUpsert::Connecting { job }, RedisWork::Connect)
    }

    /// Whether `o` answers the work that this state waits for.
    pub fn accepts_outcome(&self, o: &RedisOutcome<D>) -> (b: bool)
        ensures
            b == self.accepts(*o),
    {
        match self {
            RedisUpsert::Encoding { .. } => matches!(o, RedisOutcome::Text(_) | RedisOutcome::CodecFailed(_)),
            RedisUpsert::Finished => false,
            _ => matches!(o, RedisOutcome::Done | RedisOutcome::Failed(_)),
        }
    }

    /// Resumes with the outcome of the work asked for.
    pub fn resume(self, o: RedisOutcome<D>) -> (r: (RedisUpsert<D>, Step<RedisWork<D>>))
        requires
            self.accepts(o),
        ensures
            r == self.next(o),
    {
        match self {
            RedisUpsert::Connecting { job } => match o {
                RedisOutcome::Failed(f) => {
                    let retry = is_retryable(&f);
                    let e = job_error(Operation::Upsert, &job.id, f.message, retry);
                    (RedisUpsert::Finished, Step::Finish(Err(e)))
                },
                _ => {
                    let job_id = job.id.clone();
                    (RedisUpsert::Encoding { job_id }, Step::Run(RedisWork::Encode(job)))
                },
            },
            RedisUpsert::Encoding { job_id } => match o {
                RedisOutcome::Text(text) => {
                    let key = job_id.clone();
                    (RedisUpsert::Storing { job_id }, Step::Run(RedisWork::Put { key, value: text }))
                },
                RedisOutcome::CodecFailed(m) => {
                    let e = job_error(Operation::Upsert, &job_id, m, false);
                    (RedisUpsert::Finished, Step::Finish(Err(e)))
                },
                _ => unreached(),
            },
            RedisUpsert::Storing { job_id } => match o {
                RedisOutcome::Failed(f) => {
                    let retry = is_retryable(&f);
                    let e = job_error(Operation::Upsert, &job_id, f.message, retry);
                    (RedisUpsert::Finished, Step::Finish(Err(e)))
                },
                _ => (RedisUpsert::Finished, Step::Finish(Ok(()))),
            },
            RedisUpsert::Finished => unreached(),
        }
    }
}

/// Recording that a job ran: connect, `GET job_id`, decode the job, set its
/// last run, encode it, then `SET` it under its own id.
#[derive(Debug)]
pub enum RedisTouch {
    Connecting { job_id: String, last_run: Timestamp },
    Reading { job_id: String, last_run: Timestamp },
    Decoding { job_id: String, last_run: Timestamp },
    Encoding { job_id: String },
    Storing { job_id: String },
    Finished,
}

impl RedisTouch {
    /// The outcome answers the work that this state waits for.
    pub open spec fn accepts<D>(self, o: RedisOutcome<D>) -> bool {
        match self {
            RedisTouch::Connecting { .. } => answers_command(o),
            RedisTouch::Reading { .. } => answers_read(o),
            RedisTouch::Decoding { .. } => answers_decode(o),
            RedisTouch::Encoding { .. } => answers_encode(o),
            RedisTouch::Storing { .. } => answers_command(o),
            RedisTouch::Finished => false,
        }
    }

    /// The state and step that follow the outcome `o`.
    pub open spec fn next<D>(self, o: RedisOutcome<D>) -> (RedisTouch, Step<RedisWork<D>>) {
        match self {
            RedisTouch::Connecting { job_id, last_run } => match o {
                RedisOutcome::Failed(f) => (
                    RedisTouch::Finished,
                    Step::Finish(Err(job_failure(Operation::Touch, job_id, f.message, f.retryable()))),
                ),
                _ => (
                    RedisTouch::Reading { job_id, last_run },
                    Step::Run(RedisWork::Get { key: job_id }),
                ),
            },
            RedisTouch::Reading { job_id, last_run } => match o {
                RedisOutcome::Text(text) => (
                    RedisTouch::Decoding { job_id, last_run },
                    Step::Run(RedisWork::Decode(text)),
                ),
                RedisOutcome::Failed(f) => (
                    RedisTouch::Finished,
                    Step::Finish(Err(job_failure(Operation::Touch, job_id, f.message, f.retryable()))),
                ),
                _ => (RedisTouch::Finished, Step::Finish(Ok(()))),
            },
            RedisTouch::Decoding { job_id, last_run } => match o {
                RedisOutcome::Decoded(job) => (
                    RedisTouch::Encoding { job_id: job.id },
                    Step::Run(RedisWork::Encode(ran_at(job, last_run))),
                ),
                RedisOutcome::CodecFailed(m) => (
                    RedisTouch::Finished,
                    Step::Finish(Err(job_failure(Operation::Touch, job_id, m, false))),
                ),
                _ => (RedisTouch::Finished, Step::Finish(Ok(()))),
            },
            RedisTouch::Encoding { job_id } => match o {
                RedisOutcome::Text(text) => (
                    RedisTouch::Storing { job_id },
                    Step::Run(RedisWork::Put { key: job_id, value: text }),
                ),
                RedisOutcome::CodecFailed(m) => (
                    RedisTouch::Finished,
                    Step::Finish(Err(job_failure(Operation::Touch, job_id, m, false))),
                ),
                _ => (RedisTouch::Finished, Step::Finish(Ok(()))),
            },
            RedisTouch::Storing { job_id } => match o {
                RedisOutcome::Failed(f) => (
                    RedisTouch::Finished,
                    Step::Finish(Err(job_failure(Operation::Touch, job_id, f.message, f.retryable()))),
                ),
                _ => (RedisTouch::Finished, Step::Finish(Ok(()))),
            },
            RedisTouch::Finished => (RedisTouch::Finished, Step::Finish(Ok(()))),
        }
    }

    /// Starts recording that the job `job_id` ran at `last_run`: the first
    /// work is connecting.
    pub fn start<D>(job_id: String, last_run: Timestamp) -> (r: (RedisTouch, RedisWork<D>))
        ensures
            r == (RedisTouch::Connecting { job_id, last_run }, RedisWork::<D>::Connect),
    {
        (RedisTouch::Connecting { job_id, last_run }, RedisWork::Connect)
    }

    /// Whether `o` answers the work that this state waits for.
    pub fn accepts_outcome<D>(&self, o: &RedisOutcome<D>) -> (b: bool)
        ensures
            b == self.accepts(*o),
    {
        match self {
            RedisTouch::Connecting { .. } | RedisTouch::Storing { .. } => matches!(o, RedisOutcome::Done | RedisOutcome::Failed(_)),
            RedisTouch::Reading { .. } => matches!(o, RedisOutcome::Text(_) | RedisOutcome::Failed(_)),
            RedisTouch::Decoding { .. } => matches!(o, RedisOutcome::Decoded(_) | RedisOutcome::CodecFailed(_)),
            RedisTouch::Encoding { .. } => matches!(o, RedisOutcome::Text(_) | RedisOutcome::CodecFailed(_)),
            RedisTouch::Finished => false,
        }
    }

    /// Resumes with the outcome of the work asked for.
    pub fn resume<D>(self, o: RedisOutcome<D>) -> (r: (RedisTouch, Step<RedisWork<D>>))
        requires
            self.accepts(o),
        ensures
            r == self.next(o),
    {
        match self {
            RedisTouch::Connecting { job_id, last_run } => match o {
                RedisOutcome::Failed(f) => {
                    let retry = is_retryable(&f);
                    let e = job_error(Operation::Touch, &job_id, f.message, retry);
                    (RedisTouch::Finished, Step::Finish(Err(e)))
                },
                _ => {
                    let key = job_id.clone();
                    (RedisTouch::Reading { job_id, last_run }, Step::Run(RedisWork::Get { key }))
                },
            },
            RedisTouch::Reading { job_id, last_run } => match o {
                RedisOutcome::Text(text) => {
                    (RedisTouch::Decoding { job_id, last_run }, Step::Run(RedisWork::Decode(text)))
                },
                RedisOutcome::Failed(f) => {
                    let retry = is_retryable(&f);
                    let e = job_error(Operation::Touch, &job_id, f.message, retry);
                    (RedisTouch::Finished, Step::Finish(Err(e)))
                },
                _ => unreached(),
            },
            RedisTouch::Decoding { job_id, last_run } => match o {
                RedisOutcome::Decoded(job) => {
                    let mut job = job;
                    job.set_last_run(last_run);
                    let job_id = job.id.clone();
                    (RedisTouch::Encoding { job_id }, Step::Run(RedisWork::Encode(job)))
                },
                RedisOutcome::CodecFailed(m) => {
                    let e = job_error(Operation::Touch, &job_id, m, false);
                    (RedisTouch::Finished, Step::Finish(Err(e)))
                },
                _ => unreached(),
            },
            RedisTouch::Encoding { job_id } => match o {
                RedisOutcome::Text(text) => {
                    let key = job_id.clone();
                    (RedisTouch::Storing { job_id }, Step::Run(RedisWork::Put { key, value: text }))
                },
                RedisOutcome::CodecFailed(m) => {
                    let e = job_error(Operation::Touch, &job_id, m, false);
                    (RedisTouch::Finished, Step::Finish(Err(e)))
                },
                _ => unreached(),
            },
            RedisTouch::Storing { job_id } => match o {
                RedisOutcome::Failed(f) => {
                    let retry = is_retryable(&f);
                    let e = job_error(Operation::Touch, &job_id, f.message, retry);
                    (RedisTouch::Finished, Step::Finish(Err(e)))
                },
                _ => (RedisTouch::Finished, Step::Finish(Ok(()))),
            },
            RedisTouch::Finished => unreached(),
        }
    }
}

/// Removing a job: connect, then `DEL job_id`.
#[derive(Debug)]
pub enum RedisDelete {
    Connecting { job_id: String },
    Removing { job_id: String },
    Finished,
}

impl RedisDelete {
    /// The outcome answers the work that this state waits for.
    pub open spec fn accepts<D>(self, o: RedisOutcome<D>) -> bool {
        match self {
            RedisDelete::Finished => false,
            _ => answers_command(o),
        }
    }

    /// The state and step that follow the outcome `o`.
    pub open spec fn next<D>(self, o: RedisOutcome<D>) -> (RedisDelete, Step<RedisWork<D>>) {
        match self {
            RedisDelete::Connecting { job_id } => match o {
                RedisOutcome::Failed(f) => (
                    RedisDelete::Finished,
                    Step::Finish(Err(job_failure(Operation::Delete, job_id, f.message, f.retryable()))),
                ),
                _ => (RedisDelete::Removing { job_id }, Step::Run(RedisWork::Del { key: job_id })),
            },
            RedisDelete::Removing { job_id } => match o {
                RedisOutcome::Failed(f) => (
                    RedisDelete::Finished,
                    Step::Finish(Err(job_failure(Operation::Delete, job_id, f.message, f.retryable()))),
                ),
                _ => (RedisDelete::Finished, Step::Finish(Ok(()))),
            },
            RedisDelete::Finished => (RedisDelete::Finished, Step::Finish(Ok(()))),
        }
    }

    /// Starts removing the job `job_id`: the first work is connecting.
    pub fn start<D>(job_id: String) -> (r: (RedisDelete, RedisWork<D>))
        ensures
            r == (RedisDelete::Connecting { job_id }, RedisWork::<D>::Connect),
    {
        (RedisDelete::Connecting { job_id }, RedisWork::Connect)
    }

    /// Whether `o` answers the work that this state waits for.
    pub fn accepts_outcome<D>(&self, o: &RedisOutcome<D>) -> (b: bool)
        ensures
            b == self.accepts(*o),
    {
        match self {
            RedisDelete::Finished => false,
            _ => matches!(o, RedisOutcome::Done | RedisOutcome::Failed(_)),
        }
    }

    /// Resumes with the outcome of the work asked for.
    pub fn resume<D>(self, o: RedisOutcome<D>) -> (r: (RedisDelete, Step<RedisWork<D>>))
        requires
            self.accepts(o),
        ensures
            r == self.next(o),
    {
        match self {
            RedisDelete::Connecting { job_id } => match o {
                RedisOutcome::Failed(f) => {
                    let retry = is_retryable(&f);
                    let e = job_error(Operation::Delete, &job_id, f.message, retry);
                    (RedisDelete::Finished, Step::Finish(Err(e)))
                },
                _ => {
                    let key = job_id.clone();
                    (RedisDelete::Removing { job_id }, Step::Run(RedisWork::Del { key }))
                },
            },
            RedisDelete::Removing { job_id } => match o {
                RedisOutcome::Failed(f) => {
                    let retry = is_retryable(&f);
                    let e = job_error(Operation::Delete, &job_id, f.message, retry);
                    (RedisDelete::Finished, Step::Finish(Err(e)))
                },
                _ => (RedisDelete::Finished, Step::Finish(Ok(()))),
            },
            RedisDelete::Finished => unreached(),
        }
    }
}

/// Reading every job back: connect, `KEYS *`, then for each key in turn
/// `GET` it and decode the job.  The first failure is handed out as a
/// recovery error and ends the stream.
#[derive(Debug)]
pub enum RedisRecover {
    Connecting,
    Listing,
    Reading { ids: Vec<String>, next: usize },
    Decoding { ids: Vec<String>, next: usize },
    Finished,
}

/// The recovery error for a failure with message `message`.
pub open spec fn recovery_failure(message: String, is_retryable: bool) -> BackingError {
    BackingError::Recovery { message, is_retryable }
}

impl RedisRecover {
    /// The outcome answers the work that this state waits for, and the
    /// state's position lies within its list of keys.
    pub open spec fn accepts<D>(self, o: RedisOutcome<D>) -> bool {
        match self {
            RedisRecover::Connecting => answers_command(o),
            RedisRecover::Listing => o is Keys || o is Failed,
            RedisRecover::Reading { ids, next } => next < ids@.len() && answers_read(o),
            RedisRecover::Decoding { ids, next } => next < ids@.len() && answers_decode(o),
            RedisRecover::Finished => false,
        }
    }

    /// The state and step that follow the outcome `o`.
    pub open spec fn next<D>(self, o: RedisOutcome<D>) -> (RedisRecover, StreamStep<RedisWork<D>, D>) {
        match self {
            RedisRecover::Connecting => match o {
                RedisOutcome::Failed(f) => (
                    RedisRecover::Finished,
                    StreamStep::Emit(Err(recovery_failure(f.message, f.retryable())), None),
                ),
                _ => (RedisRecover::Listing, StreamStep::Run(RedisWork::ListKeys)),
            },
            RedisRecover::Listing => match o {
                RedisOutcome::Keys(ids) => if ids@.len() == 0 {
                    (RedisRecover::Finished, StreamStep::End)
                } else {
                    (
                        RedisRecover::Reading { ids, next: 0 },
                        StreamStep::Run(RedisWork::Get { key: ids@[0] }),
                    )
                },
                RedisOutcome::Failed(f) => (
                    RedisRecover::Finished,
                    StreamStep::Emit(Err(recovery_failure(f.message, f.retryable())), None),
                ),
                _ => (RedisRecover::Finished, StreamStep::End),
            },
            RedisRecover::Reading { ids, next } => match o {
                RedisOutcome::Text(text) => (
                    RedisRecover::Decoding { ids, next },
                    StreamStep::Run(RedisWork::Decode(text)),
                ),
                RedisOutcome::Failed(f) => (
                    RedisRecover::Finished,
                    StreamStep::Emit(Err(recovery_failure(f.message, f.retryable())), None),
                ),
                _ => (RedisRecover::Finished, StreamStep::End),
            },
            RedisRecover::Decoding { ids, next } => match o {
                RedisOutcome::Decoded(job) => if next + 1 < ids@.len() {
                    (
                        RedisRecover::Reading { ids, next: (next + 1) as usize },
                        StreamStep::Emit(Ok(job), Some(RedisWork::Get { key: ids@[next + 1] })),
                    )
                } else {
                    (RedisRecover::Finished, StreamStep::Emit(Ok(job), None))
                },
                RedisOutcome::CodecFailed(m) => (
                    RedisRecover::Finished,
                    StreamStep::Emit(Err(recovery_failure(m, false)), None),
                ),
                _ => (RedisRecover::Finished, StreamStep::End),
            },
            RedisRecover::Finished => (RedisRecover::Finished, StreamStep::End),
        }
    }

    /// Starts a recovery: the first work is connecting.
    pub fn start<D>() -> (r: (RedisRecover, RedisWork<D>))
        ensures
            r == (RedisRecover::Connecting, RedisWork::<D>::Connect),
    {
        (RedisRecover::Connecting, RedisWork::Connect)
    }

    /// Whether `o` answers the work that this state waits for.
    pub fn accepts_outcome<D>(&self, o: &RedisOutcome<D>) -> (b: bool)
        ensures
            b == self.accepts(*o),
    {
        match self {
            RedisRecover::Connecting => matches!(o, RedisOutcome::Done | RedisOutcome::Failed(_)),
            RedisRecover::Listing => matches!(o, RedisOutcome::Keys(_) | RedisOutcome::Failed(_)),
            RedisRecover::Reading { ids, next } => *next < ids.len() && matches!(o, RedisOutcome::Text(_) | RedisOutcome::Failed(_)),
            RedisRecover::Decoding { ids, next } => *next < ids.len() && matches!(o, RedisOutcome::Decoded(_) | RedisOutcome::CodecFailed(_)),
            RedisRecover::Finished => false,
        }
    }

    /// Resumes with the outcome of the work asked for.
    pub fn resume<D>(self, o: RedisOutcome<D>) -> (r: (RedisRecover, StreamStep<RedisWork<D>, D>))
        requires
            self.accepts(o),
        ensures
            r == self.next(o),
    {
        match self {
            RedisRecover::Connecting => match o {
                RedisOutcome::Failed(f) => {
                    let retry = is_retryable(&f);
                    let e = BackingError::Recovery { message: f.message, is_retryable: retry };
                    (RedisRecover::Finished, StreamStep::Emit(Err(e), None))
                },
                _ => (RedisRecover::Listing, StreamStep::Run(RedisWork::ListKeys)),
            },
            RedisRecover::Listing => match o {
                RedisOutcome::Keys(ids) => {
                    if ids.len() == 0 {
                        (RedisRecover::Finished, StreamStep::End)
                    } else {
                        let key = ids[0].clone();
                        (RedisRecover::Reading { ids, next: 0 }, StreamStep::Run(RedisWork::Get { key }))
                    }
                },
                RedisOutcome::Failed(f) => {
                    let retry = is_retryable(&f);
                    let e = BackingError::Recovery { message: f.message, is_retryable: retry };
                    (RedisRecover::Finished, StreamStep::Emit(Err(e), None))
                },
                _ => unreached(),
            },
            RedisRecover::Reading { ids, next } => match o {
                RedisOutcome::Text(text) => {
                    (RedisRecover::Decoding { ids, next }, StreamStep::Run(RedisWork::Decode(text)))
                },
                RedisOutcome::Failed(f) => {
                    let retry = is_retryable(&f);
                    let e = BackingError::Recovery { message: f.message, is_retryable: retry };
                    (RedisRecover::Finished, StreamStep::Emit(Err(e), None))
                },
                _ => unreached(),
            },
            RedisRecover::Decoding { ids, next } => match o {
                RedisOutcome::Decoded(job) => {
                    if next < ids.len() - 1 {
                        let key = ids[next + 1].clone();
                        (
                            RedisRecover::Reading { ids, next: next + 1 },
                            StreamStep::Emit(Ok(job), Some(RedisWork::Get { key })),
                        )
                    } else {
                        (RedisRecover::Finished, StreamStep::Emit(Ok(job), None))
                    }
                },
                RedisOutcome::CodecFailed(m) => {
                    let e = BackingError::Recovery { message: m, is_retryable: false };
                    (RedisRecover::Finished, StreamStep::Emit(Err(e), None))
                },
                _ => unreached(),
            },
            RedisRecover::Finished => unreached(),
        }
    }
}

#[verifier::external_type_specification]
#[verifier::external_body]
pub struct ExRedisClient(redis::Client);

#[verifier::external_type_specification]
#[verifier::external_body]
pub struct ExRedisError(redis::RedisError);

/// Whether the `redis` crate, as built here (without TLS), accepts `uri` as
/// the URL of a server: a `redis://` URL with a host, or on Unix hosts a
/// `unix://` or `redis+unix://` URL with a path, each with a valid database
/// number if it names one.
pub uninterp spec fn redis_url_accepted(uri: Seq<char>) -> bool;

/// Calls `redis::Client::open`, which parses the URL into connection
/// settings and opens no connection.  The contract claims only that the
/// client is made exactly for the URLs that the crate accepts, a function of
/// the text alone; the error it gives otherwise is left unsaid.
#[verifier::external_body]
fn client_open(uri: &str) -> (r: Result<redis::Client, redis::RedisError>)
    ensures
        r is Ok <==> redis_url_accepted(uri@),
{
    redis::Client::open(uri)
}

/// The client of a store for the server at `uri`, made without connecting,
/// or the error for a URL that the `redis` crate does not accept.
pub fn open(uri: &str) -> (r: Result<redis::Client, redis::RedisError>)
    ensures
        r is Ok <==> redis_url_accepted(uri@),
{
    client_open(uri)
}

/// A piece of outside work that opening a store asks for.
#[derive(Debug, PartialEq, Eq, Structural, Clone, Copy)]
pub enum SetupWork {
    /// Open a connection to the server with the store's client.
    Connect,
    /// Send `PING` over that connection.
    Ping,
}

/// What opening a store asks for next.
#[derive(Debug)]
pub enum SetupStep {
    Run(SetupWork),
    Finish(Result<(), redis::RedisError>),
}

/// Opening a store whose client was made: connect, then `PING`; the first
/// failure is the result.
#[derive(Debug, PartialEq, Eq, Structural, Clone, Copy)]
pub enum RedisSetup {
    Connecting,
    Pinging,
    Finished,
}

impl RedisSetup {
    /// The state and step that follow the outcome of the work asked for.
    pub open spec fn next(self, outcome: Result<(), redis::RedisError>) -> (RedisSetup, SetupStep) {
        match self {
            RedisSetup::Connecting => match outcome {
                Ok(()) => (RedisSetup::Pinging, SetupStep::Run(SetupWork::Ping)),
                Err(e) => (RedisSetup::Finished, SetupStep::Finish(Err(e))),
            },
            RedisSetup::Pinging => (RedisSetup::Finished, SetupStep::Finish(outcome)),
            RedisSetup::Finished => (RedisSetup::Finished, SetupStep::Finish(Ok(()))),
        }
    }

    /// Starts opening a store: the first work is connecting.
    pub fn start() -> (r: (RedisSetup, SetupWork))
        ensures
            r == (RedisSetup::Connecting, SetupWork::Connect),
    {
        (RedisSetup::Connecting, SetupWork::Connect)
    }

    /// Resumes with the outcome of the work asked for.
    pub fn resume(self, outcome: Result<(), redis::RedisError>) -> (r: (RedisSetup, SetupStep))
        requires
            self != RedisSetup::Finished,
        ensures
            r == self.next(outcome),
    {
        match self {
            RedisSetup::Connecting => match outcome {
                Ok(()) => (RedisSetup::Pinging, SetupStep::Run(SetupWork::Ping)),
                Err(e) => (RedisSetup::Finished, SetupStep::Finish(Err(e))),
            },
            _ => (RedisSetup::Finished, SetupStep::Finish(outcome)),
        }
    }
}

} // verus!
