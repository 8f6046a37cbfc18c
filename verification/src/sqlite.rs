//! The SQLite backing store.
//!
//! Jobs live in the table `scheduled_jobs`, one row per job: its id, its
//! encoded bytes and the instant it last ran.  Recovery reads the encoded
//! bytes of every row; rows that cannot be decoded are passed over, and a
//! failed row read is handed out as an error without ending the recovery.
use vstd::prelude::*;
use vstd::pervasive::unreached;
use crate::error::{BackingError, Operation, job_error, job_failure};
use crate::job::{ScheduledJob, Timestamp};
use crate::machine::{Step, StreamStep};

verus! {

/// The kinds of `std::io::Error` that the store tells apart.  `Other` stands
/// for `std::io::ErrorKind::Other` and for every kind not listed here.
#[derive(PartialEq, Eq, Structural, Clone, Copy, Debug)]
pub enum IoErrorKind {
    NotFound,
    PermissionDenied,
    ConnectionRefused,
    ConnectionReset,
    ConnectionAborted,
    NotConnected,
    AddrInUse,
    AddrNotAvailable,
    BrokenPipe,
    AlreadyExists,
    WouldBlock,
    InvalidInput,
    InvalidData,
    TimedOut,
    WriteZero,
    Interrupted,
    Unsupported,
    UnexpectedEof,
    OutOfMemory,
    Other,
}

/// The variants of `sqlx::Error`, with what the store reads of each: the
/// database's error code and the kind of an I/O error.
#[derive(Clone, Debug)]
pub enum SqlxErrorKind {
    Configuration,
    Database { code: Option<String> },
    Io { kind: IoErrorKind },
    Tls,
    Protocol,
    RowNotFound,
    TypeNotFound,
    ColumnIndexOutOfBounds,
    ColumnNotFound,
    ColumnDecode,
    Decode,
    PoolTimedOut,
    PoolClosed,
    WorkerCrashed,
    Migrate,
}

/// A failed SQLite call, as the store sees it: the error and its message.
#[derive(Clone, Debug)]
pub struct SqliteFailure {
    pub kind: SqlxErrorKind,
    pub message: String,
}

/// The extended result codes that are worth retrying: `SQLITE_BUSY` (5),
/// `SQLITE_IOERR` (10), `SQLITE_BUSY_RECOVERY` (261), `SQLITE_BUSY_TIMEOUT`
/// (773), `SQLITE_ERROR_RETRY` (513), `SQLITE_ERROR_SNAPSHOT` (769),
/// `SQLITE_IOERR_ACCESS` (3338), `SQLITE_IOERR_UNLOCK` (2314),
/// `SQLITE_IOERR_READ` (266) and `SQLITE_IOERR_WRITE` (778).
pub open spec fn retryable_code(code: Seq<char>) -> bool {
    ||| code == "5"@
    ||| code == "10"@
    ||| code == "261"@
    ||| code == "773"@
    ||| code == "513"@
    ||| code == "769"@
    ||| code == "3338"@
    ||| code == "2314"@
    ||| code == "266"@
    ||| code == "778"@
}

/// The I/O error kinds that are worth retrying.
pub open spec fn retryable_io(kind: IoErrorKind) -> bool {
    match kind {
        IoErrorKind::ConnectionReset | IoErrorKind::ConnectionAborted | IoErrorKind::NotConnected
        | IoErrorKind::WouldBlock | IoErrorKind::TimedOut | IoErrorKind::WriteZero
        | IoErrorKind::Interrupted | IoErrorKind::UnexpectedEof => true,
        _ => false,
    }
}

impl SqliteFailure {
    /// A failure is worth retrying when the database reports one of the
    /// retryable codes, when the pool timed out, or when an I/O error is of
    /// a retryable kind.
    pub open spec fn retryable(self) -> bool {
        match self.kind {
            SqlxErrorKind::Database { code } => match code {
                Some(c) => retryable_code(c@),
                None => false,
            },
            SqlxErrorKind::PoolTimedOut => true,
            SqlxErrorKind::Io { kind } => retryable_io(kind),
            _ => false,
        }
    }
}

/// Whether `code` is the text `lit`.
fn code_is(code: &String, lit: &str) -> (b: bool)
    ensures
        b == (code@ == lit@),
{
    let expected = String::from_str(lit);
    *code == expected
}

/// Whether a database error code is one of the retryable codes.
fn is_retryable_code(code: &String) -> (b: bool)
    ensures
        b == retryable_code(code@),
{
    code_is(code, "5") || code_is(code, "10") || code_is(code, "261") || code_is(code, "773")
        || code_is(code, "513") || code_is(code, "769") || code_is(code, "3338") || code_is(
        code,
        "2314",
    ) || code_is(code, "266") || code_is(code, "778")
}

/// Whether a failed SQLite call is worth retrying.
pub fn is_retryable(e: &SqliteFailure) -> (r: bool)
    ensures
        r == e.retryable(),
{
    match &e.kind {
        SqlxErrorKind::Database { code } => match code {
            Some(c) => is_retryable_code(c),
            None => false,
        },
        SqlxErrorKind::PoolTimedOut => true,
        SqlxErrorKind::Io { kind } => match kind {
            IoErrorKind::ConnectionReset | IoErrorKind::ConnectionAborted
            | IoErrorKind::NotConnected | IoErrorKind::WouldBlock | IoErrorKind::TimedOut
            | IoErrorKind::WriteZero | IoErrorKind::Interrupted | IoErrorKind::UnexpectedEof => true,
            _ => false,
        },
        _ => false,
    }
}

/// Creates the table of jobs, if it does not exist: one row per job id, with
/// the job's encoded bytes and the instant it last ran.
pub const CREATE_TABLE_SQL: &'static str = "CREATE TABLE IF NOT EXISTS scheduled_jobs (id TEXT PRIMARY KEY NOT NULL, data BLOB NOT NULL, last_run TIMESTAMP)";

/// Stores a job, or replaces the stored row of a job with the same id.
pub const UPSERT_SQL: &'static str = "INSERT INTO scheduled_jobs (id, data, last_run) VALUES (?1, ?2, ?3) ON CONFLICT DO UPDATE SET data=excluded.data, last_run=excluded.last_run";

/// Sets the last run of the job with the given id.
pub const TOUCH_SQL: &'static str = "UPDATE scheduled_jobs SET last_run=?2 WHERE id=?1";

/// Removes the job with the given id.
pub const DELETE_SQL: &'static str = "DELETE FROM scheduled_jobs WHERE id=?1";

/// Reads the encoded bytes of every job.
pub const RECOVER_SQL: &'static str = "SELECT data FROM scheduled_jobs";

/// A piece of outside work that a SQLite operation asks for.
#[derive(Debug)]
pub enum SqliteWork<D> {
    /// Encode the job as the bytes that the store keeps.
    Encode(ScheduledJob<D>),
    /// Decode a job from the bytes that the store keeps.
    Decode(Vec<u8>),
    /// Take a connection from the pool.
    Acquire,
    /// Run `UPSERT_SQL` with `id`, `data` and `last_run` bound to `?1`, `?2`
    /// and `?3`.
    StoreJob { id: String, data: Vec<u8>, last_run: Option<Timestamp> },
    /// Run `TOUCH_SQL` with `id` and `instant` bound to `?1` and `?2`.
    SetLastRun { id: String, instant: Timestamp },
    /// Run `DELETE_SQL` with `id` bound to `?1`.
    RemoveJob { id: String },
    /// Fetch the next row of `RECOVER_SQL`, which the first fetch starts on
    /// the acquired connection.
    NextRow,
}

impl<D> SqliteWork<D> {
    /// The statement that the work runs, if it runs one.
    pub fn sql(&self) -> (text: Option<&'static str>)
        ensures
            text is Some <==> (self is StoreJob || self is SetLastRun || self is RemoveJob
                || self is NextRow),
            self is StoreJob ==> text == Some(UPSERT_SQL),
            self is SetLastRun ==> text == Some(TOUCH_SQL),
            self is RemoveJob ==> text == Some(DELETE_SQL),
            self is NextRow ==> text == Some(RECOVER_SQL),
    {
        match self {
            SqliteWork::StoreJob { .. } => Some(UPSERT_SQL),
            SqliteWork::SetLastRun { .. } => Some(TOUCH_SQL),
            SqliteWork::RemoveJob { .. } => Some(DELETE_SQL),
            SqliteWork::NextRow => Some(RECOVER_SQL),
            _ => None,
        }
    }
}

/// The outcome of a piece of outside work.
#[derive(Debug)]
pub enum SqliteOutcome<D> {
    /// Acquiring a connection or running a statement succeeded.
    Done,
    /// The bytes that `Encode` produced.
    Bytes(Vec<u8>),
    /// The job that `Decode` read.
    Decoded(ScheduledJob<D>),
    /// The encoded bytes of the row that `NextRow` fetched.
    Row(Vec<u8>),
    /// `NextRow` found no more rows.
    NoMoreRows,
    /// Acquiring, a statement or a row fetch failed.
    Failed(SqliteFailure),
    /// Encoding or decoding failed, with the codec's message.
    CodecFailed(String),
}

/// The outcome answers an acquisition or a statement.
pub open spec fn answers_command<D>(o: SqliteOutcome<D>) -> bool {
    o is Done || o is Failed
}

/// Storing a job: encode it, take a connection, then run `UPSERT_SQL`.
#[derive(Debug)]
pub enum SqliteUpsert {
    Encoding { id: String, last_run: Option<Timestamp> },
    Acquiring { id: String, data: Vec<u8>, last_run: Option<Timestamp> },
    Storing { id: String },
    Finished,
}

impl SqliteUpsert {
    /// The outcome answers the work that this state waits for.
    pub open spec fn accepts<D>(self, o: SqliteOutcome<D>) -> bool {
        match self {
            SqliteUpsert::Encoding { .. } => o is Bytes || o is CodecFailed,
            SqliteUpsert::Acquiring { .. } => answers_command(o),
            SqliteUpsert::Storing { .. } => answers_command(o),
            SqliteUpsert::Finished => false,
        }
    }

    /// The state and step that follow the outcome `o`.
    pub open spec fn next<D>(self, o: SqliteOutcome<D>) -> (SqliteUpsert, Step<SqliteWork<D>>) {
        match self {
            SqliteUpsert::Encoding { id, last_run } => match o {
                SqliteOutcome::Bytes(data) => (
                    SqliteUpsert::Acquiring { id, data, last_run },
                    Step::Run(SqliteWork::Acquire),
                ),
                SqliteOutcome::CodecFailed(m) => (
                    SqliteUpsert::Finished,
                    Step::Finish(Err(job_failure(Operation::Upsert, id, m, false))),
                ),
                _ => (SqliteUpsert::Finished, Step::Finish(Ok(()))),
            },
            SqliteUpsert::Acquiring { id, data, last_run } => match o {
                SqliteOutcome::Failed(f) => (
                    SqliteUpsert::Finished,
                    Step::Finish(Err(job_failure(Operation::Upsert, id, f.message, f.retryable()))),
                ),
                _ => (
                    SqliteUpsert::Storing { id },
                    Step::Run(SqliteWork::StoreJob { id, data, last_run }),
                ),
            },
            SqliteUpsert::Storing { id } => match o {
                SqliteOutcome::Failed(f) => (
                    SqliteUpsert::Finished,
                    Step::Finish(Err(job_failure(Operation::Upsert, id, f.message, f.retryable()))),
                ),
                _ => (SqliteUpsert::Finished, Step::Finish(Ok(()))),
            },
            SqliteUpsert::Finished => (SqliteUpsert::Finished, Step::Finish(Ok(()))),
        }
    }

    /// Starts storing `job`: the first work is encoding it.
    pub fn start<D>(job: ScheduledJob<D>) -> (r: (SqliteUpsert, SqliteWork<D>))
        ensures
            r == (SqliteUpsert::Encoding { id: job.id, last_run: job.last_run }, SqliteWork::Encode(job)),
    {
        let id = job.id.clone();
        let last_run = job.last_run;
        (SqliteUpsert::Encoding { id, last_run }, SqliteWork::Encode(job))
    }

    /// Whether `o` answers the work that this state waits for.
    pub fn accepts_outcome<D>(&self, o: &SqliteOutcome<D>) -> (b: bool)
        ensures
            b == self.accepts(*o),
    {
        match self {
            SqliteUpsert::Encoding { .. } => matches!(o, SqliteOutcome::Bytes(_) | SqliteOutcome::CodecFailed(_)),
            SqliteUpsert::Finished => false,
            _ => matches!(o, SqliteOutcome::Done | SqliteOutcome::Failed(_)),
        }
    }

    /// Resumes with the outcome of the work asked for.
    pub fn resume<D>(self, o: SqliteOutcome<D>) -> (r: (SqliteUpsert, Step<SqliteWork<D>>))
        requires
            self.accepts(o),
        ensures
            r == self.next(o),
    {
        match self {
            SqliteUpsert::Encoding { id, last_run } => match o {
                SqliteOutcome::Bytes(data) => {
                    (SqliteUpsert::Acquiring { id, data, last_run }, Step::Run(SqliteWork::Acquire))
                },
                SqliteOutcome::CodecFailed(m) => {
                    let e = job_error(Operation::Upsert, &id, m, false);
                    (SqliteUpsert::Finished, Step::Finish(Err(e)))
                },
                _ => unreached(),
            },
            SqliteUpsert::Acquiring { id, data, last_run } => match o {
                SqliteOutcome::Failed(f) => {
                    let retry = is_retryable(&f);
                    let e = job_error(Operation::Upsert, &id, f.message, retry);
                    (SqliteUpsert::Finished, Step::Finish(Err(e)))
                },
                _ => {
                    let key = id.clone();
                    (
                        SqliteUpsert::Storing { id },
                        Step::Run(SqliteWork::StoreJob { id: key, data, last_run }),
                    )
                },
            },
            SqliteUpsert::Storing { id } => match o {
                SqliteOutcome::Failed(f) => {
                    let retry = is_retryable(&f);
                    let e = job_error(Operation::Upsert, &id, f.message, retry);
                    (SqliteUpsert::Finished, Step::Finish(Err(e)))
                },
                _ => (SqliteUpsert::Finished, Step::Finish(Ok(()))),
            },
            SqliteUpsert::Finished => unreached(),
        }
    }
}

/// Recording that a job ran: take a connection, then run `TOUCH_SQL`.
#[derive(Debug)]
pub enum SqliteTouch {
    Acquiring { id: String, last_run: Timestamp },
    Updating { id: String },
    Finished,
}

impl SqliteTouch {
    /// The outcome answers the work that this state waits for.
    pub open spec fn accepts<D>(self, o: SqliteOutcome<D>) -> bool {
        match self {
            SqliteTouch::Finished => false,
            _ => answers_command(o),
        }
    }

    /// The state and step that follow the outcome `o`.
    pub open spec fn next<D>(self, o: SqliteOutcome<D>) -> (SqliteTouch, Step<SqliteWork<D>>) {
        match self {
            SqliteTouch::Acquiring { id, last_run } => match o {
                SqliteOutcome::Failed(f) => (
                    SqliteTouch::Finished,
                    Step::Finish(Err(job_failure(Operation::Touch, id, f.message, f.retryable()))),
                ),
                _ => (
                    SqliteTouch::Updating { id },
                    Step::Run(SqliteWork::SetLastRun { id, instant: last_run }),
                ),
            },
            SqliteTouch::Updating { id } => match o {
                SqliteOutcome::Failed(f) => (
                    SqliteTouch::Finished,
                    Step::Finish(Err(job_failure(Operation::Touch, id, f.message, f.retryable()))),
                ),
                _ => (SqliteTouch::Finished, Step::Finish(Ok(()))),
            },
            SqliteTouch::Finished => (SqliteTouch::Finished, Step::Finish(Ok(()))),
        }
    }

    /// Starts recording that the job `id` ran at `last_run`: the first work
    /// is taking a connection.
    pub fn start<D>(id: String, last_run: Timestamp) -> (r: (SqliteTouch, SqliteWork<D>))
        ensures
            r == (SqliteTouch::Acquiring { id, last_run }, SqliteWork::<D>::Acquire),
    {
        (SqliteTouch::Acquiring { id, last_run }, SqliteWork::Acquire)
    }

    /// Whether `o` answers the work that this state waits for.
    pub fn accepts_outcome<D>(&self, o: &SqliteOutcome<D>) -> (b: bool)
        ensures
            b == self.accepts(*o),
    {
        match self {
            SqliteTouch::Finished => false,
            _ => matches!(o, SqliteOutcome::Done | SqliteOutcome::Failed(_)),
        }
    }

    /// Resumes with the outcome of the work asked for.
    pub fn resume<D>(self, o: SqliteOutcome<D>) -> (r: (SqliteTouch, Step<SqliteWork<D>>))
        requires
            self.accepts(o),
        ensures
            r == self.next(o),
    {
        match self {
            SqliteTouch::Acquiring { id, last_run } => match o {
                SqliteOutcome::Failed(f) => {
                    let retry = is_retryable(&f);
                    let e = job_error(Operation::Touch, &id, f.message, retry);
                    (SqliteTouch::Finished, Step::Finish(Err(e)))
                },
                _ => {
                    let key = id.clone();
                    (SqliteTouch::Updating { id }, Step::Run(SqliteWork::SetLastRun { id: key, instant: last_run }))
                },
            },
            SqliteTouch::Updating { id } => match o {
                SqliteOutcome::Failed(f) => {
                    let retry = is_retryable(&f);
                    let e = job_error(Operation::Touch, &id, f.message, retry);
                    (SqliteTouch::Finished, Step::Finish(Err(e)))
                },
                _ => (SqliteTouch::Finished, Step::Finish(Ok(()))),
            },
            SqliteTouch::Finished => unreached(),
        }
    }
}

/// Removing a job: take a connection, then run `DELETE_SQL`.
#[derive(Debug)]
pub enum SqliteDelete {
    Acquiring { id: String },
    Removing { id: String },
    Finished,
}

impl SqliteDelete {
    /// The outcome answers the work that this state waits for.
    pub open spec fn accepts<D>(self, o: SqliteOutcome<D>) -> bool {
        match self {
            SqliteDelete::Finished => false,
            _ => answers_command(o),
        }
    }

    /// The state and step that follow the outcome `o`.
    pub open spec fn next<D>(self, o: SqliteOutcome<D>) -> (SqliteDelete, Step<SqliteWork<D>>) {
        match self {
            SqliteDelete::Acquiring { id } => match o {
                SqliteOutcome::Failed(f) => (
                    SqliteDelete::Finished,
                    Step::Finish(Err(job_failure(Operation::Delete, id, f.message, f.retryable()))),
                ),
                _ => (SqliteDelete::Removing { id }, Step::Run(SqliteWork::RemoveJob { id })),
            },
            SqliteDelete::Removing { id } => match o {
                SqliteOutcome::Failed(f) => (
                    SqliteDelete::Finished,
                    Step::Finish(Err(job_failure(Operation::Delete, id, f.message, f.retryable()))),
                ),
                _ => (SqliteDelete::Finished, Step::Finish(Ok(()))),
            },
            SqliteDelete::Finished => (SqliteDelete::Finished, Step::Finish(Ok(()))),
        }
    }

    /// Starts removing the job `id`: the first work is taking a connection.
    pub fn start<D>(id: String) -> (r: (SqliteDelete, SqliteWork<D>))
        ensures
            r == (SqliteDelete::Acquiring { id }, SqliteWork::<D>::Acquire),
    {
        (SqliteDelete::Acquiring { id }, SqliteWork::Acquire)
    }

    /// Whether `o` answers the work that this state waits for.
    pub fn accepts_outcome<D>(&self, o: &SqliteOutcome<D>) -> (b: bool)
        ensures
            b == self.accepts(*o),
    {
        match self {
            SqliteDelete::Finished => false,
            _ => matches!(o, SqliteOutcome::Done | SqliteOutcome::Failed(_)),
        }
    }

    /// Resumes with the outcome of the work asked for.
    pub fn resume<D>(self, o: SqliteOutcome<D>) -> (r: (SqliteDelete, Step<SqliteWork<D>>))
        requires
            self.accepts(o),
        ensures
            r == self.next(o),
    {
        match self {
            SqliteDelete::Acquiring { id } => match o {
                SqliteOutcome::Failed(f) => {
                    let retry = is_retryable(&f);
                    let e = job_error(Operation::Delete, &id, f.message, retry);
                    (SqliteDelete::Finished, Step::Finish(Err(e)))
                },
                _ => {
                    let key = id.clone();
                    (SqliteDelete::Removing { id }, Step::Run(SqliteWork::RemoveJob { id: key }))
                },
            },
            SqliteDelete::Removing { id } => match o {
                SqliteOutcome::Failed(f) => {
                    let retry = is_retryable(&f);
                    let e = job_error(Operation::Delete, &id, f.message, retry);
                    (SqliteDelete::Finished, Step::Finish(Err(e)))
                },
                _ => (SqliteDelete::Finished, Step::Finish(Ok(()))),
            },
            SqliteDelete::Finished => unreached(),
        }
    }
}

/// Reading every job back: take a connection, then fetch the rows of
/// `RECOVER_SQL` one by one and decode each.  A failed fetch is handed out as
/// an error and the rows are fetched on; a row that does not decode is
/// passed over.
#[derive(Debug)]
pub enum SqliteRecover {
    Acquiring,
    Fetching,
    Decoding,
    Finished,
}

impl SqliteRecover {
    /// The outcome answers the work that this state waits for.
    pub open spec fn accepts<D>(self, o: SqliteOutcome<D>) -> bool {
        match self {
            SqliteRecover::Acquiring => answers_command(o),
            SqliteRecover::Fetching => o is Row || o is NoMoreRows || o is Failed,
            SqliteRecover::Decoding => o is Decoded || o is CodecFailed,
            SqliteRecover::Finished => false,
        }
    }

    /// The state and step that follow the outcome `o`.
    pub open spec fn next<D>(self, o: SqliteOutcome<D>) -> (SqliteRecover, StreamStep<SqliteWork<D>, D>) {
        match self {
            SqliteRecover::Acquiring => match o {
                SqliteOutcome::Failed(f) => (
                    SqliteRecover::Finished,
                    StreamStep::Emit(Err(BackingError::Recovery { message: f.message, is_retryable: f.retryable() }), None),
                ),
                _ => (SqliteRecover::Fetching, StreamStep::Run(SqliteWork::NextRow)),
            },
            SqliteRecover::Fetching => match o {
                SqliteOutcome::Row(data) => (SqliteRecover::Decoding, StreamStep::Run(SqliteWork::Decode(data))),
                SqliteOutcome::Failed(f) => (
                    SqliteRecover::Fetching,
                    StreamStep::Emit(
                        Err(BackingError::Recovery { message: f.message, is_retryable: f.retryable() }),
                        Some(SqliteWork::NextRow),
                    ),
                ),
                _ => (SqliteRecover::Finished, StreamStep::End),
            },
            SqliteRecover::Decoding => match o {
                SqliteOutcome::Decoded(job) => (
                    SqliteRecover::Fetching,
                    StreamStep::Emit(Ok(job), Some(SqliteWork::NextRow)),
                ),
                _ => (SqliteRecover::Fetching, StreamStep::Run(SqliteWork::NextRow)),
            },
            SqliteRecover::Finished => (SqliteRecover::Finished, StreamStep::End),
        }
    }

    /// Starts a recovery: the first work is taking a connection.
    pub fn start<D>() -> (r: (SqliteRecover, SqliteWork<D>))
        ensures
            r == (SqliteRecover::Acquiring, SqliteWork::<D>::Acquire),
    {
        (SqliteRecover::Acquiring, SqliteWork::Acquire)
    }

    /// Whether `o` answers the work that this state waits for.
    pub fn accepts_outcome<D>(&self, o: &SqliteOutcome<D>) -> (b: bool)
        ensures
            b == self.accepts(*o),
    {
        match self {
            SqliteRecover::Acquiring => matches!(o, SqliteOutcome::Done | SqliteOutcome::Failed(_)),
            SqliteRecover::Fetching => matches!(o, SqliteOutcome::Row(_) | SqliteOutcome::NoMoreRows | SqliteOutcome::Failed(_)),
            SqliteRecover::Decoding => matches!(o, SqliteOutcome::Decoded(_) | SqliteOutcome::CodecFailed(_)),
            SqliteRecover::Finished => false,
        }
    }

    /// Resumes with the outcome of the work asked for.
    pub fn resume<D>(self, o: SqliteOutcome<D>) -> (r: (SqliteRecover, StreamStep<SqliteWork<D>, D>))
        requires
            self.accepts(o),
        ensures
            r == self.next(o),
            self is Fetching ==> (o matches SqliteOutcome::Failed(f) ==> r.0 is Fetching && (r.1 matches StreamStep::Emit(
                Err(BackingError::Recovery { message, is_retryable }),
                Some(SqliteWork::NextRow),
            ) && message == f.message && is_retryable == f.retryable())),
    {
        match self {
            SqliteRecover::Acquiring => match o {
                SqliteOutcome::Failed(f) => {
                    let retry = is_retryable(&f);
                    let e = BackingError::Recovery { message: f.message, is_retryable: retry };
                    (SqliteRecover::Finished, StreamStep::Emit(Err(e), None))
                },
                _ => (SqliteRecover::Fetching, StreamStep::Run(SqliteWork::NextRow)),
            },
            SqliteRecover::Fetching => match o {
                SqliteOutcome::Row(data) => (SqliteRecover::Decoding, StreamStep::Run(SqliteWork::Decode(data))),
                SqliteOutcome::Failed(f) => {
                    let retry = is_retryable(&f);
                    let e = BackingError::Recovery { message: f.message, is_retryable: retry };
                    (SqliteRecover::Fetching, StreamStep::Emit(Err(e), Some(SqliteWork::NextRow)))
                },
                _ => (SqliteRecover::Finished, StreamStep::End),
            },
            SqliteRecover::Decoding => match o {
                SqliteOutcome::Decoded(job) => {
                    (SqliteRecover::Fetching, StreamStep::Emit(Ok(job), Some(SqliteWork::NextRow)))
                },
                _ => (SqliteRecover::Fetching, StreamStep::Run(SqliteWork::NextRow)),
            },
            SqliteRecover::Finished => unreached(),
        }
    }
}

#[verifier::external_type_specification]
#[verifier::external_body]
pub struct ExSqliteConnectOptions(sqlx::sqlite::SqliteConnectOptions);

#[verifier::external_type_specification]
#[verifier::external_body]
pub struct ExSqlxError(sqlx::Error);

#[verifier::external_type_specification]
#[verifier::external_body]
pub struct ExLevelFilter(log::LevelFilter);

/// Whether sqlx accepts `uri` as the URL of a SQLite database: after an
/// optional `sqlite://` or `sqlite:` prefix, a file name that percent-decodes
/// to UTF-8 (or `:memory:`), and only the query parameters `mode`, `cache`,
/// `immutable` and `vfs`, each with a value that sqlx knows.
pub uninterp spec fn sqlite_url_accepted(uri: Seq<char>) -> bool;

/// Calls `<SqliteConnectOptions as FromStr>::from_str`, which parses the URL
/// and opens nothing.  The contract claims only that options are made
/// exactly for the URLs that sqlx accepts, a function of the text alone;
/// what the options hold, and the error otherwise, are left unsaid.
#[verifier::external_body]
fn parse_options(uri: &str) -> (r: Result<sqlx::sqlite::SqliteConnectOptions, sqlx::Error>)
    ensures
        r is Ok <==> sqlite_url_accepted(uri@),
{
    <sqlx::sqlite::SqliteConnectOptions as std::str::FromStr>::from_str(uri)
}

/// Calls `SqliteConnectOptions::create_if_missing`, which sets whether
/// connecting creates a missing database file.  Nothing is claimed of the
/// options it returns, which no verified code reads.
#[verifier::external_body]
fn set_create_if_missing(options: sqlx::sqlite::SqliteConnectOptions, create: bool) -> sqlx::sqlite::SqliteConnectOptions {
    options.create_if_missing(create)
}

/// Calls `ConnectOptions::log_statements` on the options, which sets the
/// level at which executed statements are logged.  Nothing is claimed.
#[verifier::external_body]
fn set_statement_logging(options: &mut sqlx::sqlite::SqliteConnectOptions, level: log::LevelFilter) {
    sqlx::ConnectOptions::log_statements(options, level);
}

/// Calls `ConnectOptions::log_slow_statements` on the options, which sets
/// the level at which statements slower than `secs` seconds are logged.
/// Nothing is claimed.
#[verifier::external_body]
fn set_slow_statement_logging(options: &mut sqlx::sqlite::SqliteConnectOptions, level: log::LevelFilter, secs: u64) {
    sqlx::ConnectOptions::log_slow_statements(options, level, std::time::Duration::from_secs(secs));
}

/// The levels of `log::LevelFilter`.
#[derive(PartialEq, Eq, Structural, Clone, Copy, Debug)]
pub enum LogLevel {
    Off,
    Error,
    Warn,
    Info,
    Debug,
    Trace,
}

/// Converts a level to `log::LevelFilter`, variant for variant.
#[verifier::external_body]
fn level_filter(level: LogLevel) -> log::LevelFilter {
    match level {
        LogLevel::Off => log::LevelFilter::Off,
        LogLevel::Error => log::LevelFilter::Error,
        LogLevel::Warn => log::LevelFilter::Warn,
        LogLevel::Info => log::LevelFilter::Info,
        LogLevel::Debug => log::LevelFilter::Debug,
        LogLevel::Trace => log::LevelFilter::Trace,
    }
}

/// The connection settings that the store chooses.
#[derive(PartialEq, Eq, Structural, Clone, Copy, Debug)]
pub struct SqliteSettings {
    /// Whether connecting creates a missing database file.
    pub create_if_missing: bool,
    /// The level at which executed statements are logged.
    pub statements: LogLevel,
    /// The level at which slow statements are logged.
    pub slow_statements: LogLevel,
    /// The number of seconds from which a statement counts as slow.
    pub slow_after_secs: u64,
}

/// The store's default settings: create a missing database file, log no
/// statement, and log statements that take a second or more as warnings.
pub fn default_settings() -> (s: SqliteSettings)
    ensures
        s == (SqliteSettings {
            create_if_missing: true,
            statements: LogLevel::Off,
            slow_statements: LogLevel::Warn,
            slow_after_secs: 1,
        }),
{
    SqliteSettings {
        create_if_missing: true,
        statements: LogLevel::Off,
        slow_statements: LogLevel::Warn,
        slow_after_secs: 1,
    }
}

/// The connection options for the database at `uri` with the given
/// settings, or the error for a URL that sqlx does not accept.
pub fn options_for(uri: &str, settings: SqliteSettings) -> (r: Result<sqlx::sqlite::SqliteConnectOptions, sqlx::Error>)
    ensures
        r is Ok <==> sqlite_url_accepted(uri@),
{
    match parse_options(uri) {
        Ok(options) => {
            let mut options = set_create_if_missing(options, settings.create_if_missing);
            set_statement_logging(&mut options, level_filter(settings.statements));
            set_slow_statement_logging(
                &mut options,
                level_filter(settings.slow_statements),
                settings.slow_after_secs,
            );
            Ok(options)
        },
        Err(e) => Err(e),
    }
}

/// The connection options for the database at `uri` with the store's
/// default settings, or the error for a URL that sqlx does not accept.
pub fn default_options(uri: &str) -> (r: Result<sqlx::sqlite::SqliteConnectOptions, sqlx::Error>)
    ensures
        r is Ok <==> sqlite_url_accepted(uri@),
{
    options_for(uri, default_settings())
}

} // verus!
