//! A model of the SQLite table of jobs, and what the SQLite store's
//! operations do to it when every call succeeds.
use vstd::prelude::*;
use crate::error::{BackingError, Operation, is_recovery_error};
use crate::job::{ScheduledJob, Timestamp};
use crate::machine::{
    OperationMachine, RecoveryMachine, Step, StreamStep, World, exactly_one, holds_job,
    lemma_none_cons, lemma_one_cons_here, lemma_one_cons_later, none_with, recover,
    reports_failure, run,
};
use crate::sqlite::{
    SqliteDelete, SqliteFailure, SqliteOutcome, SqliteRecover, SqliteTouch, SqliteUpsert,
    SqliteWork,
};

verus! {

impl<D> OperationMachine<SqliteWork<D>, SqliteOutcome<D>> for SqliteUpsert {
    open spec fn answers(self, o: SqliteOutcome<D>) -> bool {
        self.accepts(o)
    }

    open spec fn advance(self, o: SqliteOutcome<D>) -> (Self, Step<SqliteWork<D>>) {
        self.next(o)
    }
}

impl<D> OperationMachine<SqliteWork<D>, SqliteOutcome<D>> for SqliteTouch {
    open spec fn answers(self, o: SqliteOutcome<D>) -> bool {
        self.accepts(o)
    }

    open spec fn advance(self, o: SqliteOutcome<D>) -> (Self, Step<SqliteWork<D>>) {
        self.next(o)
    }
}

impl<D> OperationMachine<SqliteWork<D>, SqliteOutcome<D>> for SqliteDelete {
    open spec fn answers(self, o: SqliteOutcome<D>) -> bool {
        self.accepts(o)
    }

    open spec fn advance(self, o: SqliteOutcome<D>) -> (Self, Step<SqliteWork<D>>) {
        self.next(o)
    }
}

impl<D> RecoveryMachine<SqliteWork<D>, SqliteOutcome<D>, D> for SqliteRecover {
    open spec fn answers(self, o: SqliteOutcome<D>) -> bool {
        self.accepts(o)
    }

    open spec fn advance(self, o: SqliteOutcome<D>) -> (Self, StreamStep<SqliteWork<D>, D>) {
        self.next(o)
    }
}

/// A row of the table: the job's encoded bytes and its last run.
pub struct Row {
    pub data: Vec<u8>,
    pub last_run: Option<Timestamp>,
}

/// A SQLite database whose calls all succeed, and the codec of the store.
/// `table` maps each job id to its row; `scan` is the order in which
/// `RECOVER_SQL` returns the rows, by id, and `cursor` the number of rows it
/// has returned so far; `encode` and `decode` are the codec, `decode` giving
/// `None` for bytes that hold no job, in which case it fails with
/// `codec_error`.
#[verifier::reject_recursive_types(D)]
pub struct SqliteDb<D> {
    pub table: Map<Seq<char>, Row>,
    pub scan: Seq<Seq<char>>,
    pub cursor: int,
    pub encode: spec_fn(ScheduledJob<D>) -> Vec<u8>,
    pub decode: spec_fn(Vec<u8>) -> Option<ScheduledJob<D>>,
    pub codec_error: String,
}

/// The table after `UPSERT_SQL`: the job's row holds the new bytes and last
/// run, whether or not it existed.
pub open spec fn upserted(table: Map<Seq<char>, Row>, id: Seq<char>, data: Vec<u8>, last_run: Option<Timestamp>) -> Map<Seq<char>, Row> {
    table.insert(id, Row { data, last_run })
}

/// The table after `TOUCH_SQL`: the last run of the job's row, if it has
/// one, is `t`; nothing else changes.
pub open spec fn touched(table: Map<Seq<char>, Row>, id: Seq<char>, t: Timestamp) -> Map<Seq<char>, Row> {
    if table.contains_key(id) {
        table.insert(id, Row { last_run: Some(t), ..table[id] })
    } else {
        table
    }
}

impl<D> World<SqliteWork<D>, SqliteOutcome<D>> for SqliteDb<D> {
    open spec fn outcome(self, w: SqliteWork<D>) -> SqliteOutcome<D> {
        match w {
            SqliteWork::Encode(job) => SqliteOutcome::Bytes((self.encode)(job)),
            SqliteWork::Decode(data) => match (self.decode)(data) {
                Some(job) => SqliteOutcome::Decoded(job),
                None => SqliteOutcome::CodecFailed(self.codec_error),
            },
            SqliteWork::NextRow => if 0 <= self.cursor < self.scan.len() {
                SqliteOutcome::Row(self.table[self.scan[self.cursor]].data)
            } else {
                SqliteOutcome::NoMoreRows
            },
            _ => SqliteOutcome::Done,
        }
    }

    open spec fn after(self, w: SqliteWork<D>) -> Self {
        match w {
            SqliteWork::StoreJob { id, data, last_run } => SqliteDb {
                table: upserted(self.table, id@, data, last_run),
                ..self
            },
            SqliteWork::SetLastRun { id, instant } => SqliteDb { table: touched(self.table, id@, instant), ..self },
            SqliteWork::RemoveJob { id } => SqliteDb { table: self.table.remove(id@), ..self },
            SqliteWork::NextRow => SqliteDb { cursor: self.cursor + 1, ..self },
            _ => self,
        }
    }
}

/// The database with `table` in place of its table.
pub open spec fn with_table<D>(db: SqliteDb<D>, table: Map<Seq<char>, Row>) -> SqliteDb<D> {
    SqliteDb { table, ..db }
}

/// Storing a job writes its encoding and last run to its row and succeeds.
pub proof fn lemma_upsert_stores<D>(job: ScheduledJob<D>, db: SqliteDb<D>)
    ensures
        run(
            SqliteUpsert::Encoding { id: job.id, last_run: job.last_run },
            SqliteWork::Encode(job),
            db,
            3,
        ) == Some((
            with_table(db, upserted(db.table, job.id@, (db.encode)(job), job.last_run)),
            Ok::<(), BackingError>(()),
        )),
{
    reveal_with_fuel(run, 4);
}

/// Recording a run sets the last run of the job's row, if there is one, and
/// succeeds.
pub proof fn lemma_touch_records<D>(id: String, t: Timestamp, db: SqliteDb<D>)
    ensures
        run(SqliteTouch::Acquiring { id, last_run: t }, SqliteWork::<D>::Acquire, db, 2)
            == Some((with_table(db, touched(db.table, id@, t)), Ok::<(), BackingError>(()))),
{
    reveal_with_fuel(run, 3);
}

/// Removing a job deletes its row and succeeds.
pub proof fn lemma_delete_removes<D>(id: String, db: SqliteDb<D>)
    ensures
        run(SqliteDelete::Acquiring { id }, SqliteWork::<D>::Acquire, db, 2)
            == Some((with_table(db, db.table.remove(id@)), Ok::<(), BackingError>(()))),
{
    reveal_with_fuel(run, 3);
}

/// The jobs decoded from the rows that the query returns from position `k`
/// on, in order, leaving out rows whose bytes hold no job.
pub open spec fn decoded_rows<D>(db: SqliteDb<D>, k: int) -> Seq<Result<ScheduledJob<D>, BackingError>>
    decreases db.scan.len() - k,
{
    if k < 0 || k >= db.scan.len() {
        Seq::empty()
    } else {
        match (db.decode)(db.table[db.scan[k]].data) {
            Some(job) => seq![Ok(job)] + decoded_rows(db, k + 1),
            None => decoded_rows(db, k + 1),
        }
    }
}

/// Fetching on from row `k` hands out the decodable rows in order.
proof fn lemma_fetches_from<D>(db: SqliteDb<D>, k: int)
    requires
        0 <= k <= db.scan.len(),
        db.cursor == k,
    ensures
        recover(SqliteRecover::Fetching, SqliteWork::<D>::NextRow, db, (2 * (db.scan.len() - k) + 1) as nat)
            == Some((SqliteDb { cursor: db.scan.len() + 1int, ..db }, decoded_rows(db, k))),
    decreases db.scan.len() - k,
{
    reveal_with_fuel(recover, 3);
    if k < db.scan.len() {
        let db2 = SqliteDb { cursor: k + 1, ..db };
        lemma_fetches_from(db2, k + 1);
        assert(decoded_rows(db2, k + 1) == decoded_rows(db, k + 1)) by {
            lemma_rows_ignore_cursor(db2, db, k + 1);
        }
    }
}

/// The decoded rows do not depend on the cursor.
proof fn lemma_rows_ignore_cursor<D>(a: SqliteDb<D>, b: SqliteDb<D>, k: int)
    requires
        a.table == b.table,
        a.scan == b.scan,
        a.decode == b.decode,
    ensures
        decoded_rows(a, k) == decoded_rows(b, k),
    decreases a.scan.len() - k,
{
    if 0 <= k < a.scan.len() {
        lemma_rows_ignore_cursor(a, b, k + 1);
    }
}

/// A recovery hands out, in the order of the query, the job of every row
/// whose bytes decode, passes over the others, and changes no row.
pub proof fn lemma_recover_reads_all<D>(db: SqliteDb<D>)
    requires
        db.cursor == 0,
    ensures
        recover(SqliteRecover::Acquiring, SqliteWork::<D>::Acquire, db, (2 * db.scan.len() + 2) as nat)
            == Some((SqliteDb { cursor: db.scan.len() + 1int, ..db }, decoded_rows(db, 0))),
{
    reveal_with_fuel(recover, 2);
    lemma_fetches_from(db, 0);
}

/// The codec reads back every job it writes.
pub open spec fn round_trips<D>(db: SqliteDb<D>) -> bool {
    forall|j: ScheduledJob<D>| #[trigger] (db.decode)((db.encode)(j)) == Some(j)
}

/// The message and retryability of a failed outcome: a failed SQLite call is
/// retryable as its error says, a failed encoding or decoding never.
pub open spec fn failure_of<D>(o: SqliteOutcome<D>) -> Option<(String, bool)> {
    match o {
        SqliteOutcome::Failed(f) => Some((f.message, f.retryable())),
        SqliteOutcome::CodecFailed(m) => Some((m, false)),
        _ => None,
    }
}

/// The id of the job that a state of storing works on.
pub open spec fn upsert_job(s: SqliteUpsert) -> String {
    match s {
        SqliteUpsert::Encoding { id, .. } => id,
        SqliteUpsert::Acquiring { id, .. } => id,
        SqliteUpsert::Storing { id } => id,
        SqliteUpsert::Finished => arbitrary(),
    }
}

/// The id of the job that a state of recording a run works on.
pub open spec fn touch_job(s: SqliteTouch) -> String {
    match s {
        SqliteTouch::Acquiring { id, .. } => id,
        SqliteTouch::Updating { id } => id,
        SqliteTouch::Finished => arbitrary(),
    }
}

/// The id of the job that a state of removing works on.
pub open spec fn delete_job(s: SqliteDelete) -> String {
    match s {
        SqliteDelete::Acquiring { id } => id,
        SqliteDelete::Removing { id } => id,
        SqliteDelete::Finished => arbitrary(),
    }
}

/// Storing a job ends with an error exactly when the encoding or a call
/// fails, and the error is the upsert error of the job with the failure's
/// message and retryability; until it ends, it works on the same job.
pub proof fn lemma_upsert_failures<D>(s: SqliteUpsert, o: SqliteOutcome<D>)
    requires
        s.accepts(o),
    ensures
        reports_failure(s.next(o).1, Operation::Upsert, upsert_job(s)@, failure_of(o)),
        !(s.next(o).0 is Finished) ==> upsert_job(s.next(o).0) == upsert_job(s),
{
}

/// Recording a run ends with an error exactly when a call fails, and the
/// error is the touch error of the job with the failure's message and
/// retryability; until it ends, it works on the same job.
pub proof fn lemma_touch_failures<D>(s: SqliteTouch, o: SqliteOutcome<D>)
    requires
        s.accepts(o),
    ensures
        reports_failure(s.next(o).1, Operation::Touch, touch_job(s)@, failure_of(o)),
        !(s.next(o).0 is Finished) ==> touch_job(s.next(o).0) == touch_job(s),
{
}

/// Removing a job ends with an error exactly when a call fails, and the
/// error is the delete error of the job with the failure's message and
/// retryability; until it ends, it works on the same job.
pub proof fn lemma_delete_failures<D>(s: SqliteDelete, o: SqliteOutcome<D>)
    requires
        s.accepts(o),
    ensures
        reports_failure(s.next(o).1, Operation::Delete, delete_job(s)@, failure_of(o)),
        !(s.next(o).0 is Finished) ==> delete_job(s.next(o).0) == delete_job(s),
{
}

/// A recovery hands out an error exactly when a call fails, with the
/// failure's message and retryability; a failure to take a connection ends
/// the stream, a failed row fetch does not.  A row that does not decode is
/// passed over without an error.
pub proof fn lemma_recover_failures<D>(s: SqliteRecover, o: SqliteOutcome<D>)
    requires
        s.accepts(o),
    ensures
        o matches SqliteOutcome::Failed(f) ==> s.next(o).1 matches StreamStep::Emit(Err(e), next)
            && is_recovery_error(e, f.message@, f.retryable()) && (next is Some <==> s is Fetching),
        o is CodecFailed ==> s.next(o).1 == StreamStep::<SqliteWork<D>, D>::Run(SqliteWork::NextRow),
        !(o is Failed) ==> !(s.next(o).1 matches StreamStep::Emit(Err(_), _)),
{
}

/// A job that was removed is not read back by a recovery whose query returns
/// only stored rows: the query returns no row of its id.
pub proof fn lemma_deleted_job_not_read<D>(id: String, db: SqliteDb<D>)
    requires
        forall|k: int| 0 <= k < db.scan.len() ==> #[trigger] db.table.remove(id@).contains_key(db.scan[k]),
    ensures
        run(SqliteDelete::Acquiring { id }, SqliteWork::<D>::Acquire, db, 2)
            == Some((with_table(db, db.table.remove(id@)), Ok::<(), BackingError>(()))),
        forall|k: int| 0 <= k < db.scan.len() ==> #[trigger] db.scan[k] != id@,
{
    lemma_delete_removes(id, db);
    assert forall|k: int| 0 <= k < db.scan.len() implies #[trigger] db.scan[k] != id@ by {
        assert(db.table.remove(id@).contains_key(db.scan[k]));
    }
}

/// The query returns every row of the table, each once, in the order of
/// `scan`.
pub open spec fn scan_listed<D>(db: SqliteDb<D>) -> bool {
    &&& forall|i: int, j: int| 0 <= i < j < db.scan.len() ==> db.scan[i] != db.scan[j]
    &&& forall|i: int| 0 <= i < db.scan.len() ==> #[trigger] db.table.contains_key(db.scan[i])
    &&& forall|k: Seq<char>| db.table.contains_key(k) ==> exists|i: int| 0 <= i < db.scan.len() && db.scan[i] == k
}

/// The bytes of every row that decode hold a job whose id is the row's id,
/// as the store keeps them: upsert writes each job under its own id.
pub open spec fn ids_match_rows<D>(db: SqliteDb<D>) -> bool {
    forall|k: Seq<char>| #[trigger] db.table.contains_key(k) ==> ((db.decode)(db.table[k].data) matches Some(j) ==> j.id@ == k)
}

/// From row `k` on, the decoded rows hold `job` once when the row of its id
/// is still ahead, and no job of its id otherwise.
proof fn lemma_rows_once<D>(db: SqliteDb<D>, job: ScheduledJob<D>, p: int, k: int)
    requires
        scan_listed(db),
        ids_match_rows(db),
        0 <= p < db.scan.len(),
        db.scan[p] == job.id@,
        (db.decode)(db.table[job.id@].data) == Some(job),
        0 <= k <= db.scan.len(),
    ensures
        k <= p ==> exactly_one(decoded_rows(db, k), job),
        k > p ==> none_with(decoded_rows(db, k), job.id@),
    decreases db.scan.len() - k,
{
    if k < db.scan.len() {
        lemma_rows_once(db, job, p, k + 1);
        let rest = decoded_rows(db, k + 1);
        assert(db.table.contains_key(db.scan[k]));
        if k == p {
            lemma_one_cons_here(job, rest);
        } else {
            if k < p {
                assert(db.scan[k] != db.scan[p]);
            } else {
                assert(db.scan[p] != db.scan[k]);
            }
            match (db.decode)(db.table[db.scan[k]].data) {
                Some(j) => {
                    if k < p {
                        lemma_one_cons_later(Ok(j), rest, job);
                    } else {
                        lemma_none_cons(Ok(j), rest, job.id@);
                    }
                },
                None => {},
            }
        }
    } else {
        assert(decoded_rows(db, k) =~= Seq::empty());
    }
}

/// From row `k` on, the decoded rows hold no job with an id that has no row.
proof fn lemma_rows_none<D>(db: SqliteDb<D>, id: Seq<char>, k: int)
    requires
        scan_listed(db),
        ids_match_rows(db),
        !db.table.contains_key(id),
        0 <= k <= db.scan.len(),
    ensures
        none_with(decoded_rows(db, k), id),
    decreases db.scan.len() - k,
{
    if k < db.scan.len() {
        lemma_rows_none(db, id, k + 1);
        assert(db.table.contains_key(db.scan[k]));
        match (db.decode)(db.table[db.scan[k]].data) {
            Some(j) => lemma_none_cons(Ok(j), decoded_rows(db, k + 1), id),
            None => {},
        }
    } else {
        assert(decoded_rows(db, k) =~= Seq::empty());
    }
}

/// A job survives a restart of the store: with a codec that reads back what
/// it writes, on a table whose rows hold jobs of their own ids, after upsert
/// stored the job, and after a later recorded run of it, a recovery whose
/// query returns each row once hands the job back exactly once, and no
/// other job with its id.
pub proof fn lemma_stored_job_recovered<D>(job: ScheduledJob<D>, t: Timestamp, db: SqliteDb<D>)
    requires
        round_trips(db),
        ids_match_rows(db),
        db.cursor == 0,
        scan_listed(with_table(db, upserted(db.table, job.id@, (db.encode)(job), job.last_run))),
    ensures
        ({
            let stored = with_table(db, upserted(db.table, job.id@, (db.encode)(job), job.last_run));
            let later = with_table(stored, touched(stored.table, job.id@, t));
            &&& run(
                SqliteUpsert::Encoding { id: job.id, last_run: job.last_run },
                SqliteWork::Encode(job),
                db,
                3,
            ) == Some((stored, Ok::<(), BackingError>(())))
            &&& recover(SqliteRecover::Acquiring, SqliteWork::<D>::Acquire, stored, (2 * db.scan.len() + 2) as nat)
                matches Some((_, items)) && exactly_one(items, job)
            &&& run(SqliteTouch::Acquiring { id: job.id, last_run: t }, SqliteWork::<D>::Acquire, stored, 2)
                == Some((later, Ok::<(), BackingError>(())))
            &&& recover(SqliteRecover::Acquiring, SqliteWork::<D>::Acquire, later, (2 * db.scan.len() + 2) as nat)
                matches Some((_, items)) && exactly_one(items, job)
        }),
{
    let stored = with_table(db, upserted(db.table, job.id@, (db.encode)(job), job.last_run));
    let later = with_table(stored, touched(stored.table, job.id@, t));
    lemma_upsert_stores(job, db);
    lemma_touch_records(job.id, t, stored);
    lemma_recover_reads_all(stored);
    lemma_recover_reads_all(later);
    assert((db.decode)((db.encode)(job)) == Some(job));
    assert forall|k: Seq<char>| #[trigger] stored.table.contains_key(k) implies ((stored.decode)(stored.table[k].data) matches Some(j) ==> j.id@ == k) by {
        if k != job.id@ {
            assert(db.table.contains_key(k));
        }
    }
    assert(later.table.dom() =~= stored.table.dom());
    assert forall|k: Seq<char>| #[trigger] later.table.contains_key(k) implies later.table[k].data == stored.table[k].data by {}
    assert(stored.table.contains_key(job.id@));
    let p = choose|i: int| 0 <= i < stored.scan.len() && stored.scan[i] == job.id@;
    lemma_rows_once(stored, job, p, 0);
    lemma_rows_once(later, job, p, 0);
}

/// Two upserts of jobs with the same id leave the table as the second one
/// alone does.
pub proof fn lemma_upsert_last_wins<D>(j1: ScheduledJob<D>, j2: ScheduledJob<D>, db: SqliteDb<D>)
    requires
        j1.id@ == j2.id@,
    ensures
        ({
            let first = with_table(db, upserted(db.table, j1.id@, (db.encode)(j1), j1.last_run));
            &&& run(SqliteUpsert::Encoding { id: j1.id, last_run: j1.last_run }, SqliteWork::Encode(j1), db, 3)
                == Some((first, Ok::<(), BackingError>(())))
            &&& run(SqliteUpsert::Encoding { id: j2.id, last_run: j2.last_run }, SqliteWork::Encode(j2), first, 3)
                == run(SqliteUpsert::Encoding { id: j2.id, last_run: j2.last_run }, SqliteWork::Encode(j2), db, 3)
        }),
{
    let first = with_table(db, upserted(db.table, j1.id@, (db.encode)(j1), j1.last_run));
    lemma_upsert_stores(j1, db);
    lemma_upsert_stores(j2, first);
    lemma_upsert_stores(j2, db);
    assert(upserted(first.table, j2.id@, (db.encode)(j2), j2.last_run) =~= upserted(db.table, j2.id@, (db.encode)(j2), j2.last_run));
}

/// A second removal of a job succeeds and changes nothing.
pub proof fn lemma_delete_twice<D>(id: String, db: SqliteDb<D>)
    ensures
        ({
            let once = with_table(db, db.table.remove(id@));
            &&& run(SqliteDelete::Acquiring { id }, SqliteWork::<D>::Acquire, db, 2) == Some((once, Ok::<(), BackingError>(())))
            &&& run(SqliteDelete::Acquiring { id }, SqliteWork::<D>::Acquire, once, 2) == Some((once, Ok::<(), BackingError>(())))
        }),
{
    let once = with_table(db, db.table.remove(id@));
    lemma_delete_removes(id, db);
    lemma_delete_removes(id, once);
    assert(once.table.remove(id@) =~= once.table);
}

/// Removing a job that upsert stored under a new id gives the table back as
/// it was; a recovery then hands out no job with that id.
pub proof fn lemma_delete_undoes_upsert<D>(job: ScheduledJob<D>, db: SqliteDb<D>)
    requires
        !db.table.contains_key(job.id@),
        scan_listed(db),
        ids_match_rows(db),
        db.cursor == 0,
    ensures
        ({
            let stored = with_table(db, upserted(db.table, job.id@, (db.encode)(job), job.last_run));
            &&& run(SqliteUpsert::Encoding { id: job.id, last_run: job.last_run }, SqliteWork::Encode(job), db, 3)
                == Some((stored, Ok::<(), BackingError>(())))
            &&& run(SqliteDelete::Acquiring { id: job.id }, SqliteWork::<D>::Acquire, stored, 2)
                == Some((db, Ok::<(), BackingError>(())))
            &&& recover(SqliteRecover::Acquiring, SqliteWork::<D>::Acquire, db, (2 * db.scan.len() + 2) as nat)
                matches Some((_, items)) && none_with(items, job.id@)
        }),
{
    let stored = with_table(db, upserted(db.table, job.id@, (db.encode)(job), job.last_run));
    lemma_upsert_stores(job, db);
    lemma_delete_removes(job.id, stored);
    assert(stored.table.remove(job.id@) =~= db.table);
    assert(with_table(stored, stored.table.remove(job.id@)) == db);
    lemma_recover_reads_all(db);
    lemma_rows_none(db, job.id@, 0);
}

/// The database `db`, except that fetching row `fail_at` fails once with
/// `failure`; after that failure the row is fetched again.  Every other call
/// succeeds.
#[verifier::reject_recursive_types(D)]
pub struct FlakySqliteDb<D> {
    pub db: SqliteDb<D>,
    pub fail_at: int,
    pub failure: SqliteFailure,
}

impl<D> World<SqliteWork<D>, SqliteOutcome<D>> for FlakySqliteDb<D> {
    open spec fn outcome(self, w: SqliteWork<D>) -> SqliteOutcome<D> {
        if w is NextRow && self.db.cursor == self.fail_at {
            SqliteOutcome::Failed(self.failure)
        } else {
            self.db.outcome(w)
        }
    }

    open spec fn after(self, w: SqliteWork<D>) -> Self {
        if w is NextRow && self.db.cursor == self.fail_at {
            FlakySqliteDb { fail_at: -1, ..self }
        } else {
            FlakySqliteDb { db: self.db.after(w), ..self }
        }
    }
}

/// The jobs decoded from the rows at positions `k` up to `end`, in order,
/// leaving out rows whose bytes hold no job.
pub open spec fn decoded_range<D>(db: SqliteDb<D>, k: int, end: int) -> Seq<Result<ScheduledJob<D>, BackingError>>
    decreases end - k,
{
    if k < 0 || k >= end || k >= db.scan.len() {
        Seq::empty()
    } else {
        match (db.decode)(db.table[db.scan[k]].data) {
            Some(job) => seq![Ok(job)] + decoded_range(db, k + 1, end),
            None => decoded_range(db, k + 1, end),
        }
    }
}

/// With no failure left, the flaky database hands out the decodable rows
/// from the cursor on.
proof fn lemma_flaky_healed<D>(base: SqliteDb<D>, failure: SqliteFailure, c: int)
    requires
        0 <= c <= base.scan.len(),
    ensures
        recover(
            SqliteRecover::Fetching,
            SqliteWork::<D>::NextRow,
            FlakySqliteDb { db: SqliteDb { cursor: c, ..base }, fail_at: -1, failure },
            (2 * (base.scan.len() - c) + 1) as nat,
        ) == Some((
            FlakySqliteDb { db: SqliteDb { cursor: base.scan.len() + 1int, ..base }, fail_at: -1, failure },
            decoded_rows(base, c),
        )),
    decreases base.scan.len() - c,
{
    reveal_with_fuel(recover, 3);
    if c < base.scan.len() {
        lemma_flaky_healed(base, failure, c + 1);
        lemma_rows_ignore_cursor(SqliteDb { cursor: c, ..base }, base, c);
    }
}

/// Fetching from row `c`, at or before the row `k` whose fetch fails once,
/// hands out the decodable rows before `k`, the failure as a recovery
/// error, then the decodable rows from `k` on.
proof fn lemma_flaky_from<D>(base: SqliteDb<D>, failure: SqliteFailure, k: int, c: int)
    requires
        0 <= c <= k < base.scan.len(),
    ensures
        recover(
            SqliteRecover::Fetching,
            SqliteWork::<D>::NextRow,
            FlakySqliteDb { db: SqliteDb { cursor: c, ..base }, fail_at: k, failure },
            (2 * (base.scan.len() - c) + 2) as nat,
        ) == Some((
            FlakySqliteDb { db: SqliteDb { cursor: base.scan.len() + 1int, ..base }, fail_at: -1, failure },
            decoded_range(base, c, k) + seq![
                Err::<ScheduledJob<D>, BackingError>(
                    BackingError::Recovery { message: failure.message, is_retryable: failure.retryable() },
                ),
            ] + decoded_rows(base, k),
        )),
    decreases k - c,
{
    reveal_with_fuel(recover, 3);
    let err = Err::<ScheduledJob<D>, BackingError>(
        BackingError::Recovery { message: failure.message, is_retryable: failure.retryable() },
    );
    if c == k {
        lemma_flaky_healed(base, failure, k);
        assert(decoded_range(base, c, k) =~= Seq::empty());
        assert(decoded_range(base, c, k) + seq![err] + decoded_rows(base, k) =~= seq![err] + decoded_rows(base, k));
    } else {
        lemma_flaky_from(base, failure, k, c + 1);
        let tail = decoded_range(base, c + 1, k) + seq![err] + decoded_rows(base, k);
        match (base.decode)(base.table[base.scan[c]].data) {
            Some(j) => {
                assert(decoded_range(base, c, k) + seq![err] + decoded_rows(base, k) =~= seq![Ok::<ScheduledJob<D>, BackingError>(j)] + tail);
            },
            None => {},
        }
    }
}

/// A failed row fetch does not end a recovery: over a database whose fetch
/// of row `k` fails once, a recovery hands out the jobs of the decodable
/// rows before `k`, then the failure as a recovery error with its message
/// and retryability, then the jobs of the decodable rows from `k` on,
/// fetched on the same query; it reads every row once.
pub proof fn lemma_recover_survives_failed_row<D>(db: SqliteDb<D>, failure: SqliteFailure, k: int)
    requires
        db.cursor == 0,
        0 <= k < db.scan.len(),
    ensures
        recover(
            SqliteRecover::Acquiring,
            SqliteWork::<D>::Acquire,
            FlakySqliteDb { db, fail_at: k, failure },
            (2 * db.scan.len() + 3) as nat,
        ) == Some((
            FlakySqliteDb { db: SqliteDb { cursor: db.scan.len() + 1int, ..db }, fail_at: -1, failure },
            decoded_range(db, 0, k) + seq![
                Err::<ScheduledJob<D>, BackingError>(
                    BackingError::Recovery { message: failure.message, is_retryable: failure.retryable() },
                ),
            ] + decoded_rows(db, k),
        )),
{
    reveal_with_fuel(recover, 2);
    assert(SqliteDb { cursor: 0, ..db } == db);
    lemma_flaky_from(db, failure, k, 0);
}

} // verus!
