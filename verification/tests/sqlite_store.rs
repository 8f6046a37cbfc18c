use std::collections::BTreeMap;

use scheduler_backing::error::BackingError;
use scheduler_backing::job::{ScheduledJob, Timestamp};
use scheduler_backing::machine::{Step, StreamStep};
use scheduler_backing::sqlite::{
    SqliteDelete, SqliteFailure, SqliteOutcome, SqliteRecover, SqliteTouch, SqliteUpsert,
    SqliteWork, SqlxErrorKind, DELETE_SQL, RECOVER_SQL, TOUCH_SQL, UPSERT_SQL,
};

type Job = ScheduledJob<String>;

fn encode(job: &Job) -> Vec<u8> {
    format!("{}|{}", job.id, job.details).into_bytes()
}

fn decode(bytes: &[u8]) -> Result<Job, String> {
    let text = String::from_utf8(bytes.to_vec()).map_err(|_| "not utf-8".to_string())?;
    let (id, details) = text.split_once('|').ok_or("not a job")?;
    Ok(ScheduledJob { id: id.to_string(), last_run: None, details: details.to_string() })
}

/// An in-memory table with an optional failure of one kind of work, and a
/// row position at which fetching fails once.
struct FakeSqlite {
    table: BTreeMap<String, (Vec<u8>, Option<Timestamp>)>,
    fail: Option<&'static str>,
    fail_row: Option<usize>,
    rows: Option<Vec<Vec<u8>>>,
    fetched: usize,
    statements: Vec<&'static str>,
}

impl FakeSqlite {
    fn new() -> Self {
        FakeSqlite { table: BTreeMap::new(), fail: None, fail_row: None, rows: None, fetched: 0, statements: Vec::new() }
    }

    fn failure(kind: SqlxErrorKind) -> SqliteOutcome<String> {
        SqliteOutcome::Failed(SqliteFailure { kind, message: "injected".to_string() })
    }

    fn perform(&mut self, w: SqliteWork<String>) -> SqliteOutcome<String> {
        if let Some(sql) = w.sql() {
            self.statements.push(sql);
        }
        let name = match &w {
            SqliteWork::Encode(_) => "encode",
            SqliteWork::Decode(_) => "decode",
            SqliteWork::Acquire => "acquire",
            SqliteWork::StoreJob { .. } => "store",
            SqliteWork::SetLastRun { .. } => "touch",
            SqliteWork::RemoveJob { .. } => "remove",
            SqliteWork::NextRow => "fetch",
        };
        if self.fail == Some(name) {
            return if name == "encode" {
                SqliteOutcome::CodecFailed("codec".to_string())
            } else {
                Self::failure(SqlxErrorKind::PoolTimedOut)
            };
        }
        match w {
            SqliteWork::Encode(job) => SqliteOutcome::Bytes(encode(&job)),
            SqliteWork::Decode(bytes) => match decode(&bytes) {
                Ok(job) => SqliteOutcome::Decoded(job),
                Err(m) => SqliteOutcome::CodecFailed(m),
            },
            SqliteWork::Acquire => SqliteOutcome::Done,
            SqliteWork::StoreJob { id, data, last_run } => {
                self.table.insert(id, (data, last_run));
                SqliteOutcome::Done
            }
            SqliteWork::SetLastRun { id, instant } => {
                if let Some(row) = self.table.get_mut(&id) {
                    row.1 = Some(instant);
                }
                SqliteOutcome::Done
            }
            SqliteWork::RemoveJob { id } => {
                self.table.remove(&id);
                SqliteOutcome::Done
            }
            SqliteWork::NextRow => {
                if self.rows.is_none() {
                    self.rows = Some(self.table.values().map(|r| r.0.clone()).collect());
                }
                if self.fail_row == Some(self.fetched) {
                    self.fail_row = None;
                    return Self::failure(SqlxErrorKind::Database { code: Some("5".to_string()) });
                }
                let rows = self.rows.as_ref().unwrap();
                if self.fetched < rows.len() {
                    self.fetched += 1;
                    SqliteOutcome::Row(rows[self.fetched - 1].clone())
                } else {
                    SqliteOutcome::NoMoreRows
                }
            }
        }
    }
}

fn finish<M, F>(db: &mut FakeSqlite, mut m: M, mut w: SqliteWork<String>, resume: F) -> Result<(), BackingError>
where
    F: Fn(M, SqliteOutcome<String>) -> (M, Step<SqliteWork<String>>),
{
    loop {
        let o = db.perform(w);
        let (next, step) = resume(m, o);
        m = next;
        match step {
            Step::Run(work) => w = work,
            Step::Finish(r) => return r,
        }
    }
}

fn upsert(db: &mut FakeSqlite, job: Job) -> Result<(), BackingError> {
    let (m, w) = SqliteUpsert::start(job);
    finish(db, m, w, |m: SqliteUpsert, o| {
        assert!(m.accepts_outcome(&o));
        m.resume(o)
    })
}

fn touch(db: &mut FakeSqlite, id: &str, t: Timestamp) -> Result<(), BackingError> {
    let (m, w) = SqliteTouch::start(id.to_string(), t);
    finish(db, m, w, |m: SqliteTouch, o| {
        assert!(m.accepts_outcome(&o));
        m.resume(o)
    })
}

fn delete(db: &mut FakeSqlite, id: &str) -> Result<(), BackingError> {
    let (m, w) = SqliteDelete::start(id.to_string());
    finish(db, m, w, |m: SqliteDelete, o| {
        assert!(m.accepts_outcome(&o));
        m.resume(o)
    })
}

fn recover(db: &mut FakeSqlite) -> Vec<Result<Job, BackingError>> {
    db.rows = None;
    db.fetched = 0;
    let (mut m, mut w) = SqliteRecover::start::<String>();
    let mut items = Vec::new();
    loop {
        let o = db.perform(w);
        assert!(m.accepts_outcome(&o));
        let (next, step) = m.resume(o);
        m = next;
        match step {
            StreamStep::Run(work) => w = work,
            StreamStep::Emit(item, more) => {
                items.push(item);
                match more {
                    Some(work) => w = work,
                    None => return items,
                }
            }
            StreamStep::End => return items,
        }
    }
}

fn rows(db: &FakeSqlite) -> Vec<(String, Vec<u8>, Option<(i64, u32)>)> {
    db.table.iter().map(|(k, (d, t))| (k.clone(), d.clone(), t.map(|t| (t.secs(), t.nanos())))).collect()
}

fn job(id: &str, details: &str, last_run: Option<Timestamp>) -> Job {
    ScheduledJob { id: id.to_string(), last_run, details: details.to_string() }
}

#[test]
fn sqlite_upsert_stores_bytes_and_last_run() {
    let mut db = FakeSqlite::new();
    let t = Timestamp::new(9, 1).unwrap();
    upsert(&mut db, job("a", "x", Some(t))).unwrap();
    let row = db.table.get("a").unwrap();
    assert_eq!(row.0, b"a|x".to_vec());
    assert_eq!(row.1.map(|t| (t.secs(), t.nanos())), Some((9, 1)));
    assert_eq!(db.statements, vec![UPSERT_SQL]);
}

#[test]
fn sqlite_upsert_replaces_an_existing_row() {
    let mut db = FakeSqlite::new();
    upsert(&mut db, job("a", "x", None)).unwrap();
    upsert(&mut db, job("a", "y", None)).unwrap();
    assert_eq!(db.table.len(), 1);
    assert_eq!(db.table.get("a").unwrap().0, b"a|y".to_vec());
}

#[test]
fn sqlite_touch_sets_only_the_last_run_column() {
    let mut db = FakeSqlite::new();
    upsert(&mut db, job("a", "x", None)).unwrap();
    touch(&mut db, "a", Timestamp::new(3, 0).unwrap()).unwrap();
    let row = db.table.get("a").unwrap();
    assert_eq!(row.0, b"a|x".to_vec());
    assert_eq!(row.1.map(|t| t.secs()), Some(3));
    assert_eq!(db.statements, vec![UPSERT_SQL, TOUCH_SQL]);
    let items = recover(&mut db);
    assert_eq!(items.len(), 1);
    assert!(items[0].as_ref().unwrap().last_run.is_none());
}

#[test]
fn sqlite_delete_removes_the_row() {
    let mut db = FakeSqlite::new();
    upsert(&mut db, job("a", "x", None)).unwrap();
    delete(&mut db, "a").unwrap();
    assert!(db.table.is_empty());
    assert_eq!(db.statements, vec![UPSERT_SQL, DELETE_SQL]);
}

#[test]
fn sqlite_recover_skips_undecodable_rows() {
    let mut db = FakeSqlite::new();
    upsert(&mut db, job("a", "1", None)).unwrap();
    db.table.insert("b".to_string(), (b"no separator".to_vec(), None));
    upsert(&mut db, job("c", "3", None)).unwrap();
    let ids: Vec<String> = recover(&mut db).into_iter().map(|r| r.unwrap().id).collect();
    assert_eq!(ids, vec!["a".to_string(), "c".to_string()]);
    assert!(db.statements.contains(&RECOVER_SQL));
}

#[test]
fn sqlite_recover_goes_on_after_a_failed_row() {
    let mut db = FakeSqlite::new();
    upsert(&mut db, job("a", "1", None)).unwrap();
    upsert(&mut db, job("b", "2", None)).unwrap();
    db.fail_row = Some(1);
    let items = recover(&mut db);
    assert_eq!(items.len(), 3);
    assert_eq!(items[0].as_ref().unwrap().id, "a");
    match &items[1] {
        Err(BackingError::Recovery { message, is_retryable }) => {
            assert_eq!(message, "injected");
            assert!(is_retryable);
        }
        other => panic!("unexpected {:?}", other),
    }
    assert_eq!(items[2].as_ref().unwrap().id, "b");
}

#[test]
fn sqlite_recover_reports_failed_acquire_and_ends() {
    let mut db = FakeSqlite::new();
    upsert(&mut db, job("a", "1", None)).unwrap();
    db.fail = Some("acquire");
    let items = recover(&mut db);
    assert_eq!(items.len(), 1);
    assert!(matches!(items[0], Err(BackingError::Recovery { is_retryable: true, .. })));
}

#[test]
fn sqlite_encode_failure_happens_before_connecting() {
    let mut db = FakeSqlite::new();
    db.fail = Some("encode");
    match upsert(&mut db, job("a", "1", None)) {
        Err(BackingError::Upsert { job_id, message, is_retryable }) => {
            assert_eq!(job_id, "a");
            assert_eq!(message, "codec");
            assert!(!is_retryable);
        }
        other => panic!("unexpected {:?}", other),
    }
}

#[test]
fn sqlite_acquire_failure_is_retryable_pool_timeout() {
    let mut db = FakeSqlite::new();
    db.fail = Some("acquire");
    assert!(matches!(
        touch(&mut db, "a", Timestamp::new(1, 0).unwrap()),
        Err(BackingError::Touch { is_retryable: true, .. })
    ));
    assert!(matches!(delete(&mut db, "a"), Err(BackingError::Delete { is_retryable: true, .. })));
}

#[test]
fn sqlite_statement_texts() {
    let w: SqliteWork<String> = SqliteWork::RemoveJob { id: "a".to_string() };
    assert_eq!(w.sql(), Some("DELETE FROM scheduled_jobs WHERE id=?1"));
    let w: SqliteWork<String> = SqliteWork::NextRow;
    assert_eq!(w.sql(), Some("SELECT data FROM scheduled_jobs"));
    let w: SqliteWork<String> = SqliteWork::Acquire;
    assert_eq!(w.sql(), None);
}

#[test]
fn sqlite_second_delete_changes_nothing() {
    let mut db = FakeSqlite::new();
    upsert(&mut db, job("a", "1", None)).unwrap();
    upsert(&mut db, job("b", "2", None)).unwrap();
    delete(&mut db, "a").unwrap();
    let once = rows(&db);
    assert!(delete(&mut db, "a").is_ok());
    assert_eq!(rows(&db), once);
}

#[test]
fn sqlite_delete_undoes_upsert_of_new_id() {
    let mut db = FakeSqlite::new();
    upsert(&mut db, job("b", "2", None)).unwrap();
    let before = rows(&db);
    upsert(&mut db, job("a", "1", None)).unwrap();
    delete(&mut db, "a").unwrap();
    assert_eq!(rows(&db), before);
    assert!(recover(&mut db).iter().all(|r| r.as_ref().unwrap().id != "a"));
}

#[test]
fn sqlite_job_recovered_once_after_upserts_and_touch() {
    let mut db = FakeSqlite::new();
    upsert(&mut db, job("a", "1", None)).unwrap();
    upsert(&mut db, job("a", "2", None)).unwrap();
    upsert(&mut db, job("b", "3", None)).unwrap();
    touch(&mut db, "a", Timestamp::new(4, 0).unwrap()).unwrap();
    let items: Vec<Job> = recover(&mut db).into_iter().map(|r| r.unwrap()).collect();
    let with_a: Vec<&Job> = items.iter().filter(|j| j.id == "a").collect();
    assert_eq!(with_a.len(), 1);
    assert_eq!(with_a[0].details, "2");
}
