use std::collections::BTreeMap;

use scheduler_backing::error::BackingError;
use scheduler_backing::job::{ScheduledJob, Timestamp};
use scheduler_backing::machine::{Step, StreamStep};
use scheduler_backing::redis::{
    RedisDelete, RedisErrorKind, RedisFailure, RedisOutcome, RedisRecover, RedisTouch, RedisUpsert,
    RedisWork,
};

type Job = ScheduledJob<String>;

fn encode(job: &Job) -> String {
    let last = match job.last_run {
        Some(t) => format!("{}.{}", t.secs(), t.nanos()),
        None => "-".to_string(),
    };
    format!("{}\n{}\n{}", job.id, last, job.details)
}

fn decode(text: &str) -> Result<Job, String> {
    let parts: Vec<&str> = text.split('\n').collect();
    if parts.len() != 3 {
        return Err("not a job".to_string());
    }
    let last_run = if parts[1] == "-" {
        None
    } else {
        let (s, n) = parts[1].split_once('.').ok_or("bad instant")?;
        Some(Timestamp::new(s.parse().map_err(|_| "bad secs")?, n.parse().map_err(|_| "bad nanos")?).ok_or("range")?)
    };
    Ok(ScheduledJob { id: parts[0].to_string(), last_run, details: parts[2].to_string() })
}

/// An in-memory Redis server with an optional failure of one kind of work.
struct FakeRedis {
    db: BTreeMap<String, String>,
    fail: Option<(&'static str, RedisErrorKind)>,
    log: Vec<String>,
}

impl FakeRedis {
    fn new() -> Self {
        FakeRedis { db: BTreeMap::new(), fail: None, log: Vec::new() }
    }

    fn failure(kind: RedisErrorKind) -> RedisOutcome<String> {
        RedisOutcome::Failed(RedisFailure {
            kind,
            is_timeout: false,
            is_connection_dropped: false,
            message: "injected".to_string(),
        })
    }

    fn perform(&mut self, w: RedisWork<String>) -> RedisOutcome<String> {
        let name = match &w {
            RedisWork::Connect => "connect",
            RedisWork::Encode(_) => "encode",
            RedisWork::Decode(_) => "decode",
            RedisWork::Put { .. } => "set",
            RedisWork::Get { .. } => "get",
            RedisWork::Del { .. } => "del",
            RedisWork::ListKeys => "keys",
        };
        self.log.push(name.to_string());
        if let Some((f, kind)) = self.fail {
            if f == name {
                return if name == "encode" || name == "decode" {
                    RedisOutcome::CodecFailed("codec".to_string())
                } else {
                    Self::failure(kind)
                };
            }
        }
        match w {
            RedisWork::Connect => RedisOutcome::Done,
            RedisWork::Encode(job) => RedisOutcome::Text(encode(&job)),
            RedisWork::Decode(text) => match decode(&text) {
                Ok(job) => RedisOutcome::Decoded(job),
                Err(m) => RedisOutcome::CodecFailed(m),
            },
            RedisWork::Put { key, value } => {
                self.db.insert(key, value);
                RedisOutcome::Done
            }
            RedisWork::Get { key } => match self.db.get(&key) {
                Some(v) => RedisOutcome::Text(v.clone()),
                None => Self::failure(RedisErrorKind::TypeError),
            },
            RedisWork::Del { key } => {
                self.db.remove(&key);
                RedisOutcome::Done
            }
            RedisWork::ListKeys => RedisOutcome::Keys(self.db.keys().cloned().collect()),
        }
    }
}

fn upsert(server: &mut FakeRedis, job: Job) -> Result<(), BackingError> {
    let (mut m, mut w) = RedisUpsert::start(job);
    loop {
        let o = server.perform(w);
        assert!(m.accepts_outcome(&o));
        let (next, step) = m.resume(o);
        m = next;
        match step {
            Step::Run(work) => w = work,
            Step::Finish(r) => return r,
        }
    }
}

fn touch(server: &mut FakeRedis, id: &str, t: Timestamp) -> Result<(), BackingError> {
    let (mut m, mut w) = RedisTouch::start::<String>(id.to_string(), t);
    loop {
        let o = server.perform(w);
        assert!(m.accepts_outcome(&o));
        let (next, step) = m.resume(o);
        m = next;
        match step {
            Step::Run(work) => w = work,
            Step::Finish(r) => return r,
        }
    }
}

fn delete(server: &mut FakeRedis, id: &str) -> Result<(), BackingError> {
    let (mut m, mut w) = RedisDelete::start::<String>(id.to_string());
    loop {
        let o = server.perform(w);
        assert!(m.accepts_outcome(&o));
        let (next, step) = m.resume(o);
        m = next;
        match step {
            Step::Run(work) => w = work,
            Step::Finish(r) => return r,
        }
    }
}

fn recover(server: &mut FakeRedis) -> Vec<Result<Job, BackingError>> {
    let (mut m, mut w) = RedisRecover::start::<String>();
    let mut items = Vec::new();
    loop {
        let o = server.perform(w);
        assert!(m.accepts_outcome(&o));
        let (next, step) = m.resume(o);
        m = next;
        match step {
            StreamStep::Run(work) => w = work,
            StreamStep::Emit(item, more) => {
                items.push(item);
                match more {
                    Some(work) => w = work,
                    None => return items,
                }
            }
            StreamStep::End => return items,
        }
    }
}

fn job(id: &str, details: &str) -> Job {
    ScheduledJob { id: id.to_string(), last_run: None, details: details.to_string() }
}

#[test]
fn redis_upsert_sets_the_encoded_job_under_its_id() {
    let mut server = FakeRedis::new();
    assert!(upsert(&mut server, job("a", "payload")).is_ok());
    assert_eq!(server.db.get("a").unwrap(), "a\n-\npayload");
    assert_eq!(server.log, vec!["connect", "encode", "set"]);
}

#[test]
fn redis_upsert_then_recover_returns_the_job() {
    let mut server = FakeRedis::new();
    upsert(&mut server, job("a", "1")).unwrap();
    upsert(&mut server, job("b", "2")).unwrap();
    let items = recover(&mut server);
    let jobs: Vec<(String, String)> =
        items.into_iter().map(|r| r.unwrap()).map(|j| (j.id, j.details)).collect();
    assert_eq!(jobs, vec![("a".to_string(), "1".to_string()), ("b".to_string(), "2".to_string())]);
}

#[test]
fn redis_touch_sets_last_run_in_the_stored_job() {
    let mut server = FakeRedis::new();
    upsert(&mut server, job("a", "1")).unwrap();
    let t = Timestamp::new(100, 7).unwrap();
    touch(&mut server, "a", t).unwrap();
    let items = recover(&mut server);
    assert_eq!(items.len(), 1);
    let j = items.into_iter().next().unwrap().unwrap();
    let lr = j.last_run.unwrap();
    assert_eq!((lr.secs(), lr.nanos()), (100, 7));
    assert_eq!(j.details, "1");
}

#[test]
fn redis_touch_writes_under_the_decoded_jobs_id() {
    let mut server = FakeRedis::new();
    server.db.insert("alias".to_string(), "real\n-\nx".to_string());
    touch(&mut server, "alias", Timestamp::new(5, 0).unwrap()).unwrap();
    assert_eq!(server.db.get("real").unwrap(), "real\n5.0\nx");
    assert_eq!(server.db.get("alias").unwrap(), "real\n-\nx");
}

#[test]
fn redis_touch_of_missing_job_fails_with_touch_error() {
    let mut server = FakeRedis::new();
    match touch(&mut server, "nope", Timestamp::new(1, 0).unwrap()) {
        Err(BackingError::Touch { job_id, is_retryable, .. }) => {
            assert_eq!(job_id, "nope");
            assert!(!is_retryable);
        }
        other => panic!("unexpected {:?}", other),
    }
}

#[test]
fn redis_touch_of_undecodable_job_is_not_retryable() {
    let mut server = FakeRedis::new();
    server.db.insert("a".to_string(), "garbage".to_string());
    match touch(&mut server, "a", Timestamp::new(1, 0).unwrap()) {
        Err(BackingError::Touch { job_id, message, is_retryable }) => {
            assert_eq!(job_id, "a");
            assert_eq!(message, "not a job");
            assert!(!is_retryable);
        }
        other => panic!("unexpected {:?}", other),
    }
}

#[test]
fn redis_delete_removes_the_key() {
    let mut server = FakeRedis::new();
    upsert(&mut server, job("a", "1")).unwrap();
    delete(&mut server, "a").unwrap();
    assert!(server.db.is_empty());
    assert!(recover(&mut server).is_empty());
}

#[test]
fn redis_connect_failure_is_reported_with_retryability() {
    let mut server = FakeRedis::new();
    server.fail = Some(("connect", RedisErrorKind::TryAgain));
    match upsert(&mut server, job("a", "1")) {
        Err(BackingError::Upsert { job_id, message, is_retryable }) => {
            assert_eq!(job_id, "a");
            assert_eq!(message, "injected");
            assert!(is_retryable);
        }
        other => panic!("unexpected {:?}", other),
    }
    assert_eq!(server.log, vec!["connect"]);
}

#[test]
fn redis_encode_failure_is_not_retryable() {
    let mut server = FakeRedis::new();
    server.fail = Some(("encode", RedisErrorKind::TryAgain));
    match upsert(&mut server, job("a", "1")) {
        Err(BackingError::Upsert { is_retryable, message, .. }) => {
            assert!(!is_retryable);
            assert_eq!(message, "codec");
        }
        other => panic!("unexpected {:?}", other),
    }
    assert!(server.db.is_empty());
}

#[test]
fn redis_set_failure_is_an_upsert_error() {
    let mut server = FakeRedis::new();
    server.fail = Some(("set", RedisErrorKind::ResponseError));
    assert!(matches!(
        upsert(&mut server, job("a", "1")),
        Err(BackingError::Upsert { is_retryable: false, .. })
    ));
}

#[test]
fn redis_delete_failure_is_a_delete_error() {
    let mut server = FakeRedis::new();
    server.fail = Some(("del", RedisErrorKind::BusyLoadingError));
    match delete(&mut server, "a") {
        Err(BackingError::Delete { job_id, is_retryable, .. }) => {
            assert_eq!(job_id, "a");
            assert!(is_retryable);
        }
        other => panic!("unexpected {:?}", other),
    }
}

#[test]
fn redis_recover_stops_at_the_first_bad_job() {
    let mut server = FakeRedis::new();
    upsert(&mut server, job("a", "1")).unwrap();
    server.db.insert("b".to_string(), "garbage".to_string());
    upsert(&mut server, job("c", "3")).unwrap();
    let items = recover(&mut server);
    assert_eq!(items.len(), 2);
    assert_eq!(items[0].as_ref().unwrap().id, "a");
    match &items[1] {
        Err(BackingError::Recovery { message, is_retryable }) => {
            assert_eq!(message, "not a job");
            assert!(!is_retryable);
        }
        other => panic!("unexpected {:?}", other),
    }
}

#[test]
fn redis_recover_reports_a_failed_listing() {
    let mut server = FakeRedis::new();
    server.fail = Some(("keys", RedisErrorKind::TryAgain));
    let items = recover(&mut server);
    assert_eq!(items.len(), 1);
    assert!(matches!(items[0], Err(BackingError::Recovery { is_retryable: true, .. })));
}

#[test]
fn redis_recover_of_empty_store_is_empty() {
    let mut server = FakeRedis::new();
    assert!(recover(&mut server).is_empty());
    assert_eq!(server.log, vec!["connect", "keys"]);
}

#[test]
fn redis_second_upsert_of_an_id_wins() {
    let mut server = FakeRedis::new();
    upsert(&mut server, job("a", "first")).unwrap();
    upsert(&mut server, job("a", "second")).unwrap();
    let items = recover(&mut server);
    assert_eq!(items.len(), 1);
    assert_eq!(items[0].as_ref().unwrap().details, "second");
}

#[test]
fn redis_second_delete_changes_nothing() {
    let mut server = FakeRedis::new();
    upsert(&mut server, job("a", "1")).unwrap();
    upsert(&mut server, job("b", "2")).unwrap();
    delete(&mut server, "a").unwrap();
    let once = server.db.clone();
    assert!(delete(&mut server, "a").is_ok());
    assert_eq!(server.db, once);
}

#[test]
fn redis_delete_undoes_upsert_of_new_id() {
    let mut server = FakeRedis::new();
    upsert(&mut server, job("b", "2")).unwrap();
    let before = server.db.clone();
    upsert(&mut server, job("a", "1")).unwrap();
    delete(&mut server, "a").unwrap();
    assert_eq!(server.db, before);
    assert!(recover(&mut server).iter().all(|r| r.as_ref().unwrap().id != "a"));
}

#[test]
fn redis_touch_leaves_other_keys_alone() {
    let mut server = FakeRedis::new();
    upsert(&mut server, job("a", "1")).unwrap();
    upsert(&mut server, job("b", "2")).unwrap();
    let b_before = server.db.get("b").cloned();
    touch(&mut server, "a", Timestamp::new(3, 0).unwrap()).unwrap();
    assert_eq!(server.db.get("b").cloned(), b_before);
    assert_eq!(server.db.len(), 2);
    touch(&mut server, "missing", Timestamp::new(3, 0).unwrap()).unwrap_err();
    assert_eq!(server.db.len(), 2);
}
