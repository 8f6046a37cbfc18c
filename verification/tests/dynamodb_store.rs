use std::collections::BTreeMap;

use scheduler_backing::dynamodb::{
    item_data, AttrValue, DynamoFailure, DynamoItemRequest, DynamoOutcome, DynamoRecover,
    DynamoServiceError, DynamoUpsert, DynamoWork, SdkFailureKind, SetupStep, TableSetup,
    TableWork, DATA_KEY, PK_KEY,
};
use scheduler_backing::error::BackingError;
use scheduler_backing::job::{ScheduledJob, Timestamp};
use scheduler_backing::machine::{Step, StreamStep};

type Job = ScheduledJob<String>;
type Item = Vec<(String, AttrValue)>;

fn encode(job: &Job) -> String {
    format!("{}|{}", job.id, job.details)
}

fn decode(text: &str) -> Result<Job, String> {
    let (id, details) = text.split_once('|').ok_or("not a job")?;
    Ok(ScheduledJob { id: id.to_string(), last_run: None, details: details.to_string() })
}

#[derive(Default)]
struct FakeTable {
    items: BTreeMap<String, (Option<String>, Option<String>)>,
    pages: Vec<Vec<Item>>,
    scanned: usize,
    fail: Option<(&'static str, SdkFailureKind)>,
    scans: Vec<bool>,
}

impl FakeTable {
    fn perform(&mut self, w: DynamoWork<String>) -> DynamoOutcome<String> {
        let name = match &w {
            DynamoWork::Encode(_) => "encode",
            DynamoWork::Decode(_) => "decode",
            DynamoWork::PutItem { .. } => "put",
            DynamoWork::UpdateLastRun { .. } => "update",
            DynamoWork::DeleteItem { .. } => "delete",
            DynamoWork::Scan { .. } => "scan",
        };
        if let Some((f, kind)) = self.fail {
            if f == name {
                return DynamoOutcome::Failed(DynamoFailure { kind, message: "injected".to_string() });
            }
        }
        match w {
            DynamoWork::Encode(job) => DynamoOutcome::Text(encode(&job)),
            DynamoWork::Decode(text) => match decode(&text) {
                Ok(job) => DynamoOutcome::Decoded(job),
                Err(m) => DynamoOutcome::CodecFailed(m),
            },
            DynamoWork::PutItem { id, data } => {
                self.items.insert(id, (Some(data), None));
                DynamoOutcome::Done
            }
            DynamoWork::UpdateLastRun { id, last_run } => {
                let entry = self.items.entry(id).or_insert((None, None));
                entry.1 = Some(last_run);
                DynamoOutcome::Done
            }
            DynamoWork::DeleteItem { id } => {
                self.items.remove(&id);
                DynamoOutcome::Done
            }
            DynamoWork::Scan { from_last } => {
                self.scans.push(from_last);
                let k = if from_last { self.scanned } else { 0 };
                self.scanned = k + 1;
                DynamoOutcome::Page { items: self.pages[k].clone(), more: k + 1 < self.pages.len() }
            }
        }
    }

    /// Pages of at most `per_page` items, made from the stored items.
    fn paginate(&mut self, per_page: usize) {
        let all: Vec<Item> = self
            .items
            .iter()
            .map(|(id, (data, last_run))| {
                let mut item = vec![(PK_KEY.to_string(), AttrValue::S(id.clone()))];
                if let Some(d) = data {
                    item.push((DATA_KEY.to_string(), AttrValue::S(d.clone())));
                }
                if let Some(l) = last_run {
                    item.push(("last_run".to_string(), AttrValue::S(l.clone())));
                }
                item
            })
            .collect();
        self.pages = all.chunks(per_page).map(|c| c.to_vec()).collect();
        if self.pages.is_empty() {
            self.pages.push(Vec::new());
        }
    }
}

fn finish<M, F>(t: &mut FakeTable, mut m: M, mut w: DynamoWork<String>, resume: F) -> Result<(), BackingError>
where
    F: Fn(M, DynamoOutcome<String>) -> (M, Step<DynamoWork<String>>),
{
    loop {
        let o = t.perform(w);
        let (next, step) = resume(m, o);
        m = next;
        match step {
            Step::Run(work) => w = work,
            Step::Finish(r) => return r,
        }
    }
}

fn upsert(t: &mut FakeTable, job: Job) -> Result<(), BackingError> {
    let (m, w) = DynamoUpsert::start(job);
    finish(t, m, w, |m: DynamoUpsert, o| {
        assert!(m.accepts_outcome(&o));
        m.resume(o)
    })
}

fn touch(t: &mut FakeTable, id: &str, at: Timestamp) -> Result<(), BackingError> {
    let (m, w) = DynamoItemRequest::start_touch(id.to_string(), at);
    finish(t, m, w, |m: DynamoItemRequest, o| {
        assert!(m.accepts_outcome(&o));
        m.resume(o)
    })
}

fn delete(t: &mut FakeTable, id: &str) -> Result<(), BackingError> {
    let (m, w) = DynamoItemRequest::start_delete(id.to_string());
    finish(t, m, w, |m: DynamoItemRequest, o| {
        assert!(m.accepts_outcome(&o));
        m.resume(o)
    })
}

fn recover(t: &mut FakeTable) -> Vec<Result<Job, BackingError>> {
    let (mut m, mut w) = DynamoRecover::start::<String>();
    let mut items = Vec::new();
    loop {
        let o = t.perform(w);
        assert!(m.accepts_outcome(&o));
        let (next, step) = m.resume(o);
        m = next;
        match step {
            StreamStep::Run(work) => w = work,
            StreamStep::Emit(item, more) => {
                items.push(item);
                match more {
                    Some(work) => w = work,
                    None => return items,
                }
            }
            StreamStep::End => return items,
        }
    }
}

fn job(id: &str, details: &str) -> Job {
    ScheduledJob { id: id.to_string(), last_run: None, details: details.to_string() }
}

#[test]
fn dynamo_upsert_puts_item_with_data() {
    let mut t = FakeTable::default();
    upsert(&mut t, job("a", "1")).unwrap();
    assert_eq!(t.items.get("a"), Some(&(Some("a|1".to_string()), None)));
}

#[test]
fn dynamo_upsert_replaces_last_run() {
    let mut t = FakeTable::default();
    upsert(&mut t, job("a", "1")).unwrap();
    touch(&mut t, "a", Timestamp::new(0, 0).unwrap()).unwrap();
    upsert(&mut t, job("a", "2")).unwrap();
    assert_eq!(t.items.get("a"), Some(&(Some("a|2".to_string()), None)));
}

#[test]
fn dynamo_touch_writes_rfc3339_nanos() {
    let mut t = FakeTable::default();
    upsert(&mut t, job("a", "1")).unwrap();
    touch(&mut t, "a", Timestamp::new(1431648000, 5).unwrap()).unwrap();
    assert_eq!(
        t.items.get("a"),
        Some(&(Some("a|1".to_string()), Some("2015-05-15T00:00:00.000000005Z".to_string())))
    );
}

#[test]
fn dynamo_touch_of_missing_job_creates_item_without_data() {
    let mut t = FakeTable::default();
    touch(&mut t, "ghost", Timestamp::new(0, 0).unwrap()).unwrap();
    t.paginate(10);
    assert!(recover(&mut t).is_empty());
}

#[test]
fn dynamo_delete_removes_item() {
    let mut t = FakeTable::default();
    upsert(&mut t, job("a", "1")).unwrap();
    delete(&mut t, "a").unwrap();
    assert!(t.items.is_empty());
}

#[test]
fn dynamo_recover_reads_every_page() {
    let mut t = FakeTable::default();
    for (id, d) in [("a", "1"), ("b", "2"), ("c", "3"), ("d", "4"), ("e", "5")] {
        upsert(&mut t, job(id, d)).unwrap();
    }
    t.paginate(2);
    let ids: Vec<String> = recover(&mut t).into_iter().map(|r| r.unwrap().id).collect();
    assert_eq!(ids, vec!["a", "b", "c", "d", "e"]);
    assert_eq!(t.scans, vec![false, true, true]);
}

#[test]
fn dynamo_recover_skips_items_without_string_data() {
    let mut t = FakeTable::default();
    t.pages = vec![vec![
        vec![(PK_KEY.to_string(), AttrValue::S("x".to_string())), (DATA_KEY.to_string(), AttrValue::N)],
        vec![(PK_KEY.to_string(), AttrValue::S("y".to_string()))],
        vec![(DATA_KEY.to_string(), AttrValue::S("z|9".to_string())), (PK_KEY.to_string(), AttrValue::S("z".to_string()))],
    ]];
    let items = recover(&mut t);
    assert_eq!(items.len(), 1);
    assert_eq!(items[0].as_ref().unwrap().details, "9");
}

#[test]
fn dynamo_recover_stops_at_undecodable_data() {
    let mut t = FakeTable::default();
    t.pages = vec![
        vec![
            vec![(DATA_KEY.to_string(), AttrValue::S("a|1".to_string()))],
            vec![(DATA_KEY.to_string(), AttrValue::S("garbage".to_string()))],
            vec![(DATA_KEY.to_string(), AttrValue::S("c|3".to_string()))],
        ],
        vec![vec![(DATA_KEY.to_string(), AttrValue::S("d|4".to_string()))]],
    ];
    let items = recover(&mut t);
    assert_eq!(items.len(), 2);
    assert!(items[0].is_ok());
    assert!(matches!(items[1], Err(BackingError::Recovery { is_retryable: false, .. })));
    assert_eq!(t.scans, vec![false]);
}

#[test]
fn dynamo_recover_reports_throttled_scan_as_retryable() {
    let mut t = FakeTable::default();
    t.fail = Some(("scan", SdkFailureKind::ServiceError(DynamoServiceError::ProvisionedThroughputExceeded)));
    let items = recover(&mut t);
    assert_eq!(items.len(), 1);
    assert!(matches!(items[0], Err(BackingError::Recovery { is_retryable: true, .. })));
}

#[test]
fn dynamo_put_failure_is_upsert_error() {
    let mut t = FakeTable::default();
    t.fail = Some(("put", SdkFailureKind::ServiceError(DynamoServiceError::ConditionalCheckFailed)));
    match upsert(&mut t, job("a", "1")) {
        Err(BackingError::Upsert { job_id, message, is_retryable }) => {
            assert_eq!(job_id, "a");
            assert_eq!(message, "injected");
            assert!(!is_retryable);
        }
        other => panic!("unexpected {:?}", other),
    }
}

#[test]
fn dynamo_update_and_delete_failures_name_their_operation() {
    let mut t = FakeTable::default();
    t.fail = Some(("update", SdkFailureKind::TimeoutError));
    assert!(matches!(
        touch(&mut t, "a", Timestamp::new(0, 0).unwrap()),
        Err(BackingError::Touch { is_retryable: true, .. })
    ));
    t.fail = Some(("delete", SdkFailureKind::DispatchFailure { is_timeout: false, is_io: false }));
    assert!(matches!(delete(&mut t, "a"), Err(BackingError::Delete { is_retryable: false, .. })));
}

#[test]
fn dynamo_item_data_reads_only_string_data() {
    let item: Item = vec![
        (PK_KEY.to_string(), AttrValue::S("a".to_string())),
        (DATA_KEY.to_string(), AttrValue::S("text".to_string())),
    ];
    assert_eq!(item_data(&item), Some("text".to_string()));
    let item: Item = vec![(DATA_KEY.to_string(), AttrValue::Bool)];
    assert_eq!(item_data(&item), None);
    assert_eq!(item_data(&Vec::new()), None);
}

#[test]
fn table_setup_deletes_then_creates_whatever_the_delete_gave() {
    let (s, w) = TableSetup::start();
    assert_eq!(w, TableWork::DeleteTable);
    let failed = DynamoFailure { kind: SdkFailureKind::ResponseError, message: "no table".to_string() };
    let (s, step) = s.resume(Err(failed));
    assert!(matches!(step, SetupStep::Run(TableWork::CreateTable)));
    let (_, step) = s.resume(Ok(()));
    assert!(matches!(step, SetupStep::Finish(Ok(()))));
}

#[test]
fn table_setup_reports_a_failed_create() {
    let (s, _) = TableSetup::start();
    let (s, _) = s.resume(Ok(()));
    let failed = DynamoFailure { kind: SdkFailureKind::ConstructionFailure, message: "bad".to_string() };
    match s.resume(Err(failed)).1 {
        SetupStep::Finish(Err(f)) => assert_eq!(f.message, "bad"),
        other => panic!("unexpected {:?}", other),
    }
}

#[test]
fn dynamo_touch_at_given_text_updates_last_run() {
    let (m, w) = DynamoItemRequest::start_touch_at::<String>("a".to_string(), "then".to_string());
    match &w {
        DynamoWork::UpdateLastRun { id, last_run } => {
            assert_eq!(id, "a");
            assert_eq!(last_run, "then");
        }
        other => panic!("unexpected {:?}", other),
    }
    let mut t = FakeTable::default();
    let outcome = t.perform(w);
    assert!(m.accepts_outcome(&outcome));
    assert!(matches!(m.resume(outcome).1, Step::Finish(Ok(()))));
    assert_eq!(t.items.get("a"), Some(&(None, Some("then".to_string()))));
}

#[test]
fn dynamo_second_delete_changes_nothing() {
    let mut t = FakeTable::default();
    upsert(&mut t, job("a", "1")).unwrap();
    upsert(&mut t, job("b", "2")).unwrap();
    delete(&mut t, "a").unwrap();
    let once = t.items.clone();
    assert!(delete(&mut t, "a").is_ok());
    assert_eq!(t.items, once);
}

#[test]
fn dynamo_delete_undoes_upsert_of_new_id() {
    let mut t = FakeTable::default();
    upsert(&mut t, job("b", "2")).unwrap();
    let before = t.items.clone();
    upsert(&mut t, job("a", "1")).unwrap();
    delete(&mut t, "a").unwrap();
    assert_eq!(t.items, before);
    t.paginate(1);
    assert!(recover(&mut t).iter().all(|r| r.as_ref().unwrap().id != "a"));
}

#[test]
fn dynamo_job_recovered_once_after_upserts_and_touch() {
    let mut t = FakeTable::default();
    upsert(&mut t, job("a", "1")).unwrap();
    upsert(&mut t, job("a", "2")).unwrap();
    upsert(&mut t, job("b", "3")).unwrap();
    touch(&mut t, "a", Timestamp::new(4, 0).unwrap()).unwrap();
    t.paginate(1);
    let items: Vec<Job> = recover(&mut t).into_iter().map(|r| r.unwrap()).collect();
    let with_a: Vec<&Job> = items.iter().filter(|j| j.id == "a").collect();
    assert_eq!(with_a.len(), 1);
    assert_eq!(with_a[0].details, "2");
}
