//! The DynamoDB backing store.
//!
//! Each job is an item of the store's table, keyed by the job's id, with the
//! job's encoded text under `data` and, once the job has run, the instant of
//! its last run under `last_run`.  Recovery scans the table page by page and
//! decodes the `data` of every item that has text there.
use vstd::prelude::*;
use vstd::pervasive::unreached;
use crate::error::{BackingError, Operation, job_error, job_failure};
use crate::job::{ScheduledJob, Timestamp, rfc3339_nanos_utc};
use crate::machine::{Step, StreamStep};

verus! {

/// The attribute that holds an item's key, the job's id.
pub const PK_KEY: &'static str = "scheduled_job_id";

/// The attribute that holds the job's encoded text.
pub const DATA_KEY: &'static str = "data";

/// The attribute that holds the instant of the job's last run.
pub const LAST_RUN_KEY: &'static str = "last_run";

/// The name placeholder that stands for `LAST_RUN_KEY` in `TOUCH_EXPRESSION`.
pub const LAST_RUN_NAME: &'static str = "#s";

/// The value placeholder that stands for the new last run in
/// `TOUCH_EXPRESSION`.
pub const LAST_RUN_VALUE: &'static str = ":lr";

/// The update expression that records a job's last run.
pub const TOUCH_EXPRESSION: &'static str = "SET #s = :lr";

/// The most items that one scan of the table asks for.
pub const SCAN_LIMIT: i32 = 10_000i32;

/// The region name that selects a local DynamoDB.
pub const LOCAL_REGION: &'static str = "localhost";

/// The endpoint of a local DynamoDB, on its default port.
pub const LOCAL_ENDPOINT: &'static str = "http://localhost:8000";

/// The endpoint to use for `region`: a local DynamoDB for `LOCAL_REGION`, and
/// otherwise the one that the shared configuration names.  A store with the
/// local endpoint also has its table set up afresh (see `TableSetup`).
pub fn endpoint_for_region(region: &String) -> (endpoint: Option<&'static str>)
    ensures
        endpoint is Some <==> region@ == LOCAL_REGION@,
        endpoint is Some ==> endpoint == Some(LOCAL_ENDPOINT),
{
    let local = String::from_str(LOCAL_REGION);
    if *region == local {
        Some(LOCAL_ENDPOINT)
    } else {
        None
    }
}

/// How a store for a region is set up: the endpoint it talks to, when not
/// the one that the shared configuration names, and whether its table is
/// deleted and created afresh (see `TableSetup`) before first use.
#[derive(Debug, Clone, Copy)]
pub struct RegionSetup {
    pub endpoint: Option<&'static str>,
    pub recreate_table: bool,
}

/// The setup of a store for `region`: a store for `LOCAL_REGION` talks to a
/// local DynamoDB and starts from a fresh table; any other store talks to the
/// configured endpoint and keeps its table, and so the jobs in it.
pub fn setup_for_region(region: &String) -> (s: RegionSetup)
    ensures
        s.recreate_table <==> region@ == LOCAL_REGION@,
        s.endpoint == (if region@ == LOCAL_REGION@ {
            Some(LOCAL_ENDPOINT)
        } else {
            None::<&'static str>
        }),
{
    let endpoint = endpoint_for_region(region);
    RegionSetup { endpoint, recreate_table: endpoint.is_some() }
}

/// The error kinds that DynamoDB reports for the item requests and scans of
/// the store (the variants of `PutItemErrorKind`, `UpdateItemErrorKind`,
/// `DeleteItemErrorKind` and `ScanErrorKind`).
#[derive(PartialEq, Eq, Structural, Clone, Copy, Debug)]
pub enum DynamoServiceError {
    ConditionalCheckFailed,
    InternalServerError,
    InvalidEndpoint,
    ItemCollectionSizeLimitExceeded,
    ProvisionedThroughputExceeded,
    RequestLimitExceeded,
    ResourceNotFound,
    TransactionConflict,
    Unhandled,
}

/// The variants of the SDK's `SdkError`, with what the store reads of each:
/// whether a dispatch failure is a timeout or an I/O error, and the service's
/// error kind.
#[derive(PartialEq, Eq, Structural, Clone, Copy, Debug)]
pub enum SdkFailureKind {
    ConstructionFailure,
    TimeoutError,
    DispatchFailure { is_timeout: bool, is_io: bool },
    ResponseError,
    ServiceError(DynamoServiceError),
}

/// A failed DynamoDB request, as the store sees it: the error and its
/// message.
#[derive(Clone, Debug)]
pub struct DynamoFailure {
    pub kind: SdkFailureKind,
    pub message: String,
}

impl DynamoFailure {
    /// Whether a failure of the SDK is worth retrying, whatever the request:
    /// a timeout, a bad response, or a dispatch failure that timed out or
    /// failed on I/O.
    pub open spec fn sdk_retryable(self) -> bool {
        match self.kind {
            SdkFailureKind::TimeoutError | SdkFailureKind::ResponseError => true,
            SdkFailureKind::DispatchFailure { is_timeout, is_io } => is_timeout || is_io,
            _ => false,
        }
    }

    /// Whether a failed item request or scan is worth retrying: the service
    /// reports exceeded throughput or request limits, or the SDK failure is
    /// retryable.
    pub open spec fn retryable(self) -> bool {
        match self.kind {
            SdkFailureKind::ServiceError(s) => s == DynamoServiceError::ProvisionedThroughputExceeded
                || s == DynamoServiceError::RequestLimitExceeded,
            _ => self.sdk_retryable(),
        }
    }
}

/// What makes a failed item request or scan worth retrying, by the kind of
/// failure: a timeout or a bad response always; a dispatch failure exactly
/// when it timed out or failed on I/O; a failure to build the request never;
/// a service error exactly when it reports exceeded throughput or request
/// limits.  Outside service errors, a request is retryable exactly when the
/// same failure is retryable for the SDK as a whole.
pub proof fn lemma_request_retry_rule(f: DynamoFailure)
    ensures
        !(f.kind is ServiceError) ==> f.retryable() == f.sdk_retryable(),
        f.kind matches SdkFailureKind::DispatchFailure { is_timeout, is_io } ==> (f.retryable() <==> is_timeout || is_io),
        f.kind is TimeoutError || f.kind is ResponseError ==> f.retryable(),
        f.kind is ConstructionFailure ==> !f.retryable(),
        f.kind matches SdkFailureKind::ServiceError(s) ==> (f.retryable() <==> s
            == DynamoServiceError::ProvisionedThroughputExceeded || s == DynamoServiceError::RequestLimitExceeded),
{
}

/// Whether a failure of the SDK is worth retrying, whatever the request.
pub fn is_retryable(e: &DynamoFailure) -> (r: bool)
    ensures
        r == e.sdk_retryable(),
        e.kind matches SdkFailureKind::DispatchFailure { is_timeout, is_io } ==> (r <==> is_timeout || is_io),
        e.kind is TimeoutError || e.kind is ResponseError ==> r,
        e.kind is ConstructionFailure || e.kind is ServiceError ==> !r,
{
    match e.kind {
        SdkFailureKind::TimeoutError | SdkFailureKind::ResponseError => true,
        SdkFailureKind::DispatchFailure { is_timeout, is_io } => is_timeout || is_io,
        _ => false,
    }
}

/// Whether a failed item request or scan is worth retrying.
pub fn is_retryable_request(e: &DynamoFailure) -> (r: bool)
    ensures
        r == e.retryable(),
        !(e.kind is ServiceError) ==> r == e.sdk_retryable(),
        e.kind matches SdkFailureKind::DispatchFailure { is_timeout, is_io } ==> (r <==> is_timeout || is_io),
        e.kind is TimeoutError || e.kind is ResponseError ==> r,
        e.kind is ConstructionFailure ==> !r,
        e.kind matches SdkFailureKind::ServiceError(s) ==> (r <==> s == DynamoServiceError::ProvisionedThroughputExceeded
            || s == DynamoServiceError::RequestLimitExceeded),
{
    match e.kind {
        SdkFailureKind::ServiceError(s) => match s {
            DynamoServiceError::ProvisionedThroughputExceeded
            | DynamoServiceError::RequestLimitExceeded => true,
            _ => false,
        },
        _ => is_retryable(e),
    }
}

/// The kinds of DynamoDB attribute value; the store reads only strings.
#[derive(Clone, Debug)]
pub enum AttrValue {
    B,
    Bool,
    Bs,
    L,
    M,
    N,
    Ns,
    Null,
    S(String),
    Ss,
    Unknown,
}

/// The text of an item's `DATA_KEY` attribute, when that attribute holds a
/// string.  An item names each attribute once.
pub open spec fn data_of(attrs: Seq<(String, AttrValue)>) -> Option<String>
    decreases attrs.len(),
{
    if attrs.len() == 0 {
        None
    } else if attrs[0].0@ == DATA_KEY@ {
        match attrs[0].1 {
            AttrValue::S(text) => Some(text),
            _ => None,
        }
    } else {
        data_of(attrs.drop_first())
    }
}

/// The string of an item's `PK_KEY` attribute, the id of its job, when
/// that attribute holds a string.
pub open spec fn key_of(attrs: Seq<(String, AttrValue)>) -> Option<String>
    decreases attrs.len(),
{
    if attrs.len() == 0 {
        None
    } else if attrs[0].0@ == PK_KEY@ {
        match attrs[0].1 {
            AttrValue::S(text) => Some(text),
            _ => None,
        }
    } else {
        key_of(attrs.drop_first())
    }
}

/// The attribute at position `i` is the item's only one named `name`.
pub open spec fn only_named(attrs: Seq<(String, AttrValue)>, name: Seq<char>, i: int) -> bool {
    &&& 0 <= i < attrs.len()
    &&& attrs[i].0@ == name
    &&& forall|j: int| 0 <= j < attrs.len() && j != i ==> (#[trigger] attrs[j]).0@ != name
}

/// The data of an item is looked up by name: when the item names `DATA_KEY`
/// once, its data is that attribute's string, if it holds one, wherever the
/// attribute stands and whatever other attributes (such as the last run)
/// the item has; when the item does not name `DATA_KEY`, it has no data.
pub proof fn lemma_data_by_name(attrs: Seq<(String, AttrValue)>, i: int)
    ensures
        only_named(attrs, DATA_KEY@, i) ==> data_of(attrs) == match attrs[i].1 {
            AttrValue::S(text) => Some(text),
            _ => None::<String>,
        },
        (forall|j: int| 0 <= j < attrs.len() ==> (#[trigger] attrs[j]).0@ != DATA_KEY@) ==> data_of(attrs) is None,
    decreases attrs.len(),
{
    if attrs.len() > 0 {
        let rest = attrs.drop_first();
        if only_named(attrs, DATA_KEY@, i) && i > 0 {
            assert(attrs[0].0@ != DATA_KEY@);
            assert(rest[i - 1] == attrs[i]);
            assert forall|j: int| 0 <= j < rest.len() && j != i - 1 implies (#[trigger] rest[j]).0@ != DATA_KEY@ by {
                assert(rest[j] == attrs[j + 1]);
            }
            lemma_data_by_name(rest, i - 1);
        }
        if forall|j: int| 0 <= j < attrs.len() ==> (#[trigger] attrs[j]).0@ != DATA_KEY@ {
            assert(attrs[0].0@ != DATA_KEY@);
            assert forall|j: int| 0 <= j < rest.len() implies (#[trigger] rest[j]).0@ != DATA_KEY@ by {
                assert(rest[j] == attrs[j + 1]);
            }
            lemma_data_by_name(rest, 0);
        }
    }
}

/// The text of an item's `DATA_KEY` attribute, when it holds a string.
pub fn item_data(attrs: &Vec<(String, AttrValue)>) -> (data: Option<String>)
    ensures
        data == data_of(attrs@),
        forall|i: int| #[trigger] only_named(attrs@, DATA_KEY@, i) ==> data == match attrs@[i].1 {
            AttrValue::S(text) => Some(text),
            _ => None::<String>,
        },
        (forall|j: int| 0 <= j < attrs@.len() ==> (#[trigger] attrs@[j]).0@ != DATA_KEY@) ==> data is None,
{
    proof {
        assert forall|i: int| #[trigger] only_named(attrs@, DATA_KEY@, i) implies data_of(attrs@) == match attrs@[i].1 {
            AttrValue::S(text) => Some(text),
            _ => None::<String>,
        } by {
            lemma_data_by_name(attrs@, i);
        }
        lemma_data_by_name(attrs@, 0);
    }
    let key = String::from_str(DATA_KEY);
    let mut i: usize = 0;
    assert(attrs@.subrange(0, attrs@.len() as int) =~= attrs@);
    while i < attrs.len()
        invariant
            i <= attrs@.len(),
            key@ == DATA_KEY@,
            data_of(attrs@) == data_of(attrs@.subrange(i as int, attrs@.len() as int)),
        decreases attrs@.len() - i,
    {
        proof {
            assert(attrs@.subrange(i as int, attrs@.len() as int).drop_first() =~= attrs@.subrange(
                i + 1,
                attrs@.len() as int,
            ));
        }
        if attrs[i].0 == key {
            return match &attrs[i].1 {
                AttrValue::S(text) => Some(text.clone()),
                _ => None,
            };
        }
        i = i + 1;
    }
    None
}

/// A piece of outside work that a DynamoDB operation asks for.
#[derive(Debug)]
pub enum DynamoWork<D> {
    /// Encode the job as the text that the store keeps.
    Encode(ScheduledJob<D>),
    /// Decode a job from the text that the store keeps.
    Decode(String),
    /// Put the item with `PK_KEY` set to the string `id` and `DATA_KEY` to
    /// the string `data`, replacing any item with that key.
    PutItem { id: String, data: String },
    /// Update the item whose `PK_KEY` is the string `id` with
    /// `TOUCH_EXPRESSION`, where `LAST_RUN_NAME` names `LAST_RUN_KEY` and
    /// `LAST_RUN_VALUE` is the string `last_run`.
    UpdateLastRun { id: String, last_run: String },
    /// Delete the item whose `PK_KEY` is the string `id`.
    DeleteItem { id: String },
    /// Scan up to `SCAN_LIMIT` items of the table, starting after the last
    /// key that the previous scan evaluated when `from_last` holds, and from
    /// the start of the table otherwise.
    Scan { from_last: bool },
}

/// The outcome of a piece of outside work.
#[derive(Debug)]
pub enum DynamoOutcome<D> {
    /// An item request succeeded.
    Done,
    /// The text that `Encode` produced.
    Text(String),
    /// The job that `Decode` read.
    Decoded(ScheduledJob<D>),
    /// The items of a scanned page, each with its attributes (none when the
    /// page holds no items), and whether the scan evaluated a last key from
    /// which to go on.
    Page { items: Vec<Vec<(String, AttrValue)>>, more: bool },
    /// A request failed.
    Failed(DynamoFailure),
    /// Encoding or decoding failed, with the codec's message.
    CodecFailed(String),
}

/// The outcome answers an item request.
pub open spec fn answers_request<D>(o: DynamoOutcome<D>) -> bool {
    o is Done || o is Failed
}

/// Storing a job: encode it, then put its item.
#[derive(Debug)]
pub enum DynamoUpsert {
    Encoding { id: String },
    Storing { id: String },
    Finished,
}

impl DynamoUpsert {
    /// The outcome answers the work that this state waits for.
    pub open spec fn accepts<D>(self, o: DynamoOutcome<D>) -> bool {
        match self {
            DynamoUpsert::Encoding { .. } => o is Text || o is CodecFailed,
            DynamoUpsert::Storing { .. } => answers_request(o),
            DynamoUpsert::Finished => false,
        }
    }

    /// The state and step that follow the outcome `o`.
    pub open spec fn next<D>(self, o: DynamoOutcome<D>) -> (DynamoUpsert, Step<DynamoWork<D>>) {
        match self {
            DynamoUpsert::Encoding { id } => match o {
                DynamoOutcome::Text(data) => (
                    DynamoUpsert::Storing { id },
                    Step::Run(DynamoWork::PutItem { id, data }),
                ),
                DynamoOutcome::CodecFailed(m) => (
                    DynamoUpsert::Finished,
                    Step::Finish(Err(job_failure(Operation::Upsert, id, m, false))),
                ),
                _ => (DynamoUpsert::Finished, Step::Finish(Ok(()))),
            },
            DynamoUpsert::Storing { id } => match o {
                DynamoOutcome::Failed(f) => (
                    DynamoUpsert::Finished,
                    Step::Finish(Err(job_failure(Operation::Upsert, id, f.message, f.retryable()))),
                ),
                _ => (DynamoUpsert::Finished, Step::Finish(Ok(()))),
            },
            DynamoUpsert::Finished => (DynamoUpsert::Finished, Step::Finish(Ok(()))),
        }
    }

    /// Starts storing `job`: the first work is encoding it.
    pub fn start<D>(job: ScheduledJob<D>) -> (r: (DynamoUpsert, DynamoWork<D>))
        ensures
            r == (DynamoUpsert::Encoding { id: job.id }, DynamoWork::Encode(job)),
    {
        let id = job.id.clone();
        (DynamoUpsert::Encoding { id }, DynamoWork::Encode(job))
    }

    /// Whether `o` answers the work that this state waits for.
    pub fn accepts_outcome<D>(&self, o: &DynamoOutcome<D>) -> (b: bool)
        ensures
            b == self.accepts(*o),
    {
        match self {
            DynamoUpsert::Encoding { .. } => matches!(o, DynamoOutcome::Text(_) | DynamoOutcome::CodecFailed(_)),
            DynamoUpsert::Storing { .. } => matches!(o, DynamoOutcome::Done | DynamoOutcome::Failed(_)),
            DynamoUpsert::Finished => false,
        }
    }

    /// Resumes with the outcome of the work asked for.
    pub fn resume<D>(self, o: DynamoOutcome<D>) -> (r: (DynamoUpsert, Step<DynamoWork<D>>))
        requires
            self.accepts(o),
        ensures
            r == self.next(o),
    {
        match self {
            DynamoUpsert::Encoding { id } => match o {
                DynamoOutcome::Text(data) => {
                    let key = id.clone();
                    (DynamoUpsert::Storing { id }, Step::Run(DynamoWork::PutItem { id: key, data }))
                },
                DynamoOutcome::CodecFailed(m) => {
                    let e = job_error(Operation::Upsert, &id, m, false);
                    (DynamoUpsert::Finished, Step::Finish(Err(e)))
                },
                _ => unreached(),
            },
            DynamoUpsert::Storing { id } => match o {
                DynamoOutcome::Failed(f) => {
                    let retry = is_retryable_request(&f);
                    let e = job_error(Operation::Upsert, &id, f.message, retry);
                    (DynamoUpsert::Finished, Step::Finish(Err(e)))
                },
                _ => (DynamoUpsert::Finished, Step::Finish(Ok(()))),
            },
            DynamoUpsert::Finished => unreached(),
        }
    }
}

/// A request on one job's item that ends the operation: recording its last
/// run, or deleting it.
#[derive(Debug)]
pub enum DynamoItemRequest {
    Waiting { op: Operation, id: String },
    Finished,
}

impl DynamoItemRequest {
    /// The outcome answers the work that this state waits for.
    pub open spec fn accepts<D>(self, o: DynamoOutcome<D>) -> bool {
        match self {
            DynamoItemRequest::Waiting { .. } => answers_request(o),
            DynamoItemRequest::Finished => false,
        }
    }

    /// The state and step that follow the outcome `o`.
    pub open spec fn next<D>(self, o: DynamoOutcome<D>) -> (DynamoItemRequest, Step<DynamoWork<D>>) {
        match self {
            DynamoItemRequest::Waiting { op, id } => match o {
                DynamoOutcome::Failed(f) => (
                    DynamoItemRequest::Finished,
                    Step::Finish(Err(job_failure(op, id, f.message, f.retryable()))),
                ),
                _ => (DynamoItemRequest::Finished, Step::Finish(Ok(()))),
            },
            DynamoItemRequest::Finished => (DynamoItemRequest::Finished, Step::Finish(Ok(()))),
        }
    }

    /// Starts recording that the job `id` ran at the instant whose RFC 3339
    /// text is `last_run`: the only work is updating the item's
    /// `LAST_RUN_KEY` to that text.
    pub fn start_touch_at<D>(id: String, last_run: String) -> (r: (DynamoItemRequest, DynamoWork<D>))
        ensures
            r == (DynamoItemRequest::Waiting { op: Operation::Touch, id }, DynamoWork::<D>::UpdateLastRun { id, last_run }),
    {
        let key = id.clone();
        (
            DynamoItemRequest::Waiting { op: Operation::Touch, id },
            DynamoWork::UpdateLastRun { id: key, last_run },
        )
    }

    /// Starts recording that the job `id` ran at `last_run`: the only work
    /// is updating the item's `LAST_RUN_KEY` to the instant's RFC 3339 text
    /// with nanoseconds.
    pub fn start_touch<D>(id: String, last_run: Timestamp) -> (r: (DynamoItemRequest, DynamoWork<D>))
        ensures
            r.0 == (DynamoItemRequest::Waiting { op: Operation::Touch, id }),
            r.1 matches DynamoWork::UpdateLastRun { id: key, last_run: text } && key == id
                && text@ == rfc3339_nanos_utc(last_run.spec_secs(), last_run.spec_nanos()),
    {
        let text = last_run.to_rfc3339();
        DynamoItemRequest::start_touch_at(id, text)
    }

    /// Starts removing the job `id`: the only work is deleting its item.
    pub fn start_delete<D>(id: String) -> (r: (DynamoItemRequest, DynamoWork<D>))
        ensures
            r == (DynamoItemRequest::Waiting { op: Operation::Delete, id }, DynamoWork::<D>::DeleteItem { id }),
    {
        let key = id.clone();
        (DynamoItemRequest::Waiting { op: Operation::Delete, id }, DynamoWork::DeleteItem { id: key })
    }

    /// Whether `o` answers the work that this state waits for.
    pub fn accepts_outcome<D>(&self, o: &DynamoOutcome<D>) -> (b: bool)
        ensures
            b == self.accepts(*o),
    {
        match self {
            DynamoItemRequest::Waiting { .. } => matches!(o, DynamoOutcome::Done | DynamoOutcome::Failed(_)),
            DynamoItemRequest::Finished => false,
        }
    }

    /// Resumes with the outcome of the work asked for.
    pub fn resume<D>(self, o: DynamoOutcome<D>) -> (r: (DynamoItemRequest, Step<DynamoWork<D>>))
        requires
            self.accepts(o),
        ensures
            r == self.next(o),
    {
        match self {
            DynamoItemRequest::Waiting { op, id } => match o {
                DynamoOutcome::Failed(f) => {
                    let retry = is_retryable_request(&f);
                    let e = job_error(op, &id, f.message, retry);
                    (DynamoItemRequest::Finished, Step::Finish(Err(e)))
                },
                _ => (DynamoItemRequest::Finished, Step::Finish(Ok(()))),
            },
            DynamoItemRequest::Finished => unreached(),
        }
    }
}

/// The index of the first item at or after `from` whose `DATA_KEY` holds a
/// string, or the number of items when there is none.
pub open spec fn first_with_data(items: Seq<Vec<(String, AttrValue)>>, from: int) -> int
    decreases items.len() - from,
{
    if from >= items.len() {
        items.len() as int
    } else if data_of(items[from]@) is Some {
        from
    } else {
        first_with_data(items, from + 1)
    }
}

/// Reading every job back: scan the table page by page and decode the string
/// under `DATA_KEY` of each item, passing over items that have none.  A
/// failed scan or decoding is handed out as a recovery error and ends the
/// stream.
#[derive(Debug)]
pub enum DynamoRecover {
    Scanning,
    Decoding { items: Vec<Vec<(String, AttrValue)>>, at: usize, more: bool },
    Finished,
}

impl DynamoRecover {
    /// Where the recovery goes on from the item `from` of a page: decoding
    /// the next item that has data, scanning on, or stopping.
    pub open spec fn go_on<D>(items: Vec<Vec<(String, AttrValue)>>, from: int, more: bool) -> (
        DynamoRecover,
        Option<DynamoWork<D>>,
    ) {
        let j = first_with_data(items@, from);
        if j < items@.len() {
            (
                DynamoRecover::Decoding { items, at: j as usize, more },
                Some(DynamoWork::Decode(data_of(items@[j]@)->0)),
            )
        } else if more {
            (DynamoRecover::Scanning, Some(DynamoWork::Scan { from_last: true }))
        } else {
            (DynamoRecover::Finished, None)
        }
    }

    /// The outcome answers the work that this state waits for, and a
    /// decoding state's item lies within its page.
    pub open spec fn accepts<D>(self, o: DynamoOutcome<D>) -> bool {
        match self {
            DynamoRecover::Scanning => o is Page || o is Failed,
            DynamoRecover::Decoding { items, at, .. } => at < items@.len() && (o is Decoded
                || o is CodecFailed),
            DynamoRecover::Finished => false,
        }
    }

    /// The state and step that follow the outcome `o`.
    pub open spec fn next<D>(self, o: DynamoOutcome<D>) -> (DynamoRecover, StreamStep<DynamoWork<D>, D>) {
        match self {
            DynamoRecover::Scanning => match o {
                DynamoOutcome::Page { items, more } => {
                    let (s, w) = DynamoRecover::go_on(items, 0, more);
                    (s, match w {
                        Some(w) => StreamStep::Run(w),
                        None => StreamStep::End,
                    })
                },
                DynamoOutcome::Failed(f) => (
                    DynamoRecover::Finished,
                    StreamStep::Emit(Err(BackingError::Recovery { message: f.message, is_retryable: f.retryable() }), None),
                ),
                _ => (DynamoRecover::Finished, StreamStep::End),
            },
            DynamoRecover::Decoding { items, at, more } => match o {
                DynamoOutcome::Decoded(job) => {
                    let (s, w) = DynamoRecover::go_on(items, at + 1, more);
                    (s, StreamStep::Emit(Ok(job), w))
                },
                DynamoOutcome::CodecFailed(m) => (
                    DynamoRecover::Finished,
                    StreamStep::Emit(Err(BackingError::Recovery { message: m, is_retryable: false }), None),
                ),
                _ => (DynamoRecover::Finished, StreamStep::End),
            },
            DynamoRecover::Finished => (DynamoRecover::Finished, StreamStep::End),
        }
    }

    /// Where the recovery goes on from the item `from` of a page.
    fn go_on_from<D>(items: Vec<Vec<(String, AttrValue)>>, from: usize, more: bool) -> (r: (
        DynamoRecover,
        Option<DynamoWork<D>>,
    ))
        requires
            from <= items@.len(),
        ensures
            r == DynamoRecover::go_on::<D>(items, from as int, more),
    {
        let mut j = from;
        while j < items.len()
            invariant
                from <= j <= items@.len(),
                first_with_data(items@, from as int) == first_with_data(items@, j as int),
            decreases items@.len() - j,
        {
            let data = item_data(&items[j]);
            match data {
                Some(text) => {
                    return (DynamoRecover::Decoding { items, at: j, more }, Some(DynamoWork::Decode(text)));
                },
                None => {},
            }
            j = j + 1;
        }
        if more {
            (DynamoRecover::Scanning, Some(DynamoWork::Scan { from_last: true }))
        } else {
            (DynamoRecover::Finished, None)
        }
    }

    /// Starts a recovery: the first work is scanning from the start of the
    /// table.
    pub fn start<D>() -> (r: (DynamoRecover, DynamoWork<D>))
        ensures
            r == (DynamoRecover::Scanning, DynamoWork::<D>::Scan { from_last: false }),
    {
        (DynamoRecover::Scanning, DynamoWork::Scan { from_last: false })
    }

    /// Whether `o` answers the work that this state waits for.
    pub fn accepts_outcome<D>(&self, o: &DynamoOutcome<D>) -> (b: bool)
        ensures
            b == self.accepts(*o),
    {
        match self {
            DynamoRecover::Scanning => matches!(o, DynamoOutcome::Page { .. } | DynamoOutcome::Failed(_)),
            DynamoRecover::Decoding { items, at, .. } => *at < items.len() && matches!(o, DynamoOutcome::Decoded(_) | DynamoOutcome::CodecFailed(_)),
            DynamoRecover::Finished => false,
        }
    }

    /// Resumes with the outcome of the work asked for.
    pub fn resume<D>(self, o: DynamoOutcome<D>) -> (r: (DynamoRecover, StreamStep<DynamoWork<D>, D>))
        requires
            self.accepts(o),
        ensures
            r == self.next(o),
    {
        match self {
            DynamoRecover::Scanning => match o {
                DynamoOutcome::Page { items, more } => {
                    let (s, w) = DynamoRecover::go_on_from(items, 0, more);
                    (s, match w {
                        Some(w) => StreamStep::Run(w),
                        None => StreamStep::End,
                    })
                },
                DynamoOutcome::Failed(f) => {
                    let retry = is_retryable_request(&f);
                    let e = BackingError::Recovery { message: f.message, is_retryable: retry };
                    (DynamoRecover::Finished, StreamStep::Emit(Err(e), None))
                },
                _ => unreached(),
            },
            DynamoRecover::Decoding { items, at, more } => match o {
                DynamoOutcome::Decoded(job) => {
                    let n = items.len();
                    assert(at < n);
                    let (s, w) = DynamoRecover::go_on_from(items, at + 1, more);
                    (s, StreamStep::Emit(Ok(job), w))
                },
                DynamoOutcome::CodecFailed(m) => {
                    let e = BackingError::Recovery { message: m, is_retryable: false };
                    (DynamoRecover::Finished, StreamStep::Emit(Err(e), None))
                },
                _ => unreached(),
            },
            DynamoRecover::Finished => unreached(),
        }
    }
}

/// A piece of outside work that setting up the table asks for.
#[derive(Debug, PartialEq, Eq, Structural, Clone, Copy)]
pub enum TableWork {
    /// Delete the store's table.
    DeleteTable,
    /// Create the store's table, billed per request, with `PK_KEY` as its
    /// string hash key.
    CreateTable,
}

/// What setting up the table asks for next.
#[derive(Debug)]
pub enum SetupStep {
    Run(TableWork),
    Finish(Result<(), DynamoFailure>),
}

/// Setting up the table of a local store: delete the table, whatever comes
/// of it, then create it afresh.
#[derive(Debug, PartialEq, Eq, Structural, Clone, Copy)]
pub enum TableSetup {
    Deleting,
    Creating,
    Finished,
}

impl TableSetup {
    /// The state and step that follow the outcome of the work asked for.
    pub open spec fn next(self, outcome: Result<(), DynamoFailure>) -> (TableSetup, SetupStep) {
        match self {
            TableSetup::Deleting => (TableSetup::Creating, SetupStep::Run(TableWork::CreateTable)),
            TableSetup::Creating => (TableSetup::Finished, SetupStep::Finish(outcome)),
            TableSetup::Finished => (TableSetup::Finished, SetupStep::Finish(Ok(()))),
        }
    }

    /// Starts setting up the table: the first work is deleting it.
    pub fn start() -> (r: (TableSetup, TableWork))
        ensures
            r == (TableSetup::Deleting, TableWork::DeleteTable),
    {
        (TableSetup::Deleting, TableWork::DeleteTable)
    }

    /// Resumes with the outcome of the work asked for.
    pub fn resume(self, outcome: Result<(), DynamoFailure>) -> (r: (TableSetup, SetupStep))
        requires
            self != TableSetup::Finished,
        ensures
            r == self.next(outcome),
    {
        match self {
            TableSetup::Deleting => (TableSetup::Creating, SetupStep::Run(TableWork::CreateTable)),
            _ => (TableSetup::Finished, SetupStep::Finish(outcome)),
        }
    }
}

} // verus!
