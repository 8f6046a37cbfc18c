//! A model of the DynamoDB table of jobs, and what the DynamoDB store's
//! operations do to it when every call succeeds.
use vstd::prelude::*;
use crate::dynamodb::{
    AttrValue, DynamoItemRequest, DynamoOutcome, DynamoRecover, DynamoUpsert, DynamoWork, data_of,
    first_with_data, key_of,
};
use crate::error::{BackingError, Operation};
use crate::job::ScheduledJob;
use crate::machine::{
    OperationMachine, RecoveryMachine, Step, StreamStep, World, exactly_one, hands_out_failure,
    lemma_none_cons, lemma_none_concat, lemma_one_concat, lemma_one_cons_here,
    lemma_one_cons_later, none_with, recover, reports_failure, run,
};

verus! {

impl<D> OperationMachine<DynamoWork<D>, DynamoOutcome<D>> for DynamoUpsert {
    open spec fn answers(self, o: DynamoOutcome<D>) -> bool {
        self.accepts(o)
    }

    open spec fn advance(self, o: DynamoOutcome<D>) -> (Self, Step<DynamoWork<D>>) {
        self.next(o)
    }
}

impl<D> OperationMachine<DynamoWork<D>, DynamoOutcome<D>> for DynamoItemRequest {
    open spec fn answers(self, o: DynamoOutcome<D>) -> bool {
        self.accepts(o)
    }

    open spec fn advance(self, o: DynamoOutcome<D>) -> (Self, Step<DynamoWork<D>>) {
        self.next(o)
    }
}

impl<D> RecoveryMachine<DynamoWork<D>, DynamoOutcome<D>, D> for DynamoRecover {
    open spec fn answers(self, o: DynamoOutcome<D>) -> bool {
        self.accepts(o)
    }

    open spec fn advance(self, o: DynamoOutcome<D>) -> (Self, StreamStep<DynamoWork<D>, D>) {
        self.next(o)
    }
}

/// What the table holds for a job: the string under `DATA_KEY` and the
/// string under `LAST_RUN_KEY`, each if present.
pub struct StoredItem {
    pub data: Option<String>,
    pub last_run: Option<String>,
}

/// A DynamoDB table whose requests all succeed, and the codec of the store.
/// `items` maps each job id to its item; `pages` are the pages that scanning
/// the table returns, in order, and `scanned` the number of pages returned so
/// far; `encode` and `decode` are the codec, `decode` giving `None` for text
/// that holds no job, in which case it fails with `codec_error`.
#[verifier::reject_recursive_types(D)]
pub struct DynamoTable<D> {
    pub items: Map<Seq<char>, StoredItem>,
    pub pages: Seq<Vec<Vec<(String, AttrValue)>>>,
    pub scanned: int,
    pub encode: spec_fn(ScheduledJob<D>) -> String,
    pub decode: spec_fn(String) -> Option<ScheduledJob<D>>,
    pub codec_error: String,
}

/// The page that a scan returns.
pub open spec fn scan_page<D>(t: DynamoTable<D>, from_last: bool) -> int {
    if from_last {
        t.scanned
    } else {
        0
    }
}

impl<D> World<DynamoWork<D>, DynamoOutcome<D>> for DynamoTable<D> {
    open spec fn outcome(self, w: DynamoWork<D>) -> DynamoOutcome<D> {
        match w {
            DynamoWork::Encode(job) => DynamoOutcome::Text((self.encode)(job)),
            DynamoWork::Decode(text) => match (self.decode)(text) {
                Some(job) => DynamoOutcome::Decoded(job),
                None => DynamoOutcome::CodecFailed(self.codec_error),
            },
            DynamoWork::Scan { from_last } => {
                let k = scan_page(self, from_last);
                DynamoOutcome::Page { items: self.pages[k], more: k + 1 < self.pages.len() }
            },
            _ => DynamoOutcome::Done,
        }
    }

    open spec fn after(self, w: DynamoWork<D>) -> Self {
        match w {
            DynamoWork::PutItem { id, data } => DynamoTable {
                items: self.items.insert(id@, StoredItem { data: Some(data), last_run: None }),
                ..self
            },
            DynamoWork::UpdateLastRun { id, last_run } => DynamoTable {
                items: self.items.insert(
                    id@,
                    StoredItem {
                        data: if self.items.contains_key(id@) {
                            self.items[id@].data
                        } else {
                            None
                        },
                        last_run: Some(last_run),
                    },
                ),
                ..self
            },
            DynamoWork::DeleteItem { id } => DynamoTable { items: self.items.remove(id@), ..self },
            DynamoWork::Scan { from_last } => DynamoTable { scanned: scan_page(self, from_last) + 1, ..self },
            _ => self,
        }
    }
}

/// The table with `items` in place of its items.
pub open spec fn with_items<D>(t: DynamoTable<D>, items: Map<Seq<char>, StoredItem>) -> DynamoTable<D> {
    DynamoTable { items, ..t }
}

/// Storing a job puts an item with its encoding, and no last run, under its
/// id, and succeeds.
pub proof fn lemma_upsert_stores<D>(job: ScheduledJob<D>, t: DynamoTable<D>)
    ensures
        run(DynamoUpsert::Encoding { id: job.id }, DynamoWork::Encode(job), t, 2) == Some((
            with_items(t, t.items.insert(job.id@, StoredItem { data: Some((t.encode)(job)), last_run: None })),
            Ok::<(), BackingError>(()),
        )),
{
    reveal_with_fuel(run, 3);
}

/// Recording a run sets the item's last run to the given text, keeps its
/// data, and succeeds; an item that was missing is created without data.
pub proof fn lemma_touch_records<D>(id: String, text: String, t: DynamoTable<D>)
    ensures
        run(
            DynamoItemRequest::Waiting { op: Operation::Touch, id },
            DynamoWork::<D>::UpdateLastRun { id, last_run: text },
            t,
            1,
        ) == Some((
            with_items(
                t,
                t.items.insert(
                    id@,
                    StoredItem {
                        data: if t.items.contains_key(id@) {
                            t.items[id@].data
                        } else {
                            None
                        },
                        last_run: Some(text),
                    },
                ),
            ),
            Ok::<(), BackingError>(()),
        )),
{
    reveal_with_fuel(run, 2);
}

/// Removing a job deletes its item and succeeds.
pub proof fn lemma_delete_removes<D>(id: String, t: DynamoTable<D>)
    ensures
        run(
            DynamoItemRequest::Waiting { op: Operation::Delete, id },
            DynamoWork::<D>::DeleteItem { id },
            t,
            1,
        ) == Some((with_items(t, t.items.remove(id@)), Ok::<(), BackingError>(()))),
{
    reveal_with_fuel(run, 2);
}

/// The number of items from position `k` on whose `DATA_KEY` holds a string.
pub open spec fn data_count(items: Seq<Vec<(String, AttrValue)>>, k: int) -> nat
    decreases items.len() - k,
{
    if k < 0 || k >= items.len() {
        0
    } else if data_of(items[k]@) is Some {
        1 + data_count(items, k + 1)
    } else {
        data_count(items, k + 1)
    }
}

/// The jobs decoded from the items of a page from position `k` on, in order,
/// passing over items whose `DATA_KEY` holds no string.
pub open spec fn page_jobs<D>(t: DynamoTable<D>, items: Seq<Vec<(String, AttrValue)>>, k: int) -> Seq<
    Result<ScheduledJob<D>, BackingError>,
>
    decreases items.len() - k,
{
    if k < 0 || k >= items.len() {
        Seq::empty()
    } else {
        match data_of(items[k]@) {
            Some(text) => seq![Ok((t.decode)(text)->0)] + page_jobs(t, items, k + 1),
            None => page_jobs(t, items, k + 1),
        }
    }
}

/// The jobs decoded from the pages from page `p` on, in order.
pub open spec fn pages_jobs<D>(t: DynamoTable<D>, p: int) -> Seq<Result<ScheduledJob<D>, BackingError>>
    decreases t.pages.len() - p,
{
    if p < 0 || p >= t.pages.len() {
        Seq::empty()
    } else {
        page_jobs(t, t.pages[p]@, 0) + pages_jobs(t, p + 1)
    }
}

/// The work of scanning and decoding the pages from page `p` on.
pub open spec fn pages_work<D>(t: DynamoTable<D>, p: int) -> nat
    decreases t.pages.len() - p,
{
    if p < 0 || p >= t.pages.len() {
        0
    } else {
        1 + data_count(t.pages[p]@, 0) + pages_work(t, p + 1)
    }
}

/// Every string under `DATA_KEY` on every page decodes.
pub open spec fn decodable<D>(t: DynamoTable<D>) -> bool {
    forall|p: int, k: int|
        0 <= p < t.pages.len() && 0 <= k < t.pages[p]@.len() ==> (#[trigger] data_of(t.pages[p]@[k]@)
            matches Some(text) ==> (t.decode)(text) is Some)
}

/// The first item with data at or after `from` is where the page's jobs and
/// the count of its items with data start over.
proof fn lemma_skip<D>(t: DynamoTable<D>, items: Seq<Vec<(String, AttrValue)>>, from: int)
    requires
        0 <= from <= items.len(),
    ensures
        from <= first_with_data(items, from) <= items.len(),
        page_jobs(t, items, from) == page_jobs(t, items, first_with_data(items, from)),
        data_count(items, from) == data_count(items, first_with_data(items, from)),
        first_with_data(items, from) < items.len() ==> data_of(items[first_with_data(items, from)]@) is Some,
    decreases items.len() - from,
{
    if from < items.len() && data_of(items[from]@) is None {
        lemma_skip(t, items, from + 1);
    }
}

/// How a recovery goes on from where it stands: the rest of the stream, if
/// there is work left.
pub open spec fn go_on_recovery<D>(
    s: DynamoRecover,
    w: Option<DynamoWork<D>>,
    t: DynamoTable<D>,
    fuel: nat,
) -> Option<(DynamoTable<D>, Seq<Result<ScheduledJob<D>, BackingError>>)> {
    match w {
        None => Some((t, Seq::empty())),
        Some(w) => recover(s, w, t, fuel),
    }
}

/// Going on from item `from` of page `p`, which was the last page scanned,
/// hands out the jobs of the rest of the page and of the later pages.
proof fn lemma_goes_on<D>(t: DynamoTable<D>, p: int, from: int)
    requires
        0 <= p < t.pages.len(),
        t.scanned == p + 1,
        0 <= from <= t.pages[p]@.len(),
        decodable(t),
    ensures
        ({
            let (s, w) = DynamoRecover::go_on::<D>(t.pages[p], from, p + 1 < t.pages.len());
            go_on_recovery(s, w, t, data_count(t.pages[p]@, from) + pages_work(t, p + 1))
                == Some((DynamoTable { scanned: t.pages.len() as int, ..t },
                    page_jobs(t, t.pages[p]@, from) + pages_jobs(t, p + 1)))
        }),
    decreases t.pages.len() - p, t.pages[p]@.len() - from,
{
    broadcast use vstd::std_specs::vec::axiom_spec_len;
    let items = t.pages[p]@;
    let more = p + 1 < t.pages.len();
    assert(items.len() == t.pages[p].len());
    lemma_skip(t, items, from);
    let j = first_with_data(items, from);
    if j < items.len() {
        let text = data_of(items[j]@)->0;
        assert((t.decode)(text) is Some);
        reveal_with_fuel(recover, 2);
        assert(data_count(items, j) == 1 + data_count(items, j + 1));
        lemma_goes_on(t, p, j + 1);
        assert(page_jobs(t, items, j) =~= seq![Ok::<ScheduledJob<D>, BackingError>((t.decode)(text)->0)]
            + page_jobs(t, items, j + 1));
        assert(page_jobs(t, items, from) + pages_jobs(t, p + 1) =~= seq![Ok::<ScheduledJob<D>, BackingError>((t.decode)(text)->0)]
            + (page_jobs(t, items, j + 1) + pages_jobs(t, p + 1)));
    } else if more {
        let t2 = DynamoTable { scanned: p + 2, ..t };
        reveal_with_fuel(recover, 2);
        lemma_goes_on(t2, p + 1, 0);
        lemma_same_jobs(t2, t, p + 2);
        lemma_same_page(t2, t, t.pages[p + 1]@, 0);
        assert(page_jobs(t, items, from) =~= Seq::empty());
        assert(pages_jobs(t, p + 1) =~= page_jobs(t, t.pages[p + 1]@, 0) + pages_jobs(t, p + 2));
        assert(page_jobs(t, items, from) + pages_jobs(t, p + 1) =~= page_jobs(t2, t2.pages[p + 1]@, 0)
            + pages_jobs(t2, p + 2));
    } else {
        assert(page_jobs(t, items, from) + pages_jobs(t, p + 1) =~= Seq::empty());
    }
}

/// The jobs and work of the pages do not depend on how many were scanned.
proof fn lemma_same_jobs<D>(a: DynamoTable<D>, b: DynamoTable<D>, p: int)
    requires
        a.pages == b.pages,
        a.decode == b.decode,
    ensures
        pages_jobs(a, p) == pages_jobs(b, p),
        pages_work(a, p) == pages_work(b, p),
    decreases a.pages.len() - p,
{
    if 0 <= p < a.pages.len() {
        lemma_same_jobs(a, b, p + 1);
        lemma_same_page(a, b, a.pages[p]@, 0);
    }
}

/// The jobs of a page do not depend on how many pages were scanned.
proof fn lemma_same_page<D>(a: DynamoTable<D>, b: DynamoTable<D>, items: Seq<Vec<(String, AttrValue)>>, k: int)
    requires
        a.decode == b.decode,
    ensures
        page_jobs(a, items, k) == page_jobs(b, items, k),
    decreases items.len() - k,
{
    if 0 <= k < items.len() {
        lemma_same_page(a, b, items, k + 1);
    }
}

/// A recovery scans every page in turn and hands out, in order, the job
/// decoded from each item's `DATA_KEY` string, passing over items without
/// one.
pub proof fn lemma_recover_reads_all<D>(t: DynamoTable<D>)
    requires
        t.pages.len() > 0,
        decodable(t),
    ensures
        recover(DynamoRecover::Scanning, DynamoWork::<D>::Scan { from_last: false }, t, pages_work(t, 0))
            == Some((DynamoTable { scanned: t.pages.len() as int, ..t }, pages_jobs(t, 0))),
{
    let t1 = DynamoTable { scanned: 1, ..t };
    reveal_with_fuel(recover, 2);
    lemma_goes_on(t1, 0, 0);
    lemma_same_jobs(t1, t, 0);
    lemma_same_page(t1, t, t.pages[0]@, 0);
    assert(pages_jobs(t, 0) =~= page_jobs(t, t.pages[0]@, 0) + pages_jobs(t, 1));
}

/// The message and retryability of a failed outcome: a failed request is
/// retryable as its error says, a failed encoding or decoding never.
pub open spec fn failure_of<D>(o: DynamoOutcome<D>) -> Option<(String, bool)> {
    match o {
        DynamoOutcome::Failed(f) => Some((f.message, f.retryable())),
        DynamoOutcome::CodecFailed(m) => Some((m, false)),
        _ => None,
    }
}

/// The id of the job that a state of storing works on.
pub open spec fn upsert_job(s: DynamoUpsert) -> String {
    match s {
        DynamoUpsert::Encoding { id } => id,
        DynamoUpsert::Storing { id } => id,
        DynamoUpsert::Finished => arbitrary(),
    }
}

/// Storing a job ends with an error exactly when the encoding or the
/// request fails, and the error is the upsert error of the job with the
/// failure's message and retryability; until it ends, it works on the same
/// job.
pub proof fn lemma_upsert_failures<D>(s: DynamoUpsert, o: DynamoOutcome<D>)
    requires
        s.accepts(o),
    ensures
        reports_failure(s.next(o).1, Operation::Upsert, upsert_job(s)@, failure_of(o)),
        !(s.next(o).0 is Finished) ==> upsert_job(s.next(o).0) == upsert_job(s),
{
}

/// Recording a run or removing a job ends with an error exactly when the
/// request fails, and the error is the error of that operation on the job,
/// with the failure's message and retryability.
pub proof fn lemma_item_request_failures<D>(s: DynamoItemRequest, o: DynamoOutcome<D>)
    requires
        s.accepts(o),
    ensures
        s matches DynamoItemRequest::Waiting { op, id } ==> reports_failure(s.next(o).1, op, id@, failure_of(o)),
{
}

/// A recovery hands out an error exactly when a scan or a decoding fails,
/// with the failure's message and retryability, and then ends.
pub proof fn lemma_recover_failures<D>(s: DynamoRecover, o: DynamoOutcome<D>)
    requires
        s.accepts(o),
    ensures
        hands_out_failure(s.next(o).1, failure_of(o)),
{
}

/// The codec reads back every job it writes.
pub open spec fn round_trips<D>(t: DynamoTable<D>) -> bool {
    forall|j: ScheduledJob<D>| #[trigger] (t.decode)((t.encode)(j)) == Some(j)
}

/// The item at position `i` of page `p`.
pub open spec fn item_at<D>(t: DynamoTable<D>, p: int, i: int) -> Seq<(String, AttrValue)> {
    t.pages[p]@[i]@
}

/// The id that an item's key names, if it has one.
pub open spec fn key_id(attrs: Seq<(String, AttrValue)>) -> Option<Seq<char>> {
    match key_of(attrs) {
        Some(k) => Some(k@),
        None => None,
    }
}

/// A scan returns the table's items: at least one page; every item on the
/// pages is the stored item of its key, with the stored data; and every
/// stored item is on the pages, once.
pub open spec fn pages_list<D>(t: DynamoTable<D>) -> bool {
    &&& t.pages.len() > 0
    &&& forall|p: int, i: int|
        0 <= p < t.pages.len() && 0 <= i < t.pages[p]@.len() ==> (key_of(#[trigger] item_at(t, p, i))
            matches Some(k) && t.items.contains_key(k@) && data_of(item_at(t, p, i)) == t.items[k@].data)
    &&& forall|p1: int, i1: int, p2: int, i2: int|
        0 <= p1 < t.pages.len() && 0 <= i1 < t.pages[p1]@.len() && 0 <= p2 < t.pages.len() && 0 <= i2
            < t.pages[p2]@.len() && key_id(#[trigger] item_at(t, p1, i1)) == key_id(#[trigger] item_at(t, p2, i2))
            ==> p1 == p2 && i1 == i2
    &&& forall|k: Seq<char>|
        #[trigger] t.items.contains_key(k) ==> exists|p: int, i: int|
            0 <= p < t.pages.len() && 0 <= i < t.pages[p]@.len() && (key_of(#[trigger] item_at(t, p, i)) matches Some(s)
                && s@ == k)
}

/// The data of every stored item decodes to a job whose id is the item's
/// key, as the store keeps them: upsert writes each job under its own id.
pub open spec fn ids_match_items<D>(t: DynamoTable<D>) -> bool {
    forall|k: Seq<char>|
        #[trigger] t.items.contains_key(k) ==> (t.items[k].data matches Some(d) ==> ((t.decode)(d) matches Some(j)
            && j.id@ == k))
}

/// The item's data, if it has any, decodes to a job with an id other than
/// `id`.
pub open spec fn decodes_to_other<D>(t: DynamoTable<D>, attrs: Seq<(String, AttrValue)>, id: Seq<char>) -> bool {
    data_of(attrs) matches Some(d) ==> ((t.decode)(d) matches Some(j) && j.id@ != id)
}

/// A page whose items from `k` on decode to jobs of other ids hands out no
/// job of `id` from `k` on; if one item at `at` decodes to `job` and the
/// others to other ids, it hands out `job` once while `at` is ahead.
proof fn lemma_page_count<D>(
    t: DynamoTable<D>,
    items: Seq<Vec<(String, AttrValue)>>,
    job: ScheduledJob<D>,
    at: int,
    k: int,
)
    requires
        0 <= k <= items.len(),
        forall|i: int| 0 <= i < items.len() && i != at ==> decodes_to_other(t, #[trigger] items[i]@, job.id@),
        0 <= at < items.len() ==> (data_of(items[at]@) matches Some(d) && (t.decode)(d) == Some(job)),
    ensures
        k <= at < items.len() ==> exactly_one(page_jobs(t, items, k), job),
        !(k <= at < items.len()) ==> none_with(page_jobs(t, items, k), job.id@),
    decreases items.len() - k,
{
    if k < items.len() {
        lemma_page_count(t, items, job, at, k + 1);
        let rest = page_jobs(t, items, k + 1);
        if k == at {
            lemma_one_cons_here(job, rest);
        } else {
            assert(decodes_to_other(t, items[k]@, job.id@));
            match data_of(items[k]@) {
                Some(d) => {
                    let j = (t.decode)(d)->0;
                    if k <= at < items.len() {
                        lemma_one_cons_later(Ok(j), rest, job);
                    } else {
                        lemma_none_cons(Ok(j), rest, job.id@);
                    }
                },
                None => {},
            }
        }
    } else {
        assert(page_jobs(t, items, k) =~= Seq::empty());
    }
}

/// Over the pages from `q` on: with every item decoding to a job of another
/// id but the one at (`p0`, `i0`), which decodes to `job`, the recovered
/// jobs hold `job` once while page `p0` is ahead, and no job of its id
/// otherwise.
proof fn lemma_pages_count<D>(t: DynamoTable<D>, job: ScheduledJob<D>, p0: int, i0: int, q: int)
    requires
        0 <= q <= t.pages.len(),
        forall|p: int, i: int|
            0 <= p < t.pages.len() && 0 <= i < t.pages[p]@.len() && !(p == p0 && i == i0) ==> decodes_to_other(
                t,
                #[trigger] item_at(t, p, i),
                job.id@,
            ),
        0 <= p0 < t.pages.len() ==> (0 <= i0 < t.pages[p0]@.len() && (data_of(item_at(t, p0, i0)) matches Some(d)
            && (t.decode)(d) == Some(job))),
    ensures
        q <= p0 < t.pages.len() ==> exactly_one(pages_jobs(t, q), job),
        !(q <= p0 < t.pages.len()) ==> none_with(pages_jobs(t, q), job.id@),
    decreases t.pages.len() - q,
{
    if q < t.pages.len() {
        lemma_pages_count(t, job, p0, i0, q + 1);
        let items = t.pages[q]@;
        let at = if q == p0 { i0 } else { -1 };
        assert forall|i: int| 0 <= i < items.len() && i != at implies decodes_to_other(t, #[trigger] items[i]@, job.id@) by {
            assert(item_at(t, q, i) == items[i]@);
        }
        if q == p0 {
            assert(item_at(t, q, i0) == items[i0]@);
        }
        lemma_page_count(t, items, job, at, 0);
        let here = page_jobs(t, items, 0);
        let rest = pages_jobs(t, q + 1);
        assert(pages_jobs(t, q) == here + rest);
        if q == p0 {
            lemma_one_concat(here, rest, job);
        } else if q < p0 < t.pages.len() {
            lemma_one_concat(here, rest, job);
        } else {
            lemma_none_concat(here, rest, job.id@);
        }
    } else {
        assert(pages_jobs(t, q) =~= Seq::empty());
    }
}

/// On a table whose scan returns its items and whose items hold jobs of
/// their own ids, every string under `DATA_KEY` on the pages decodes.
proof fn lemma_table_decodable<D>(t: DynamoTable<D>)
    requires
        pages_list(t),
        ids_match_items(t),
    ensures
        decodable(t),
{
    assert forall|p: int, k: int| 0 <= p < t.pages.len() && 0 <= k < t.pages[p]@.len() implies (#[trigger] data_of(
        t.pages[p]@[k]@,
    ) matches Some(text) ==> (t.decode)(text) is Some) by {
        assert(item_at(t, p, k) == t.pages[p]@[k]@);
        let key = key_of(item_at(t, p, k))->0;
        assert(t.items.contains_key(key@));
    }
}

/// A recovery of a table whose scan returns its items, whose items hold jobs
/// of their own ids, and whose item for `job` holds data that decodes to
/// `job`, hands `job` out exactly once, and no other job with its id.
proof fn lemma_recovered_once<D>(job: ScheduledJob<D>, t: DynamoTable<D>)
    requires
        pages_list(t),
        ids_match_items(t),
        t.items.contains_key(job.id@),
        t.items[job.id@].data matches Some(d) && (t.decode)(d) == Some(job),
    ensures
        recover(DynamoRecover::Scanning, DynamoWork::<D>::Scan { from_last: false }, t, pages_work(t, 0))
            matches Some((_, items)) && exactly_one(items, job),
{
    lemma_table_decodable(t);
    lemma_recover_reads_all(t);
    let (p0, i0) = choose|p: int, i: int|
        0 <= p < t.pages.len() && 0 <= i < t.pages[p]@.len() && (key_of(#[trigger] item_at(t, p, i))
            matches Some(s) && s@ == job.id@);
    assert forall|p: int, i: int|
        0 <= p < t.pages.len() && 0 <= i < t.pages[p]@.len() && !(p == p0 && i == i0) implies decodes_to_other(
        t,
        #[trigger] item_at(t, p, i),
        job.id@,
    ) by {
        let key = key_of(item_at(t, p, i))->0;
        assert(key_id(item_at(t, p, i)) != key_id(item_at(t, p0, i0)));
        assert(key@ != job.id@);
        assert(t.items.contains_key(key@));
    }
    lemma_pages_count(t, job, p0, i0, 0);
}

/// A job survives a restart of the store: with a codec that reads back what
/// it writes, on a table whose items hold jobs of their own ids, after
/// upsert stored the job, and after a later recorded run of it, a recovery
/// whose scan returns the table's items hands the job back exactly once, and
/// no other job with its id.
pub proof fn lemma_stored_job_recovered<D>(job: ScheduledJob<D>, text: String, t: DynamoTable<D>)
    requires
        round_trips(t),
        ids_match_items(t),
        pages_list(with_items(t, t.items.insert(job.id@, StoredItem { data: Some((t.encode)(job)), last_run: None }))),
        pages_list(with_items(t, t.items.insert(job.id@, StoredItem { data: Some((t.encode)(job)), last_run: Some(text) }))),
    ensures
        ({
            let stored = with_items(
                t,
                t.items.insert(job.id@, StoredItem { data: Some((t.encode)(job)), last_run: None }),
            );
            let later = with_items(
                t,
                t.items.insert(job.id@, StoredItem { data: Some((t.encode)(job)), last_run: Some(text) }),
            );
            &&& run(DynamoUpsert::Encoding { id: job.id }, DynamoWork::Encode(job), t, 2)
                == Some((stored, Ok::<(), BackingError>(())))
            &&& recover(DynamoRecover::Scanning, DynamoWork::<D>::Scan { from_last: false }, stored, pages_work(stored, 0))
                matches Some((_, items)) && exactly_one(items, job)
            &&& run(
                DynamoItemRequest::Waiting { op: Operation::Touch, id: job.id },
                DynamoWork::<D>::UpdateLastRun { id: job.id, last_run: text },
                stored,
                1,
            ) == Some((later, Ok::<(), BackingError>(())))
            &&& recover(DynamoRecover::Scanning, DynamoWork::<D>::Scan { from_last: false }, later, pages_work(later, 0))
                matches Some((_, items)) && exactly_one(items, job)
        }),
{
    let stored = with_items(t, t.items.insert(job.id@, StoredItem { data: Some((t.encode)(job)), last_run: None }));
    let later = with_items(t, t.items.insert(job.id@, StoredItem { data: Some((t.encode)(job)), last_run: Some(text) }));
    lemma_upsert_stores(job, t);
    lemma_touch_records(job.id, text, stored);
    assert(stored.items.insert(job.id@, StoredItem { data: Some((t.encode)(job)), last_run: Some(text) }) =~= later.items);
    assert((t.decode)((t.encode)(job)) == Some(job));
    assert forall|k: Seq<char>| #[trigger] stored.items.contains_key(k) implies (stored.items[k].data matches Some(d) ==> (
    (stored.decode)(d) matches Some(j) && j.id@ == k)) by {
        if k != job.id@ {
            assert(t.items.contains_key(k));
        }
    }
    assert forall|k: Seq<char>| #[trigger] later.items.contains_key(k) implies (later.items[k].data matches Some(d) ==> (
    (later.decode)(d) matches Some(j) && j.id@ == k)) by {
        if k != job.id@ {
            assert(t.items.contains_key(k));
        }
    }
    lemma_recovered_once(job, stored);
    lemma_recovered_once(job, later);
}

/// Two upserts of jobs with the same id leave the table as the second one
/// alone does.
pub proof fn lemma_upsert_last_wins<D>(j1: ScheduledJob<D>, j2: ScheduledJob<D>, t: DynamoTable<D>)
    requires
        j1.id@ == j2.id@,
    ensures
        ({
            let first = with_items(t, t.items.insert(j1.id@, StoredItem { data: Some((t.encode)(j1)), last_run: None }));
            &&& run(DynamoUpsert::Encoding { id: j1.id }, DynamoWork::Encode(j1), t, 2) == Some((first, Ok::<(), BackingError>(())))
            &&& run(DynamoUpsert::Encoding { id: j2.id }, DynamoWork::Encode(j2), first, 2)
                == run(DynamoUpsert::Encoding { id: j2.id }, DynamoWork::Encode(j2), t, 2)
        }),
{
    let first = with_items(t, t.items.insert(j1.id@, StoredItem { data: Some((t.encode)(j1)), last_run: None }));
    lemma_upsert_stores(j1, t);
    lemma_upsert_stores(j2, first);
    lemma_upsert_stores(j2, t);
    assert(first.items.insert(j2.id@, StoredItem { data: Some((t.encode)(j2)), last_run: None }) =~= t.items.insert(
        j2.id@,
        StoredItem { data: Some((t.encode)(j2)), last_run: None },
    ));
}

/// A second removal of a job succeeds and changes nothing.
pub proof fn lemma_delete_twice<D>(id: String, t: DynamoTable<D>)
    ensures
        ({
            let once = with_items(t, t.items.remove(id@));
            &&& run(DynamoItemRequest::Waiting { op: Operation::Delete, id }, DynamoWork::<D>::DeleteItem { id }, t, 1)
                == Some((once, Ok::<(), BackingError>(())))
            &&& run(DynamoItemRequest::Waiting { op: Operation::Delete, id }, DynamoWork::<D>::DeleteItem { id }, once, 1)
                == Some((once, Ok::<(), BackingError>(())))
        }),
{
    let once = with_items(t, t.items.remove(id@));
    lemma_delete_removes(id, t);
    lemma_delete_removes(id, once);
    assert(once.items.remove(id@) =~= once.items);
}

/// Removing a job that upsert stored under a new id gives the table back as
/// it was; a recovery then hands out no job with that id.
pub proof fn lemma_delete_undoes_upsert<D>(job: ScheduledJob<D>, t: DynamoTable<D>)
    requires
        !t.items.contains_key(job.id@),
        pages_list(t),
        ids_match_items(t),
    ensures
        ({
            let stored = with_items(t, t.items.insert(job.id@, StoredItem { data: Some((t.encode)(job)), last_run: None }));
            &&& run(DynamoUpsert::Encoding { id: job.id }, DynamoWork::Encode(job), t, 2)
                == Some((stored, Ok::<(), BackingError>(())))
            &&& run(
                DynamoItemRequest::Waiting { op: Operation::Delete, id: job.id },
                DynamoWork::<D>::DeleteItem { id: job.id },
                stored,
                1,
            ) == Some((t, Ok::<(), BackingError>(())))
            &&& recover(DynamoRecover::Scanning, DynamoWork::<D>::Scan { from_last: false }, t, pages_work(t, 0))
                matches Some((_, items)) && none_with(items, job.id@)
        }),
{
    let stored = with_items(t, t.items.insert(job.id@, StoredItem { data: Some((t.encode)(job)), last_run: None }));
    lemma_upsert_stores(job, t);
    lemma_delete_removes(job.id, stored);
    assert(stored.items.remove(job.id@) =~= t.items);
    assert(with_items(stored, stored.items.remove(job.id@)) == t);
    lemma_table_decodable(t);
    lemma_recover_reads_all(t);
    assert forall|p: int, i: int|
        0 <= p < t.pages.len() && 0 <= i < t.pages[p]@.len() && !(p == -1 && i == -1) implies decodes_to_other(
        t,
        #[trigger] item_at(t, p, i),
        job.id@,
    ) by {
        let key = key_of(item_at(t, p, i))->0;
        assert(t.items.contains_key(key@));
    }
    lemma_pages_count(t, job, -1, -1, 0);
}

} // verus!
