//! A model of a Redis server, and what the Redis store's operations do to
//! it when every call succeeds.
use vstd::prelude::*;
use crate::error::{BackingError, Operation};
use crate::job::{ScheduledJob, Timestamp, lemma_ran_at, ran_at};
use crate::machine::{
    OperationMachine, RecoveryMachine, Step, StreamStep, World, exactly_one, hands_out_failure,
    holds_job, none_with, recover, reports_failure, run,
};
use crate::redis::{
    RedisDelete, RedisFailure, RedisOutcome, RedisRecover, RedisTouch, RedisUpsert, RedisWork,
};

verus! {

impl<D> OperationMachine<RedisWork<D>, RedisOutcome<D>> for RedisUpsert<D> {
    open spec fn answers(self, o: RedisOutcome<D>) -> bool {
        self.accepts(o)
    }

    open spec fn advance(self, o: RedisOutcome<D>) -> (Self, Step<RedisWork<D>>) {
        self.next(o)
    }
}

impl<D> OperationMachine<RedisWork<D>, RedisOutcome<D>> for RedisTouch {
    open spec fn answers(self, o: RedisOutcome<D>) -> bool {
        self.accepts(o)
    }

    open spec fn advance(self, o: RedisOutcome<D>) -> (Self, Step<RedisWork<D>>) {
        self.next(o)
    }
}

impl<D> OperationMachine<RedisWork<D>, RedisOutcome<D>> for RedisDelete {
    open spec fn answers(self, o: RedisOutcome<D>) -> bool {
        self.accepts(o)
    }

    open spec fn advance(self, o: RedisOutcome<D>) -> (Self, Step<RedisWork<D>>) {
        self.next(o)
    }
}

impl<D> RecoveryMachine<RedisWork<D>, RedisOutcome<D>, D> for RedisRecover {
    open spec fn answers(self, o: RedisOutcome<D>) -> bool {
        self.accepts(o)
    }

    open spec fn advance(self, o: RedisOutcome<D>) -> (Self, StreamStep<RedisWork<D>, D>) {
        self.next(o)
    }
}

/// A Redis server whose calls all succeed, and the codec of the store.
/// `db` maps each key to its value; `keys` is the server's answer to
/// `KEYS *`; `encode` and `decode` are the codec, `decode` giving `None` when
/// the text holds no job, in which case it fails with `codec_error`; a `GET`
/// of a missing key fails with `missing`.
#[verifier::reject_recursive_types(D)]
pub struct RedisServer<D> {
    pub db: Map<Seq<char>, String>,
    pub keys: Vec<String>,
    pub encode: spec_fn(ScheduledJob<D>) -> String,
    pub decode: spec_fn(String) -> Option<ScheduledJob<D>>,
    pub codec_error: String,
    pub missing: RedisFailure,
}

impl<D> World<RedisWork<D>, RedisOutcome<D>> for RedisServer<D> {
    open spec fn outcome(self, w: RedisWork<D>) -> RedisOutcome<D> {
        match w {
            RedisWork::Encode(job) => RedisOutcome::Text((self.encode)(job)),
            RedisWork::Decode(text) => match (self.decode)(text) {
                Some(job) => RedisOutcome::Decoded(job),
                None => RedisOutcome::CodecFailed(self.codec_error),
            },
            RedisWork::Get { key } => if self.db.contains_key(key@) {
                RedisOutcome::Text(self.db[key@])
            } else {
                RedisOutcome::Failed(self.missing)
            },
            RedisWork::ListKeys => RedisOutcome::Keys(self.keys),
            _ => RedisOutcome::Done,
        }
    }

    open spec fn after(self, w: RedisWork<D>) -> Self {
        match w {
            RedisWork::Put { key, value } => RedisServer { db: self.db.insert(key@, value), ..self },
            RedisWork::Del { key } => RedisServer { db: self.db.remove(key@), ..self },
            _ => self,
        }
    }
}

/// The server with `db` in place of its data.
pub open spec fn with_db<D>(env: RedisServer<D>, db: Map<Seq<char>, String>) -> RedisServer<D> {
    RedisServer { db, ..env }
}

/// Storing a job puts its encoding under its id and succeeds.
pub proof fn lemma_upsert_stores<D>(job: ScheduledJob<D>, env: RedisServer<D>)
    ensures
        run(RedisUpsert::Connecting { job }, RedisWork::Connect, env, 3)
            == Some((with_db(env, env.db.insert(job.id@, (env.encode)(job))), Ok::<(), BackingError>(()))),
{
    reveal_with_fuel(run, 4);
}

/// Recording a run of a stored job reads the job under `job_id`, sets its
/// last run and stores its encoding under the job's own id, and succeeds.
pub proof fn lemma_touch_records<D>(job_id: String, last_run: Timestamp, env: RedisServer<D>)
    requires
        env.db.contains_key(job_id@),
        (env.decode)(env.db[job_id@]) is Some,
    ensures
        ({
            let job = (env.decode)(env.db[job_id@])->0;
            run(RedisTouch::Connecting { job_id, last_run }, RedisWork::<D>::Connect, env, 5)
                == Some((
                with_db(env, env.db.insert(job.id@, (env.encode)(ran_at(job, last_run)))),
                Ok::<(), BackingError>(()),
            ))
        }),
{
    reveal_with_fuel(run, 6);
}

/// Recording a run of a job whose stored text does not decode fails with a
/// touch error that is not worth retrying, and changes nothing.
pub proof fn lemma_touch_undecodable<D>(job_id: String, last_run: Timestamp, env: RedisServer<D>)
    requires
        env.db.contains_key(job_id@),
        (env.decode)(env.db[job_id@]) is None,
    ensures
        run(RedisTouch::Connecting { job_id, last_run }, RedisWork::<D>::Connect, env, 3)
            == Some((
            env,
            Err::<(), BackingError>(BackingError::Touch { job_id, message: env.codec_error, is_retryable: false }),
        )),
{
    reveal_with_fuel(run, 4);
}

/// Removing a job deletes its key and succeeds.
pub proof fn lemma_delete_removes<D>(job_id: String, env: RedisServer<D>)
    ensures
        run(RedisDelete::Connecting { job_id }, RedisWork::<D>::Connect, env, 2)
            == Some((with_db(env, env.db.remove(job_id@)), Ok::<(), BackingError>(()))),
{
    reveal_with_fuel(run, 3);
}

/// Every key that `KEYS *` lists from position `from` on is stored, and its
/// value decodes.
pub open spec fn readable<D>(env: RedisServer<D>, from: int) -> bool {
    forall|k: int|
        from <= k < env.keys@.len() ==> {
            &&& #[trigger] env.db.contains_key(env.keys@[k]@)
            &&& (env.decode)(env.db[env.keys@[k]@]) is Some
        }
}

/// The jobs decoded from the values of the listed keys, from position `from`
/// on, in the order of the listing.
pub open spec fn listed_jobs<D>(env: RedisServer<D>, from: int) -> Seq<
    Result<ScheduledJob<D>, BackingError>,
> {
    Seq::new(
        (env.keys@.len() - from) as nat,
        |k: int| Ok((env.decode)(env.db[env.keys@[from + k]@])->0),
    )
}

/// Reading on from the listed key `i` hands out the jobs of the remaining
/// keys in order.
proof fn lemma_reads_from<D>(env: RedisServer<D>, i: int)
    requires
        0 <= i < env.keys@.len(),
        readable(env, i),
    ensures
        recover(
            RedisRecover::Reading { ids: env.keys, next: i as usize },
            RedisWork::<D>::Get { key: env.keys@[i] },
            env,
            (2 * (env.keys@.len() - i)) as nat,
        ) == Some((env, listed_jobs(env, i))),
    decreases env.keys@.len() - i,
{
    broadcast use vstd::std_specs::vec::axiom_spec_len;
    assert(env.keys@.len() == env.keys.len());
    reveal_with_fuel(recover, 3);
    assert(env.db.contains_key(env.keys@[i]@));
    let job = (env.decode)(env.db[env.keys@[i]@])->0;
    if i + 1 < env.keys@.len() {
        assert forall|k: int| i + 1 <= k < env.keys@.len() implies {
            &&& #[trigger] env.db.contains_key(env.keys@[k]@)
            &&& (env.decode)(env.db[env.keys@[k]@]) is Some
        } by {
            assert(i <= k);
        }
        lemma_reads_from(env, i + 1);
        assert(seq![Ok::<ScheduledJob<D>, BackingError>(job)] + listed_jobs(env, i + 1) =~= listed_jobs(env, i));
    } else {
        assert(seq![Ok::<ScheduledJob<D>, BackingError>(job)] =~= listed_jobs(env, i));
    }
}

/// A recovery hands out the job stored under each listed key, in the order
/// of the listing, and changes nothing.
pub proof fn lemma_recover_reads_all<D>(env: RedisServer<D>)
    requires
        readable(env, 0),
    ensures
        recover(RedisRecover::Connecting, RedisWork::<D>::Connect, env, (2 + 2 * env.keys@.len()) as nat)
            == Some((env, listed_jobs(env, 0))),
{
    reveal_with_fuel(recover, 3);
    if env.keys@.len() > 0 {
        lemma_reads_from(env, 0);
    } else {
        assert(listed_jobs(env, 0) =~= Seq::empty());
    }
}

/// The codec reads back every job it writes.
pub open spec fn round_trips<D>(env: RedisServer<D>) -> bool {
    forall|j: ScheduledJob<D>| #[trigger] (env.decode)((env.encode)(j)) == Some(j)
}

/// With a codec that reads back what it writes, a job that upsert stored and
/// touch then marked as run at `t` is handed back by a recovery whose listing
/// names its id, with `t` as its last run.
pub proof fn lemma_touched_job_recovered<D>(
    job: ScheduledJob<D>,
    t: Timestamp,
    env: RedisServer<D>,
    p: int,
)
    requires
        round_trips(env),
        0 <= p < env.keys@.len(),
        env.keys@[p]@ == job.id@,
        readable(with_db(env, env.db.insert(job.id@, (env.encode)(ran_at(job, t)))), 0),
    ensures
        ({
            let stored = with_db(env, env.db.insert(job.id@, (env.encode)(job)));
            let touched = with_db(env, env.db.insert(job.id@, (env.encode)(ran_at(job, t))));
            &&& run(RedisUpsert::Connecting { job }, RedisWork::Connect, env, 3) == Some((stored, Ok::<(), BackingError>(())))
            &&& run(RedisTouch::Connecting { job_id: job.id, last_run: t }, RedisWork::<D>::Connect, stored, 5)
                == Some((touched, Ok::<(), BackingError>(())))
            &&& recover(RedisRecover::Connecting, RedisWork::<D>::Connect, touched, (2 + 2 * env.keys@.len()) as nat)
                matches Some((_, items)) && items[p] == Ok::<ScheduledJob<D>, BackingError>(ran_at(job, t))
                && (items[p] matches Ok(j) && j.last_run == Some(t) && j.id == job.id && j.details == job.details)
        }),
{
    let stored = with_db(env, env.db.insert(job.id@, (env.encode)(job)));
    let touched = with_db(env, env.db.insert(job.id@, (env.encode)(ran_at(job, t))));
    lemma_upsert_stores(job, env);
    assert((env.decode)((env.encode)(job)) == Some(job));
    lemma_touch_records(job.id, t, stored);
    assert(stored.db.insert(job.id@, (env.encode)(ran_at(job, t))) =~= touched.db);
    lemma_recover_reads_all(touched);
    assert((env.decode)((env.encode)(ran_at(job, t))) == Some(ran_at(job, t)));
    lemma_ran_at(job, t);
}

/// A job that was removed is not handed back by a recovery whose listing
/// names only stored keys: no listed key is its id.
pub proof fn lemma_deleted_job_not_listed<D>(job_id: String, env: RedisServer<D>)
    requires
        readable(with_db(env, env.db.remove(job_id@)), 0),
    ensures
        run(RedisDelete::Connecting { job_id }, RedisWork::<D>::Connect, env, 2)
            == Some((with_db(env, env.db.remove(job_id@)), Ok::<(), BackingError>(()))),
        forall|k: int| 0 <= k < env.keys@.len() ==> #[trigger] env.keys@[k]@ != job_id@,
{
    lemma_delete_removes(job_id, env);
    let removed = with_db(env, env.db.remove(job_id@));
    assert forall|k: int| 0 <= k < env.keys@.len() implies #[trigger] env.keys@[k]@ != job_id@ by {
        assert(removed.db.contains_key(removed.keys@[k]@));
    }
}

/// The message and retryability of a failed outcome: a failed Redis call is
/// retryable as its kind says, a failed encoding or decoding never.
pub open spec fn failure_of<D>(o: RedisOutcome<D>) -> Option<(String, bool)> {
    match o {
        RedisOutcome::Failed(f) => Some((f.message, f.retryable())),
        RedisOutcome::CodecFailed(m) => Some((m, false)),
        _ => None,
    }
}

/// The id of the job that a state of storing works on.
pub open spec fn upsert_job<D>(s: RedisUpsert<D>) -> String {
    match s {
        RedisUpsert::Connecting { job } => job.id,
        RedisUpsert::Encoding { job_id } => job_id,
        RedisUpsert::Storing { job_id } => job_id,
        RedisUpsert::Finished => arbitrary(),
    }
}

/// The id of the job that a state of recording a run works on: the id asked
/// for until the job is decoded, the decoded job's own id after.
pub open spec fn touch_job(s: RedisTouch) -> String {
    match s {
        RedisTouch::Connecting { job_id, .. } => job_id,
        RedisTouch::Reading { job_id, .. } => job_id,
        RedisTouch::Decoding { job_id, .. } => job_id,
        RedisTouch::Encoding { job_id } => job_id,
        RedisTouch::Storing { job_id } => job_id,
        RedisTouch::Finished => arbitrary(),
    }
}

/// The id of the job that a state of removing works on.
pub open spec fn delete_job(s: RedisDelete) -> String {
    match s {
        RedisDelete::Connecting { job_id } => job_id,
        RedisDelete::Removing { job_id } => job_id,
        RedisDelete::Finished => arbitrary(),
    }
}

/// Storing a job ends with an error exactly when a call or the encoding
/// fails, and the error is the upsert error of the job with the failure's
/// message and retryability; until it ends, it works on the same job.
pub proof fn lemma_upsert_failures<D>(s: RedisUpsert<D>, o: RedisOutcome<D>)
    requires
        s.accepts(o),
    ensures
        reports_failure(s.next(o).1, Operation::Upsert, upsert_job(s)@, failure_of(o)),
        !(s.next(o).0 is Finished) ==> upsert_job(s.next(o).0) == upsert_job(s),
{
}

/// Recording a run ends with an error exactly when a call, the decoding or
/// the encoding fails, and the error is the touch error, with the failure's
/// message and retryability, of the job asked for or, once it is decoded,
/// of the decoded job.
pub proof fn lemma_touch_failures<D>(s: RedisTouch, o: RedisOutcome<D>)
    requires
        s.accepts(o),
    ensures
        reports_failure(s.next(o).1, Operation::Touch, touch_job(s)@, failure_of(o)),
        !(s is Decoding) && !(s.next(o).0 is Finished) ==> touch_job(s.next(o).0) == touch_job(s),
        s is Decoding ==> (o matches RedisOutcome::Decoded(job) ==> touch_job(s.next(o).0) == job.id),
{
}

/// Removing a job ends with an error exactly when a call fails, and the
/// error is the delete error of the job with the failure's message and
/// retryability; until it ends, it works on the same job.
pub proof fn lemma_delete_failures<D>(s: RedisDelete, o: RedisOutcome<D>)
    requires
        s.accepts(o),
    ensures
        reports_failure(s.next(o).1, Operation::Delete, delete_job(s)@, failure_of(o)),
        !(s.next(o).0 is Finished) ==> delete_job(s.next(o).0) == delete_job(s),
{
}

/// A recovery hands out an error exactly when a call or a decoding fails,
/// with the failure's message and retryability, and then ends.
pub proof fn lemma_recover_failures<D>(s: RedisRecover, o: RedisOutcome<D>)
    requires
        s.accepts(o),
    ensures
        hands_out_failure(s.next(o).1, failure_of(o)),
{
}

/// The server's answer to `KEYS *` names every stored key, each once, and
/// nothing else.
pub open spec fn keys_listed<D>(env: RedisServer<D>) -> bool {
    &&& forall|i: int, j: int| 0 <= i < j < env.keys@.len() ==> env.keys@[i]@ != env.keys@[j]@
    &&& forall|i: int| 0 <= i < env.keys@.len() ==> #[trigger] env.db.contains_key(env.keys@[i]@)
    &&& forall|k: Seq<char>| env.db.contains_key(k) ==> exists|i: int| 0 <= i < env.keys@.len() && env.keys@[i]@ == k
}

/// Every stored value decodes to a job whose id is its key, as the store
/// keeps it: upsert writes each job under its own id.
pub open spec fn ids_match_keys<D>(env: RedisServer<D>) -> bool {
    forall|k: Seq<char>| #[trigger] env.db.contains_key(k) ==> ((env.decode)(env.db[k]) matches Some(j) && j.id@ == k)
}

/// A recovery of a server whose keys all hold jobs of their own ids, listed
/// each once, hands out no job with an id that is stored under no key.
proof fn lemma_recover_none<D>(env: RedisServer<D>, id: Seq<char>)
    requires
        keys_listed(env),
        ids_match_keys(env),
        !env.db.contains_key(id),
    ensures
        recover(RedisRecover::Connecting, RedisWork::<D>::Connect, env, (2 + 2 * env.keys@.len()) as nat)
            matches Some((_, items)) && none_with(items, id),
{
    assert forall|k: int| 0 <= k < env.keys@.len() implies {
        &&& #[trigger] env.db.contains_key(env.keys@[k]@)
        &&& (env.decode)(env.db[env.keys@[k]@]) is Some
    } by {
        assert(env.db.contains_key(env.keys@[k]@));
    }
    lemma_recover_reads_all(env);
    let items = listed_jobs(env, 0);
    assert forall|m: int| 0 <= m < items.len() implies !holds_job(#[trigger] items[m], id) by {
        assert(env.db.contains_key(env.keys@[m]@));
    }
}

/// A job survives a restart of the store: with a codec that reads back what
/// it writes, on a server whose keys hold jobs of their own ids, after upsert
/// stored the job, a recovery whose `KEYS *` lists the stored keys hands the
/// job back exactly once, and no other job with its id.
pub proof fn lemma_stored_job_recovered<D>(job: ScheduledJob<D>, env: RedisServer<D>)
    requires
        round_trips(env),
        ids_match_keys(env),
        keys_listed(with_db(env, env.db.insert(job.id@, (env.encode)(job)))),
    ensures
        ({
            let stored = with_db(env, env.db.insert(job.id@, (env.encode)(job)));
            &&& run(RedisUpsert::Connecting { job }, RedisWork::Connect, env, 3) == Some((stored, Ok::<(), BackingError>(())))
            &&& ids_match_keys(stored)
            &&& recover(RedisRecover::Connecting, RedisWork::<D>::Connect, stored, (2 + 2 * env.keys@.len()) as nat)
                matches Some((_, items)) && exactly_one(items, job)
        }),
{
    let stored = with_db(env, env.db.insert(job.id@, (env.encode)(job)));
    lemma_upsert_stores(job, env);
    assert((env.decode)((env.encode)(job)) == Some(job));
    assert forall|k: Seq<char>| #[trigger] stored.db.contains_key(k) implies ((stored.decode)(stored.db[k]) matches Some(j) && j.id@ == k) by {
        if k != job.id@ {
            assert(env.db.contains_key(k));
        }
    }
    assert forall|k: int| 0 <= k < stored.keys@.len() implies {
        &&& #[trigger] stored.db.contains_key(stored.keys@[k]@)
        &&& (stored.decode)(stored.db[stored.keys@[k]@]) is Some
    } by {
        assert(stored.db.contains_key(stored.keys@[k]@));
    }
    lemma_recover_reads_all(stored);
    let items = listed_jobs(stored, 0);
    assert(stored.db.contains_key(job.id@));
    let n = choose|i: int| 0 <= i < stored.keys@.len() && stored.keys@[i]@ == job.id@;
    assert(items[n] == Ok::<ScheduledJob<D>, BackingError>(job));
    assert forall|m: int| 0 <= m < items.len() && m != n implies !holds_job(#[trigger] items[m], job.id@) by {
        assert(stored.db.contains_key(stored.keys@[m]@));
        if m < n {
            assert(stored.keys@[m]@ != stored.keys@[n]@);
        } else {
            assert(stored.keys@[n]@ != stored.keys@[m]@);
        }
    }
}

/// Two upserts of jobs with the same id leave the server as the second one
/// alone does.
pub proof fn lemma_upsert_last_wins<D>(j1: ScheduledJob<D>, j2: ScheduledJob<D>, env: RedisServer<D>)
    requires
        j1.id@ == j2.id@,
    ensures
        ({
            let first = with_db(env, env.db.insert(j1.id@, (env.encode)(j1)));
            &&& run(RedisUpsert::Connecting { job: j1 }, RedisWork::Connect, env, 3) == Some((first, Ok::<(), BackingError>(())))
            &&& run(RedisUpsert::Connecting { job: j2 }, RedisWork::Connect, first, 3)
                == run(RedisUpsert::Connecting { job: j2 }, RedisWork::Connect, env, 3)
        }),
{
    let first = with_db(env, env.db.insert(j1.id@, (env.encode)(j1)));
    lemma_upsert_stores(j1, env);
    lemma_upsert_stores(j2, first);
    lemma_upsert_stores(j2, env);
    assert(first.db.insert(j2.id@, (env.encode)(j2)) =~= env.db.insert(j2.id@, (env.encode)(j2)));
}

/// A second removal of a job succeeds and changes nothing.
pub proof fn lemma_delete_twice<D>(job_id: String, env: RedisServer<D>)
    ensures
        ({
            let once = with_db(env, env.db.remove(job_id@));
            &&& run(RedisDelete::Connecting { job_id }, RedisWork::<D>::Connect, env, 2) == Some((once, Ok::<(), BackingError>(())))
            &&& run(RedisDelete::Connecting { job_id }, RedisWork::<D>::Connect, once, 2) == Some((once, Ok::<(), BackingError>(())))
        }),
{
    let once = with_db(env, env.db.remove(job_id@));
    lemma_delete_removes(job_id, env);
    lemma_delete_removes(job_id, once);
    assert(once.db.remove(job_id@) =~= once.db);
}

/// Removing a job that upsert stored under a new id gives the server back as
/// it was; a recovery then hands out no job with that id.
pub proof fn lemma_delete_undoes_upsert<D>(job: ScheduledJob<D>, env: RedisServer<D>)
    requires
        !env.db.contains_key(job.id@),
        keys_listed(env),
        ids_match_keys(env),
    ensures
        ({
            let stored = with_db(env, env.db.insert(job.id@, (env.encode)(job)));
            &&& run(RedisUpsert::Connecting { job }, RedisWork::Connect, env, 3) == Some((stored, Ok::<(), BackingError>(())))
            &&& run(RedisDelete::Connecting { job_id: job.id }, RedisWork::<D>::Connect, stored, 2)
                == Some((env, Ok::<(), BackingError>(())))
            &&& recover(RedisRecover::Connecting, RedisWork::<D>::Connect, env, (2 + 2 * env.keys@.len()) as nat)
                matches Some((_, items)) && none_with(items, job.id@)
        }),
{
    let stored = with_db(env, env.db.insert(job.id@, (env.encode)(job)));
    lemma_upsert_stores(job, env);
    lemma_delete_removes(job.id, stored);
    assert(stored.db.remove(job.id@) =~= env.db);
    assert(with_db(stored, stored.db.remove(job.id@)) == env);
    lemma_recover_none(env, job.id@);
}

/// Recording a run writes no key but the one asked for: on a server whose
/// keys hold jobs of their own ids, with a codec that reads back what it
/// writes, touch leaves every other key as it was and keeps every key
/// holding a job of its own id, whether the job exists or not.
pub proof fn lemma_touch_writes_own_key<D>(job_id: String, last_run: Timestamp, env: RedisServer<D>)
    requires
        round_trips(env),
        ids_match_keys(env),
    ensures
        run(RedisTouch::Connecting { job_id, last_run }, RedisWork::<D>::Connect, env, 5) matches Some((after, _)) && {
            &&& ids_match_keys(after)
            &&& after.db.dom() == env.db.dom()
            &&& forall|k: Seq<char>| k != job_id@ && #[trigger] env.db.contains_key(k) ==> after.db[k] == env.db[k]
        },
{
    reveal_with_fuel(run, 6);
    if env.db.contains_key(job_id@) {
        lemma_touch_records(job_id, last_run, env);
        let job = (env.decode)(env.db[job_id@])->0;
        let after = with_db(env, env.db.insert(job.id@, (env.encode)(ran_at(job, last_run))));
        assert(job.id@ == job_id@);
        assert((env.decode)((env.encode)(ran_at(job, last_run))) == Some(ran_at(job, last_run)));
        assert(after.db.dom() =~= env.db.dom());
        assert forall|k: Seq<char>| #[trigger] after.db.contains_key(k) implies ((after.decode)(after.db[k]) matches Some(j) && j.id@ == k) by {
            if k != job_id@ {
                assert(env.db.contains_key(k));
            }
        }
    }
}

/// A touch at `t` of a stored job leaves under the job's key a job that
/// decodes to the stored one with `t` as its last run, whatever its last run
/// was before, and with its id and the rest unchanged; a recovery then hands
/// it back with that last run.
pub proof fn lemma_touch_sets_last_run<D>(job: ScheduledJob<D>, t: Timestamp, env: RedisServer<D>)
    requires
        round_trips(env),
        env.db.contains_key(job.id@),
        (env.decode)(env.db[job.id@]) == Some(job),
    ensures
        run(RedisTouch::Connecting { job_id: job.id, last_run: t }, RedisWork::<D>::Connect, env, 5) matches Some((after, r))
            && r is Ok && after.db.contains_key(job.id@) && ((after.decode)(after.db[job.id@]) matches Some(j) && j.last_run
            == Some(t) && j.id == job.id && j.details == job.details),
{
    lemma_touch_records(job.id, t, env);
    lemma_ran_at(job, t);
    assert((env.decode)((env.encode)(ran_at(job, t))) == Some(ran_at(job, t)));
}

} // verus!
