//! The steps that a store operation hands to whoever runs it.
use vstd::prelude::*;
use crate::error::{BackingError, Operation, is_job_error, is_recovery_error};
use crate::job::ScheduledJob;

verus! {

/// What an operation that ends in one result asks for next: a piece of
/// outside work, after which the operation is resumed with its outcome, or
/// the end of the operation with its result.
#[derive(Debug)]
pub enum Step<W> {
    Run(W),
    Finish(Result<(), BackingError>),
}

/// What a recovery, which hands out a stream of jobs, asks for next: a piece
/// of outside work; a stream item to hand out, followed by the work to run
/// after it or, where there is none, the end of the stream; or the end of the
/// stream.
#[derive(Debug)]
pub enum StreamStep<W, D> {
    Run(W),
    Emit(Result<ScheduledJob<D>, BackingError>, Option<W>),
    End,
}

/// An operation seen as a state machine that ends in one result: which
/// outcomes each state takes, and the state and step that follow each.
pub trait OperationMachine<W, O>: Sized {
    spec fn answers(self, o: O) -> bool;

    spec fn advance(self, o: O) -> (Self, Step<W>);
}

/// A recovery seen as a state machine: which outcomes each state takes, and
/// the state and step that follow each.
pub trait RecoveryMachine<W, O, D>: Sized {
    spec fn answers(self, o: O) -> bool;

    spec fn advance(self, o: O) -> (Self, StreamStep<W, D>);
}

/// A model of the outside world that an operation talks to: the outcome of
/// each piece of work, and the world after it.
pub trait World<W, O>: Sized {
    spec fn outcome(self, w: W) -> O;

    spec fn after(self, w: W) -> Self;
}

/// Runs the operation in state `m`, which has asked for `w`, against the
/// world `env` for at most `fuel` pieces of work: the world afterwards and
/// the operation's result, or `None` when the operation has not finished by
/// then or the world answers with an outcome that the state does not take.
pub open spec fn run<M: OperationMachine<W, O>, E: World<W, O>, W, O>(m: M, w: W, env: E, fuel: nat) -> Option<
    (E, Result<(), BackingError>),
>
    decreases fuel,
{
    if fuel == 0 {
        None
    } else {
        let o = env.outcome(w);
        let env2 = env.after(w);
        if !m.answers(o) {
            None
        } else {
            match m.advance(o) {
                (_, Step::Finish(r)) => Some((env2, r)),
                (m2, Step::Run(w2)) => run(m2, w2, env2, (fuel - 1) as nat),
            }
        }
    }
}

/// Runs the recovery in state `m`, which has asked for `w`, against the
/// world `env` for at most `fuel` pieces of work: the world afterwards and
/// the items that the recovery handed out, in order, or `None` when the
/// recovery has not ended by then or the world answers with an outcome that
/// the state does not take.
pub open spec fn recover<M: RecoveryMachine<W, O, D>, E: World<W, O>, W, O, D>(m: M, w: W, env: E, fuel: nat) -> Option<
    (E, Seq<Result<ScheduledJob<D>, BackingError>>),
>
    decreases fuel,
{
    if fuel == 0 {
        None
    } else {
        let o = env.outcome(w);
        let env2 = env.after(w);
        if !m.answers(o) {
            None
        } else {
            match m.advance(o) {
                (_, StreamStep::End) => Some((env2, Seq::empty())),
                (_, StreamStep::Emit(item, None)) => Some((env2, seq![item])),
                (m2, StreamStep::Emit(item, Some(w2))) => match recover(m2, w2, env2, (fuel - 1) as nat) {
                    Some((env3, items)) => Some((env3, seq![item] + items)),
                    None => None,
                },
                (m2, StreamStep::Run(w2)) => recover(m2, w2, env2, (fuel - 1) as nat),
            }
        }
    }
}

/// The step reports the failure, if the outcome was one, as the error of
/// operation `op` on the job `job_id`, with the failure's message and
/// retryability, and ends the operation; when the outcome was no failure,
/// the step reports no error.
pub open spec fn reports_failure<W>(
    step: Step<W>,
    op: Operation,
    job_id: Seq<char>,
    failure: Option<(String, bool)>,
) -> bool {
    match failure {
        Some((m, r)) => step matches Step::Finish(Err(e)) && is_job_error(e, op, job_id, m@, r),
        None => !(step matches Step::Finish(Err(_))),
    }
}

/// The step of a recovery hands out the failure, if the outcome was one, as
/// a recovery error with the failure's message and retryability, and then
/// ends the stream; when the outcome was no failure, it hands out no error.
pub open spec fn hands_out_failure<W, D>(step: StreamStep<W, D>, failure: Option<(String, bool)>) -> bool {
    match failure {
        Some((m, r)) => step matches StreamStep::Emit(Err(e), None) && is_recovery_error(e, m@, r),
        None => !(step matches StreamStep::Emit(Err(_), _)),
    }
}

/// The item is a job with the id `id`.
pub open spec fn holds_job<D>(r: Result<ScheduledJob<D>, BackingError>, id: Seq<char>) -> bool {
    r matches Ok(j) && j.id@ == id
}

/// No item of the stream is a job with the id `id`.
pub open spec fn none_with<D>(items: Seq<Result<ScheduledJob<D>, BackingError>>, id: Seq<char>) -> bool {
    forall|m: int| 0 <= m < items.len() ==> !holds_job(#[trigger] items[m], id)
}

/// The stream hands out `job` once, and no other job with its id.
pub open spec fn exactly_one<D>(items: Seq<Result<ScheduledJob<D>, BackingError>>, job: ScheduledJob<D>) -> bool {
    exists|n: int|
        0 <= n < items.len() && items[n] == Ok::<ScheduledJob<D>, BackingError>(job) && forall|m: int|
            0 <= m < items.len() && m != n ==> !holds_job(#[trigger] items[m], job.id@)
}

/// An item that is no job with the id, put before a stream without one,
/// gives a stream without one.
pub proof fn lemma_none_cons<D>(
    x: Result<ScheduledJob<D>, BackingError>,
    rest: Seq<Result<ScheduledJob<D>, BackingError>>,
    id: Seq<char>,
)
    requires
        !holds_job(x, id),
        none_with(rest, id),
    ensures
        none_with(seq![x] + rest, id),
{
    let s = seq![x] + rest;
    assert forall|m: int| 0 <= m < s.len() implies !holds_job(#[trigger] s[m], id) by {
        if m > 0 {
            assert(s[m] == rest[m - 1]);
        }
    }
}

/// The job put before a stream without another job of its id is handed out
/// once.
pub proof fn lemma_one_cons_here<D>(job: ScheduledJob<D>, rest: Seq<Result<ScheduledJob<D>, BackingError>>)
    requires
        none_with(rest, job.id@),
    ensures
        exactly_one(seq![Ok(job)] + rest, job),
{
    let s = seq![Ok::<ScheduledJob<D>, BackingError>(job)] + rest;
    assert forall|m: int| 0 <= m < s.len() && m != 0 implies !holds_job(#[trigger] s[m], job.id@) by {
        assert(s[m] == rest[m - 1]);
    }
    assert(s[0] == Ok::<ScheduledJob<D>, BackingError>(job));
}

/// An item that is no job with the id of `job`, put before a stream that
/// hands out `job` once, keeps it handed out once.
pub proof fn lemma_one_cons_later<D>(
    x: Result<ScheduledJob<D>, BackingError>,
    rest: Seq<Result<ScheduledJob<D>, BackingError>>,
    job: ScheduledJob<D>,
)
    requires
        !holds_job(x, job.id@),
        exactly_one(rest, job),
    ensures
        exactly_one(seq![x] + rest, job),
{
    let s = seq![x] + rest;
    let n = choose|n: int|
        0 <= n < rest.len() && rest[n] == Ok::<ScheduledJob<D>, BackingError>(job) && forall|m: int|
            0 <= m < rest.len() && m != n ==> !holds_job(#[trigger] rest[m], job.id@);
    assert(s[n + 1] == rest[n]);
    assert forall|m: int| 0 <= m < s.len() && m != n + 1 implies !holds_job(#[trigger] s[m], job.id@) by {
        if m > 0 {
            assert(s[m] == rest[m - 1]);
        }
    }
}

/// Joining two streams without a job of the id gives one without.
pub proof fn lemma_none_concat<D>(
    a: Seq<Result<ScheduledJob<D>, BackingError>>,
    b: Seq<Result<ScheduledJob<D>, BackingError>>,
    id: Seq<char>,
)
    requires
        none_with(a, id),
        none_with(b, id),
    ensures
        none_with(a + b, id),
{
    let s = a + b;
    assert forall|m: int| 0 <= m < s.len() implies !holds_job(#[trigger] s[m], id) by {
        if m < a.len() {
            assert(s[m] == a[m]);
        } else {
            assert(s[m] == b[m - a.len()]);
        }
    }
}

/// Joining a stream that hands out `job` once with one that has no job of
/// its id, in either order, hands out `job` once.
pub proof fn lemma_one_concat<D>(
    a: Seq<Result<ScheduledJob<D>, BackingError>>,
    b: Seq<Result<ScheduledJob<D>, BackingError>>,
    job: ScheduledJob<D>,
)
    requires
        (exactly_one(a, job) && none_with(b, job.id@)) || (none_with(a, job.id@) && exactly_one(b, job)),
    ensures
        exactly_one(a + b, job),
{
    let s = a + b;
    if exactly_one(a, job) && none_with(b, job.id@) {
        let n = choose|n: int|
            0 <= n < a.len() && a[n] == Ok::<ScheduledJob<D>, BackingError>(job) && forall|m: int|
                0 <= m < a.len() && m != n ==> !holds_job(#[trigger] a[m], job.id@);
        assert(s[n] == a[n]);
        assert forall|m: int| 0 <= m < s.len() && m != n implies !holds_job(#[trigger] s[m], job.id@) by {
            if m < a.len() {
                assert(s[m] == a[m]);
            } else {
                assert(s[m] == b[m - a.len()]);
            }
        }
    } else {
        let n = choose|n: int|
            0 <= n < b.len() && b[n] == Ok::<ScheduledJob<D>, BackingError>(job) && forall|m: int|
                0 <= m < b.len() && m != n ==> !holds_job(#[trigger] b[m], job.id@);
        assert(s[a.len() + n] == b[n]);
        assert forall|m: int| 0 <= m < s.len() && m != a.len() + n implies !holds_job(#[trigger] s[m], job.id@) by {
            if m < a.len() {
                assert(s[m] == a[m]);
            } else {
                assert(s[m] == b[m - a.len()]);
            }
        }
    }
}

} // verus!
