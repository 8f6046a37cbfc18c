//! Scheduled jobs and the instants at which they last ran.
use vstd::prelude::*;

verus! {

/// The earliest second, counted from the Unix epoch, that chrono's
/// `DateTime<Utc>` can hold (1 January of the year -262143).
pub const MIN_UNIX_SECS: i64 = -8334601228800i64;

/// The latest second, counted from the Unix epoch, that chrono's
/// `DateTime<Utc>` can hold (the last second of the year 262142).
pub const MAX_UNIX_SECS: i64 = 8210266876799i64;

/// `(secs, nanos)` names an instant that chrono's `DateTime<Utc>` can hold:
/// `secs` whole seconds after the Unix epoch plus `nanos` nanoseconds, where a
/// nanosecond count of a second or more marks a leap second and is only
/// allowed in the last second of a minute.
pub open spec fn instant_in_range(secs: int, nanos: int) -> bool {
    &&& MIN_UNIX_SECS <= secs <= MAX_UNIX_SECS
    &&& 0 <= nanos < 2_000_000_000
    &&& nanos >= 1_000_000_000 ==> secs % 60 == 59
}

/// The RFC 3339 text of the UTC instant `(secs, nanos)` with nine digits of
/// fractional seconds and the zone written `Z`, as chrono's
/// `DateTime::to_rfc3339_opts(SecondsFormat::Nanos, true)` writes it.
pub uninterp spec fn rfc3339_nanos_utc(secs: i64, nanos: u32) -> Seq<char>;

/// Formats an instant with chrono: `DateTime::<Utc>::from_timestamp` followed
/// by `to_rfc3339_opts(SecondsFormat::Nanos, true)`.  The contract claims that
/// chrono accepts exactly the instants of `instant_in_range` (the bounds are
/// those of chrono's `NaiveDate::MIN` and `MAX` and of
/// `NaiveTime::from_num_seconds_from_midnight_opt`) and that the text is
/// chrono's, a function of the two numbers alone.
#[verifier::external_body]
fn format_rfc3339_nanos(secs: i64, nanos: u32) -> (text: Option<String>)
    ensures
        text is Some <==> instant_in_range(secs as int, nanos as int),
        text matches Some(t) ==> t@ == rfc3339_nanos_utc(secs, nanos),
{
    match chrono::DateTime::from_timestamp(secs, nanos) {
        Some(instant) => Some(instant.to_rfc3339_opts(chrono::SecondsFormat::Nanos, true)),
        None => None,
    }
}

/// A UTC instant: whole seconds since the Unix epoch and the nanoseconds
/// after them.  Every value names an instant that chrono can hold.
#[derive(Clone, Copy, Debug)]
pub struct Timestamp {
    secs: i64,
    nanos: u32,
}

impl Timestamp {
    #[verifier::type_invariant]
    spec fn well_formed(self) -> bool {
        instant_in_range(self.secs as int, self.nanos as int)
    }

    /// The seconds since the Unix epoch.
    pub closed spec fn spec_secs(self) -> i64 {
        self.secs
    }

    /// The nanoseconds after the last whole second.
    pub closed spec fn spec_nanos(self) -> u32 {
        self.nanos
    }

    /// The instant `secs` seconds and `nanos` nanoseconds after the Unix
    /// epoch, or `None` when chrono cannot hold it.
    pub fn new(secs: i64, nanos: u32) -> (t: Option<Timestamp>)
        ensures
            t is Some <==> instant_in_range(secs as int, nanos as int),
            t matches Some(t) ==> t.spec_secs() == secs && t.spec_nanos() == nanos,
    {
        if MIN_UNIX_SECS <= secs && secs <= MAX_UNIX_SECS && nanos < 2_000_000_000 && (nanos
            < 1_000_000_000 || secs % 60 == 59 || secs % 60 == -1) {
            Some(Timestamp { secs, nanos })
        } else {
            None
        }
    }

    /// The seconds since the Unix epoch.
    pub fn secs(&self) -> (s: i64)
        ensures
            s == self.spec_secs(),
    {
        self.secs
    }

    /// The nanoseconds after the last whole second.
    pub fn nanos(&self) -> (n: u32)
        ensures
            n == self.spec_nanos(),
    {
        self.nanos
    }

    /// The instant as RFC 3339 text with nanoseconds and `Z` for UTC.
    pub fn to_rfc3339(&self) -> (text: String)
        ensures
            text@ == rfc3339_nanos_utc(self.spec_secs(), self.spec_nanos()),
    {
        proof {
            use_type_invariant(self);
        }
        match format_rfc3339_nanos(self.secs, self.nanos) {
            Some(text) => text,
            None => {
                proof {
                    assert(false);
                }
                String::new()
            },
        }
    }
}

/// A job of the scheduler as a backing store sees it: its id, the instant it
/// last ran, if it has run, and the rest of the job, which the stores carry
/// without reading it.
#[derive(Clone, Debug)]
pub struct ScheduledJob<D> {
    pub id: String,
    pub last_run: Option<Timestamp>,
    pub details: D,
}

/// The job `job` with its last run set to `t`.
pub open spec fn ran_at<D>(job: ScheduledJob<D>, t: Timestamp) -> ScheduledJob<D> {
    ScheduledJob { last_run: Some(t), ..job }
}

/// Recording a run at `t` leaves the job with `t` as its last run, whatever
/// its last run was before, and keeps its id and the rest of it.
pub proof fn lemma_ran_at<D>(job: ScheduledJob<D>, t: Timestamp)
    ensures
        ran_at(job, t).last_run == Some(t),
        ran_at(job, t).id == job.id,
        ran_at(job, t).details == job.details,
{
}

impl<D> ScheduledJob<D> {
    /// Records that the job ran at `t`.
    pub fn set_last_run(&mut self, t: Timestamp)
        ensures
            *final(self) == ran_at(*old(self), t),
            final(self).last_run == Some(t),
            final(self).id == old(self).id,
            final(self).details == old(self).details,
    {
        self.last_run = Some(t);
    }
}

} // verus!
