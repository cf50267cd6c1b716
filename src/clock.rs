use vstd::prelude::*;

use chrono::Utc;

verus! {

/// Why a time source could not report the current time.
#[derive(Debug, Copy, Clone, PartialEq, Eq, Structural)]
pub enum TimeSourceError {
    /// A manual source was queried before any time was set on it.
    DateTimeNotSet,
}

/// Something that reports the current time as a value of type `T`.
///
/// `T` is the timestamp representation, and with it the time zone or offset
/// the reading is expressed in; a source performs no conversion between them.
pub trait TimeSource<T>: Sized + core::fmt::Debug + Clone + Send + Sync {
    /// Holds of every result that `now` may return from this source.
    spec fn may_report(&self, r: Result<T, TimeSourceError>) -> bool;

    /// The current time, or why it cannot be told. Querying changes nothing.
    fn now(&self) -> (r: Result<T, TimeSourceError>)
        ensures
            self.may_report(r),
    ;
}

/// An instant on the UTC time line, as a count since 1970-01-01T00:00:00Z.
#[derive(Debug, Copy, Clone, PartialEq, Eq, Structural)]
pub struct Timestamp {
    /// Whole non-leap seconds since the epoch; negative before it.
    pub secs: i64,
    /// Nanoseconds past `secs`; a value of a second or more marks a leap second.
    pub nanos: u32,
}

/// Relies on chrono's `Utc::now`, which reads the host clock, and on
/// `DateTime::timestamp` / `timestamp_subsec_nanos`, which take the reading
/// apart. `Utc::now` builds its value from the time elapsed since the epoch,
/// so the seconds are not negative and the nanoseconds stay under a second.
/// It panics when the host clock reads before the epoch, a state of the host
/// that no argument could rule out.
#[verifier::external_body]
fn host_utc_now() -> (r: Timestamp)
    ensures
        r.secs >= 0,
        r.nanos < 1_000_000_000,
{
    let now = Utc::now();
    Timestamp { secs: now.timestamp(), nanos: now.timestamp_subsec_nanos() }
}

/// The host's wall clock, read in UTC.
#[derive(Debug, Copy, Clone)]
pub struct UtcTimeSource;

impl TimeSource<Timestamp> for UtcTimeSource {
    /// The host clock always gives a reading, at or after the epoch and with
    /// a sub-second part under one second.
    open spec fn may_report(&self, r: Result<Timestamp, TimeSourceError>) -> bool {
        match r {
            Ok(t) => t.secs >= 0 && t.nanos < 1_000_000_000,
            Err(_) => false,
        }
    }

    fn now(&self) -> (r: Result<Timestamp, TimeSourceError>) {
        Ok(host_utc_now())
    }
}

/// A time source whose reading is whatever was last set on it.
///
/// It does no locking of its own: to share one between owners, put it behind
/// the synchronised handle that the owners' concurrency model calls for.
#[derive(Debug, Clone)]
pub struct ManualTimeSource<T> {
    instant: Option<T>,
}

impl<T> ManualTimeSource<T> {
    /// The timestamp last set, if any.
    pub closed spec fn view(&self) -> Option<T> {
        self.instant
    }

    /// What `now` reports: the timestamp last set, or the error when none was set.
    pub open spec fn reading(&self) -> Result<T, TimeSourceError> {
        match self@ {
            Some(t) => Ok(t),
            None => Err(TimeSourceError::DateTimeNotSet),
        }
    }

    /// A source on which no time has been set yet.
    pub fn new() -> (r: Self)
        ensures
            r@ == None::<T>,
    {
        ManualTimeSource { instant: None }
    }

    /// Replaces the stored timestamp with `now`, whatever was stored before.
    pub fn set_now(&mut self, now: T)
        ensures
            final(self)@ == Some(now),
    {
        self.instant = Some(now);
    }
}

impl<T: Copy + core::fmt::Debug + Send + Sync> TimeSource<T> for ManualTimeSource<T> {
    /// The reading is exactly the timestamp last set, or the error when none was set.
    open spec fn may_report(&self, r: Result<T, TimeSourceError>) -> bool {
        r == self.reading()
    }

    fn now(&self) -> (r: Result<T, TimeSourceError>) {
        match &self.instant {
            Some(t) => Ok(*t),
            None => Err(TimeSourceError::DateTimeNotSet),
        }
    }
}

/// A source on which no time has been set, as `new` leaves it, can only
/// report that no time is set.
pub proof fn unset_source_reports_not_set<T: Copy + core::fmt::Debug + Send + Sync>(
    s: ManualTimeSource<T>,
)
    requires
        s@ == None::<T>,
    ensures
        forall|r: Result<T, TimeSourceError>|
            #[trigger] s.may_report(r) <==> r == Err::<T, TimeSourceError>(
                TimeSourceError::DateTimeNotSet,
            ),
{
}

/// Once `t` has been set on a source, `now` reports exactly `t`.
pub proof fn reads_back_value_set<T: Copy + core::fmt::Debug + Send + Sync>(
    s: ManualTimeSource<T>,
    t: T,
)
    requires
        s@ == Some(t),
    ensures
        forall|r: Result<T, TimeSourceError>| #[trigger] s.may_report(r) <==> r == Ok::<T, TimeSourceError>(t),
{
}

/// Setting replaces rather than merges: a source that held `t1` and then had
/// `t2` set on it reports `t2`, and no longer what it reported before unless
/// the two values are the same.
pub proof fn last_set_wins<T: Copy + core::fmt::Debug + Send + Sync>(
    before: ManualTimeSource<T>,
    after: ManualTimeSource<T>,
    t1: T,
    t2: T,
)
    requires
        before@ == Some(t1),
        after@ == Some(t2),
    ensures
        forall|r: Result<T, TimeSourceError>| #[trigger] after.may_report(r) <==> r == Ok::<T, TimeSourceError>(t2),
        t1 != t2 ==> after.reading() != before.reading(),
{
}

} // verus!
