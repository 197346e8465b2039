//! Timestamps and spans of time, counted in whole milliseconds.

use vstd::prelude::*;

verus! {

/// Milliseconds in one second.
pub const MILLIS_PER_SECOND: u64 = 1_000;

/// Milliseconds in one minute.
pub const MILLIS_PER_MINUTE: u64 = 60_000;

/// The largest number of whole seconds that `chrono::TimeDelta` can hold.
pub const MAX_SPAN_SECONDS: i64 = 9_223_372_036_854_775;

/// The largest number of whole minutes that `chrono::TimeDelta` can hold.
pub const MAX_SPAN_MINUTES: i64 = 153_722_867_280_912;

/// A point on the host's monotonic clock: the milliseconds that have passed
/// since an origin that the host picks once and keeps.
#[derive(Clone, Copy, Debug, PartialEq, Eq, Structural)]
pub struct Instant {
    pub millis: u64,
}

/// A span of time that is never negative.
#[derive(Clone, Copy, Debug, PartialEq, Eq, Structural)]
pub struct Duration {
    pub millis: u64,
}

/// A span of time with a direction: negative where it runs backwards.
#[derive(Clone, Copy, Debug, PartialEq, Eq, Structural)]
pub struct TimeDelta {
    pub millis: i64,
}

impl View for TimeDelta {
    type V = int;

    open spec fn view(&self) -> int {
        self.millis as int
    }
}

impl View for Instant {
    type V = nat;

    open spec fn view(&self) -> nat {
        self.millis as nat
    }
}

impl View for Duration {
    type V = nat;

    open spec fn view(&self) -> nat {
        self.millis as nat
    }
}

/// Calls `chrono::TimeDelta::try_seconds` and reads the span back with
/// `num_milliseconds`. chrono accepts a count of seconds whose magnitude is
/// at most `i64::MAX / 1000` and refuses every other; for an accepted count
/// the span holds exactly that many seconds and no fraction, so its
/// millisecond count is the count times one thousand.
#[verifier::external_body]
fn seconds_to_millis(seconds: i64) -> (millis: Option<i64>)
    ensures
        millis == (if -MAX_SPAN_SECONDS <= seconds <= MAX_SPAN_SECONDS {
            Some((seconds * 1_000) as i64)
        } else {
            None::<i64>
        }),
{
    match chrono::TimeDelta::try_seconds(seconds) {
        Some(delta) => Some(delta.num_milliseconds()),
        None => None,
    }
}

/// Calls `chrono::TimeDelta::try_minutes` and reads the span back with
/// `num_milliseconds`. chrono multiplies the count by sixty and then applies
/// the bound of `try_seconds`, so it accepts exactly the counts whose
/// magnitude is at most `i64::MAX / 60000`; the millisecond count of an
/// accepted span is the count times sixty thousand.
#[verifier::external_body]
fn minutes_to_millis(minutes: i64) -> (millis: Option<i64>)
    ensures
        millis == (if -MAX_SPAN_MINUTES <= minutes <= MAX_SPAN_MINUTES {
            Some((minutes * 60_000) as i64)
        } else {
            None::<i64>
        }),
{
    match chrono::TimeDelta::try_minutes(minutes) {
        Some(delta) => Some(delta.num_milliseconds()),
        None => None,
    }
}

impl Instant {
    /// The instant `millis` milliseconds after the origin.
    pub fn from_millis(millis: u64) -> (instant: Instant)
        ensures
            instant@ == millis,
    {
        Instant { millis }
    }

    /// Milliseconds since the origin.
    pub fn as_millis(&self) -> (millis: u64)
        ensures
            millis == self@,
    {
        self.millis
    }

    /// Whether `self + span` is still a timestamp that the clock can show.
    pub open spec fn fits(self, span: Duration) -> bool {
        self@ + span@ <= u64::MAX
    }

    /// The instant `span` after `self`.
    pub fn plus(self, span: Duration) -> (later: Instant)
        requires
            self.fits(span),
        ensures
            later@ == self@ + span@,
    {
        Instant { millis: self.millis + span.millis }
    }

    /// The time from `earlier` to `self`, and zero where `earlier` is in
    /// fact the later of the two.
    pub fn saturating_duration_since(self, earlier: Instant) -> (span: Duration)
        ensures
            span@ == (if earlier@ <= self@ { self@ - earlier@ } else { 0 }),
    {
        if earlier.millis <= self.millis {
            Duration { millis: self.millis - earlier.millis }
        } else {
            Duration { millis: 0 }
        }
    }

    /// Whether `self` lies more than `span` before `later`.
    pub fn predates_by_more_than(self, later: Instant, span: Duration) -> (expired: bool)
        ensures
            expired == (self@ + span@ < later@),
    {
        self.millis < later.millis && later.millis - self.millis > span.millis
    }
}

impl TimeDelta {
    /// A span of `millis` milliseconds, backwards where `millis` is
    /// negative.
    pub fn from_millis(millis: i64) -> (delta: TimeDelta)
        ensures
            delta@ == millis,
    {
        TimeDelta { millis }
    }

    /// The same span without a direction. Only a span that does not run
    /// backwards has one.
    pub fn to_std(self) -> (span: Option<Duration>)
        ensures
            span is Some <==> self@ >= 0,
            span matches Some(d) ==> d@ == self@,
    {
        if self.millis >= 0 {
            Some(Duration { millis: self.millis as u64 })
        } else {
            None
        }
    }
}

impl Duration {
    /// A span of `millis` milliseconds.
    pub fn from_millis(millis: u64) -> (span: Duration)
        ensures
            span@ == millis,
    {
        Duration { millis }
    }

    /// The length of the span in milliseconds.
    pub fn as_millis(&self) -> (millis: u64)
        ensures
            millis == self@,
    {
        self.millis
    }

    /// The whole seconds in the span; a started second does not count.
    pub fn as_secs(&self) -> (seconds: u64)
        ensures
            seconds == self@ / 1_000,
    {
        self.millis / MILLIS_PER_SECOND
    }

    /// Whether a span of `seconds` seconds can be built.
    pub open spec fn seconds_in_range(seconds: i64) -> bool {
        0 <= seconds <= MAX_SPAN_SECONDS
    }

    /// Whether a span of `minutes` minutes can be built.
    pub open spec fn minutes_in_range(minutes: i64) -> bool {
        0 <= minutes <= MAX_SPAN_MINUTES
    }

    /// A span of `seconds` seconds. A negative count has no span, and one
    /// beyond `MAX_SPAN_SECONDS` is more than the calendar library holds.
    pub fn try_seconds(seconds: i64) -> (span: Option<Duration>)
        ensures
            span is Some <==> Self::seconds_in_range(seconds),
            span matches Some(d) ==> d@ == seconds * 1_000,
    {
        match seconds_to_millis(seconds) {
            Some(millis) => TimeDelta::from_millis(millis).to_std(),
            None => None,
        }
    }

    /// A span of `minutes` minutes. A negative count has no span, and one
    /// beyond `MAX_SPAN_MINUTES` is more than the calendar library holds.
    pub fn try_minutes(minutes: i64) -> (span: Option<Duration>)
        ensures
            span is Some <==> Self::minutes_in_range(minutes),
            span matches Some(d) ==> d@ == minutes * 60_000,
    {
        match minutes_to_millis(minutes) {
            Some(millis) => TimeDelta::from_millis(millis).to_std(),
            None => None,
        }
    }

    /// The two spans one after the other, or `None` where the sum is more
    /// than a span can hold.
    pub fn checked_add(self, other: Duration) -> (sum: Option<Duration>)
        ensures
            sum is Some <==> self@ + other@ <= u64::MAX,
            sum matches Some(d) ==> d@ == self@ + other@,
    {
        match self.millis.checked_add(other.millis) {
            Some(millis) => Some(Duration { millis }),
            None => None,
        }
    }
}

} // verus!
