//! Timestamps in nanoseconds since 2020-01-01 00:00:00 UTC, and their
//! arithmetic with [`Duration`]s.
//!
//! All timestamp arithmetic saturates: a sum stops at `u64::MAX`, a difference
//! at zero, and a duration of more nanoseconds than a `u64` holds counts as
//! `u64::MAX` nanoseconds. Nothing wraps and nothing panics.

use std::ops::{Add, Sub};
use std::time::{Duration, SystemTime};
use tokio::time::Instant;
use vstd::prelude::*;
use vstd::std_specs::convert::FromSpecImpl;
use vstd::std_specs::ops::{AddSpecImpl, SubSpecImpl};

verus! {

/// The length of a [`Duration`] in nanoseconds, as `Duration::as_nanos` reports it.
pub uninterp spec fn duration_nanos(duration: Duration) -> u128;

/// `Duration::as_nanos`: the whole length of the duration in nanoseconds.
pub assume_specification[ Duration::as_nanos ](duration: &Duration) -> (nanos: u128)
    ensures
        nanos == duration_nanos(*duration),
;

/// The [`Duration`] of `nanos` nanoseconds, as `Duration::from_nanos` makes it.
pub uninterp spec fn nanos_duration(nanos: u64) -> Duration;

/// `Duration::from_nanos`: the duration that is `nanos` nanoseconds long.
pub assume_specification[ Duration::from_nanos ](nanos: u64) -> (duration: Duration)
    ensures
        duration == nanos_duration(nanos),
        duration_nanos(duration) == nanos,
;

/// The nanoseconds of a duration as timestamps count them: capped at `u64::MAX`.
pub open spec fn spec_ns(duration: Duration) -> u64 {
    if duration_nanos(duration) > u64::MAX {
        u64::MAX
    } else {
        duration_nanos(duration) as u64
    }
}

/// Convert a [`Duration`] to `u64` integer nanoseconds, saturating.
pub fn ns(duration: Duration) -> (nanos: u64)
    ensures
        nanos == spec_ns(duration),
{
    let n: u128 = duration.as_nanos();
    if n > 0xffff_ffff_ffff_ffffu128 {
        u64::MAX
    } else {
        n as u64
    }
}

/// `a + b`, stopping at `u64::MAX`.
pub open spec fn saturating_sum(a: u64, b: u64) -> u64 {
    if a + b > u64::MAX {
        u64::MAX
    } else {
        (a + b) as u64
    }
}

/// `a - b`, stopping at zero.
pub open spec fn saturating_difference(a: u64, b: u64) -> u64 {
    if a < b {
        0
    } else {
        (a - b) as u64
    }
}

/// Seconds between 1970-01-01 and 2020-01-01.
pub const UNIX_EPOCH_OFFSET_SEC: u64 = 1_577_865_600;

/// Milliseconds between 1970-01-01 and 2020-01-01.
pub const ECMASCRIPT_DURATION_OFFSET_MS: u64 = 1_577_865_600_000;

/// A wall-clock time, represented as nanoseconds since 2020-01-01 00:00:00 UTC.
#[derive(PartialEq, Eq, Structural, PartialOrd, Ord, Copy, Clone, Debug)]
pub struct Timestamp(pub u64);

impl Timestamp {
    /// Initialize a [`Timestamp`] with the number of nanoseconds that have
    /// elapsed since `2020-01-01`.
    pub fn new(value: u64) -> (timestamp: Timestamp)
        ensures
            timestamp == Timestamp(value),
    {
        Timestamp(value)
    }

    /// The timestamp that lies `duration` after the epoch.
    pub fn from_duration_since_epoch(duration: Duration) -> (timestamp: Timestamp)
        ensures
            timestamp == Timestamp(spec_ns(duration)),
    {
        Timestamp(ns(duration))
    }

    /// The milliseconds since 1970-01-01 that stand for this timestamp.
    pub open spec fn spec_as_js(self) -> u64 {
        (self.0 / 1_000_000 + ECMASCRIPT_DURATION_OFFSET_MS) as u64
    }

    /// Convert a [`Timestamp`] to milliseconds since 1970-01-01 00:00:00 UTC,
    /// rounding down.
    pub fn as_js(self) -> (millis: u64)
        ensures
            millis == self.spec_as_js(),
            millis == self.0 / 1_000_000 + ECMASCRIPT_DURATION_OFFSET_MS,
    {
        let t: u64 = self.0 / 1_000_000;
        t + ECMASCRIPT_DURATION_OFFSET_MS
    }

    /// The timestamp that stands for `ts` milliseconds since 1970-01-01.
    pub open spec fn spec_from_js(ts: u64) -> Timestamp {
        if ts < ECMASCRIPT_DURATION_OFFSET_MS {
            Timestamp(0)
        } else if (ts - ECMASCRIPT_DURATION_OFFSET_MS) * 1_000_000 > u64::MAX {
            Timestamp(u64::MAX)
        } else {
            Timestamp(((ts - ECMASCRIPT_DURATION_OFFSET_MS) * 1_000_000) as u64)
        }
    }

    /// Convert milliseconds since 1970-01-01 00:00:00 UTC to a [`Timestamp`].
    /// A time before 2020 gives the zero timestamp, and one too late to
    /// count in nanoseconds gives the latest timestamp there is.
    pub fn from_js(ts: u64) -> (timestamp: Timestamp)
        ensures
            timestamp == Self::spec_from_js(ts),
    {
        let since: u64 = ts.saturating_sub(ECMASCRIPT_DURATION_OFFSET_MS);
        match since.checked_mul(1_000_000) {
            Some(nanos) => Timestamp(nanos),
            None => Timestamp(u64::MAX),
        }
    }

    /// Read the raw value of the [`Timestamp`]: nanoseconds since 2020-01-01
    /// 00:00:00 UTC.
    pub fn into_raw(self) -> (raw: u64)
        ensures
            raw == self.0,
    {
        self.0
    }

    /// Check if this [`Timestamp`] is equal to the epoch time, represented as
    /// `0u64`.
    pub fn is_zero(self) -> (zero: bool)
        ensures
            zero == (self.0 == 0),
    {
        self.0 == 0
    }
}

impl FromSpecImpl<Timestamp> for u64 {
    open spec fn obeys_from_spec() -> bool {
        true
    }

    open spec fn from_spec(value: Timestamp) -> u64 {
        value.spec_as_js()
    }
}

impl From<Timestamp> for u64 {
    /// Widen a [`Timestamp`] to milliseconds since 1970-01-01 00:00:00 UTC.
    fn from(value: Timestamp) -> (millis: u64) {
        value.as_js()
    }
}

impl AddSpecImpl<Duration> for Timestamp {
    open spec fn obeys_add_spec() -> bool {
        true
    }

    open spec fn add_req(self, rhs: Duration) -> bool {
        true
    }

    open spec fn add_spec(self, rhs: Duration) -> Timestamp {
        Timestamp(saturating_sum(self.0, spec_ns(rhs)))
    }
}

impl Add<Duration> for Timestamp {
    type Output = Timestamp;

    /// The timestamp `duration` later, or the latest there is.
    fn add(self, duration: Duration) -> (later: Timestamp) {
        Timestamp(self.0.saturating_add(ns(duration)))
    }
}

impl SubSpecImpl<Duration> for Timestamp {
    open spec fn obeys_sub_spec() -> bool {
        true
    }

    open spec fn sub_req(self, rhs: Duration) -> bool {
        true
    }

    open spec fn sub_spec(self, rhs: Duration) -> Timestamp {
        Timestamp(saturating_difference(self.0, spec_ns(rhs)))
    }
}

impl Sub<Duration> for Timestamp {
    type Output = Timestamp;

    /// The timestamp `duration` earlier, or the epoch.
    fn sub(self, duration: Duration) -> (earlier: Timestamp) {
        Timestamp(self.0.saturating_sub(ns(duration)))
    }
}

impl SubSpecImpl<Timestamp> for Timestamp {
    open spec fn obeys_sub_spec() -> bool {
        true
    }

    open spec fn sub_req(self, rhs: Timestamp) -> bool {
        true
    }

    open spec fn sub_spec(self, rhs: Timestamp) -> Duration {
        nanos_duration(saturating_difference(self.0, rhs.0))
    }
}

impl Sub<Timestamp> for Timestamp {
    type Output = Duration;

    /// The time from `rhs` to this timestamp, or none at all where `rhs` is
    /// the later one.
    fn sub(self, rhs: Timestamp) -> (elapsed: Duration)
        ensures
            duration_nanos(elapsed) == saturating_difference(self.0, rhs.0),
    {
        Duration::from_nanos(self.0.saturating_sub(rhs.0))
    }
}

/// Nanoseconds between 1970-01-01 and 2020-01-01.
pub const UNIX_EPOCH_OFFSET_NS: u64 = 1_577_865_600_000_000_000;

/// `std::time::SystemTime`: a reading of the wall clock, carried through.
#[verifier::external_type_specification]
#[verifier::external_body]
pub struct ExSystemTime(SystemTime);

/// `tokio::time::Instant`: a reading of the monotonic clock, carried through.
#[verifier::external_type_specification]
#[verifier::external_body]
pub struct ExInstant(Instant);

/// `SystemTime::now`: the wall clock's reading. Nothing is known of it.
#[verifier::external_body]
fn system_time_now() -> SystemTime {
    SystemTime::now()
}

/// `SystemTime::duration_since` with `SystemTime::UNIX_EPOCH`: the time from
/// 1970-01-01 to `time`; none where `time` lies before.
#[verifier::external_body]
fn since_unix_epoch(time: &SystemTime) -> Option<Duration> {
    time.duration_since(SystemTime::UNIX_EPOCH).ok()
}

/// `tokio::time::Instant::now`: the monotonic clock's reading. Nothing is
/// known of it.
#[verifier::external_body]
fn instant_now() -> Instant {
    Instant::now()
}

/// `tokio::time::Instant::duration_since`: the time from `earlier` to
/// `later`, or none at all where `earlier` is the later one.
#[verifier::external_body]
fn instant_duration_since(later: &Instant, earlier: &Instant) -> Duration {
    later.duration_since(*earlier)
}

/// The timestamp that a clock shows when `elapsed` has passed since it was
/// made with the offset `offset`.
pub open spec fn clock_reading(offset: Duration, elapsed: Duration) -> Timestamp {
    Timestamp(saturating_sum(spec_ns(offset), spec_ns(elapsed)))
}

/// A source of current [timestamps][Timestamp].
///
/// A clock reads the wall clock once, when it is made. From then on it goes
/// by the monotonic clock alone, so that a wall clock that is set anew
/// changes no measured latency.
#[derive(Copy, Clone, Debug)]
pub struct Clock {
    /// The time from 2020-01-01 to the making of the clock.
    pub offset: Duration,
    /// The monotonic clock's reading when the clock was made.
    pub reference: Instant,
}

impl Clock {
    /// Create a new [`Clock`] from the wall clock's current reading: its
    /// offset is the time from 2020-01-01 to that reading, and none at all
    /// where the reading lies before 2020.
    pub fn new() -> (clock: Clock)
        ensures
            exists|unix: u64|
                clock.offset == nanos_duration(
                    #[trigger] saturating_difference(unix, UNIX_EPOCH_OFFSET_NS),
                ),
    {
        let now = system_time_now();
        let reference = instant_now();
        Clock { offset: Clock::offset(&now), reference }
    }

    /// The time from 2020-01-01 to a time that lies `unix` after 1970-01-01:
    /// none at all for a time before 2020.
    pub fn since_epoch(unix: Duration) -> (offset: Duration)
        ensures
            offset == nanos_duration(saturating_difference(spec_ns(unix), UNIX_EPOCH_OFFSET_NS)),
    {
        Duration::from_nanos(ns(unix).saturating_sub(UNIX_EPOCH_OFFSET_NS))
    }

    /// The time from 2020-01-01 to `time`: none at all for a time before 2020.
    pub fn offset(time: &SystemTime) -> (offset: Duration)
        ensures
            exists|unix: u64|
                offset == nanos_duration(
                    #[trigger] saturating_difference(unix, UNIX_EPOCH_OFFSET_NS),
                ),
    {
        match since_unix_epoch(time) {
            Some(unix) => {
                assert(nanos_duration(saturating_difference(spec_ns(unix), UNIX_EPOCH_OFFSET_NS))
                    == nanos_duration(saturating_difference(spec_ns(unix), UNIX_EPOCH_OFFSET_NS)));
                Clock::since_epoch(unix)
            },
            None => {
                assert(saturating_difference(0, UNIX_EPOCH_OFFSET_NS) == 0);
                Duration::from_nanos(0)
            },
        }
    }

    /// The timestamp that the clock shows when `elapsed` has passed since it
    /// was made.
    pub fn at(&self, elapsed: Duration) -> (timestamp: Timestamp)
        ensures
            timestamp == clock_reading(self.offset, elapsed),
    {
        Timestamp(ns(self.offset).saturating_add(ns(elapsed)))
    }

    /// The current timestamp: the clock's offset and the time that has
    /// passed on the monotonic clock since the clock was made.
    pub fn now(&self) -> (timestamp: Timestamp)
        ensures
            exists|elapsed: Duration| timestamp == #[trigger] clock_reading(self.offset, elapsed),
            timestamp.0 >= spec_ns(self.offset),
    {
        let elapsed = self.elapsed();
        self.at(elapsed)
    }

    /// The [duration][Duration] since the [`Clock`] was [created][Clock::new()].
    pub fn elapsed(&self) -> (elapsed: Duration) {
        let now = instant_now();
        instant_duration_since(&now, &self.reference)
    }

    /// The timestamp of an [`Instant`] on this [`Clock`]'s timeline. An
    /// instant before the clock was made counts as the making of the clock.
    pub fn enter(&self, instant: Instant) -> (timestamp: Timestamp)
        ensures
            exists|elapsed: Duration| timestamp == #[trigger] clock_reading(self.offset, elapsed),
            timestamp.0 >= spec_ns(self.offset),
    {
        let elapsed = instant_duration_since(&instant, &self.reference);
        self.at(elapsed)
    }
}

} // verus!
