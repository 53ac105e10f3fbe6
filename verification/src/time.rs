//! Wall-clock timestamps and the monotonic clock.
//!
//! Every rule of the library that depends on time takes the time as a plain
//! value. The functions that read a clock are thin: they read it once and
//! hand the reading to the function that takes it as an argument.

use vstd::prelude::*;

verus! {

/// Nanoseconds in one second.
pub const NANOS_PER_SEC: u32 = 1_000_000_000;

/// The last second of the year 9999, in seconds since the Unix epoch.
pub const MAX_LOGGABLE_SECS: i64 = 253_402_300_799;

/// A point in time on the UTC wall clock: whole seconds since the Unix epoch
/// and the nanoseconds into that second.
#[derive(Clone, Copy, Debug, PartialEq, Eq, Structural)]
pub struct Timestamp {
    pub secs: i64,
    pub nanos: u32,
}

/// The RFC 3339 text of the UTC instant `secs` seconds and `nanos`
/// nanoseconds after the Unix epoch, as `chrono` writes it.
pub uninterp spec fn rfc3339_text(secs: int, nanos: int) -> Seq<char>;

impl Timestamp {
    /// Nanoseconds since the Unix epoch.
    pub open spec fn total_nanos(self) -> int {
        self.secs * 1_000_000_000 + self.nanos
    }

    /// Whether the log can carry this timestamp: it lies between the epoch
    /// and the end of the year 9999, with a proper sub-second part.
    pub open spec fn is_loggable(self) -> bool {
        0 <= self.secs <= MAX_LOGGABLE_SECS && self.nanos < NANOS_PER_SEC
    }

    /// Whole seconds from `earlier` to `self`, rounded down; zero when
    /// `self` is not later.
    pub open spec fn spec_seconds_since(self, earlier: Timestamp) -> int {
        if self.total_nanos() <= earlier.total_nanos() {
            0
        } else {
            (self.total_nanos() - earlier.total_nanos()) / 1_000_000_000
        }
    }

    /// The text that stands for this timestamp in a log entry's digest.
    pub open spec fn text(self) -> Seq<char> {
        rfc3339_text(self.secs as int, self.nanos as int)
    }

    pub fn new(secs: i64, nanos: u32) -> (t: Timestamp)
        ensures
            t.secs == secs,
            t.nanos == nanos,
    {
        Timestamp { secs, nanos }
    }

    pub fn loggable(&self) -> (ok: bool)
        ensures
            ok == self.is_loggable(),
    {
        0 <= self.secs && self.secs <= MAX_LOGGABLE_SECS && self.nanos < NANOS_PER_SEC
    }

    /// Nanoseconds since the epoch, as a machine integer.
    pub fn as_nanos(&self) -> (n: i128)
        ensures
            n == self.total_nanos(),
    {
        (self.secs as i128) * 1_000_000_000i128 + (self.nanos as i128)
    }

    /// `self` is not later than `other`.
    pub fn at_or_before(&self, other: &Timestamp) -> (yes: bool)
        ensures
            yes == (self.total_nanos() <= other.total_nanos()),
    {
        self.as_nanos() <= other.as_nanos()
    }

    /// Whole seconds elapsed from `earlier` to `self`.
    pub fn seconds_since(&self, earlier: &Timestamp) -> (secs: u128)
        ensures
            secs == self.spec_seconds_since(*earlier),
    {
        let a: i128 = self.as_nanos();
        let b: i128 = earlier.as_nanos();
        if a <= b {
            0
        } else {
            let whole: i128 = (a - b) / 1_000_000_000i128;
            whole as u128
        }
    }

    /// The RFC 3339 text of a loggable timestamp, `None` for any other.
    pub fn to_rfc3339(&self) -> (text: Option<String>)
        ensures
            text is Some == self.is_loggable(),
            text matches Some(s) ==> s@ == self.text(),
    {
        if self.loggable() {
            rfc3339_utc(self.secs, self.nanos)
        } else {
            None
        }
    }
}

/// Trusted: `chrono::DateTime::from_timestamp(secs, nanos)`, then
/// `DateTime::to_rfc3339()` on the value it gives. `from_timestamp` returns
/// `None` for a day count beyond the calendar chrono supports (years past
/// ±262142), for two thousand million nanoseconds or more, and for a
/// thousand million or more outside the last second of a minute. The
/// contract claims `Some` only for instants from the epoch to the end of
/// the year 9999 with nanoseconds below one second, which chrono accepts,
/// and names the text [`rfc3339_text`].
#[verifier::external_body]
pub(crate) fn rfc3339_utc(secs: i64, nanos: u32) -> (text: Option<String>)
    ensures
        0 <= secs <= MAX_LOGGABLE_SECS && nanos < NANOS_PER_SEC ==> text is Some,
        text matches Some(s) ==> s@ == rfc3339_text(secs as int, nanos as int),
{
    match chrono::DateTime::from_timestamp(secs, nanos) {
        Some(instant) => Some(instant.to_rfc3339()),
        None => None,
    }
}

/// A reading of the system clock.
#[verifier::external_type_specification]
#[verifier::external_body]
pub struct ExSystemTime(std::time::SystemTime);

/// What the system clock reports when a reading lies before the instant it
/// is measured from.
#[verifier::external_type_specification]
#[verifier::external_body]
pub struct ExSystemTimeError(std::time::SystemTimeError);

/// Trusted: `SystemTime::now()`. Nothing is claimed of the reading.
pub assume_specification[ std::time::SystemTime::now ]() -> (now: std::time::SystemTime);

/// Trusted: `SystemTime::duration_since()`. Nothing is claimed of the
/// outcome: it is `Err` where `earlier` is the later of the two.
pub assume_specification[ std::time::SystemTime::duration_since ](
    reading: &std::time::SystemTime,
    earlier: std::time::SystemTime,
) -> (elapsed: Result<std::time::Duration, std::time::SystemTimeError>);

/// Trusted: `SystemTimeError::duration()`. Nothing is claimed of the
/// duration.
pub assume_specification[ std::time::SystemTimeError::duration ](
    error: &std::time::SystemTimeError,
) -> (distance: std::time::Duration);

/// Trusted: `Duration::as_secs()`. Nothing is claimed of the number.
pub assume_specification[ std::time::Duration::as_secs ](duration: &std::time::Duration) -> (secs:
    u64);

/// Trusted: `Duration::subsec_nanos()`. Nothing is claimed of the number.
pub assume_specification[ std::time::Duration::subsec_nanos ](
    duration: &std::time::Duration,
) -> (nanos: u32);

/// Trusted: the constant `std::time::UNIX_EPOCH`. Nothing is claimed of it.
#[verifier::external_body]
pub(crate) fn unix_epoch() -> (epoch: std::time::SystemTime) {
    std::time::UNIX_EPOCH
}

/// The timestamp `secs` seconds and `nanos` nanoseconds after the epoch,
/// with the seconds held at the largest `i64` where they are more.
pub open spec fn after_epoch(secs: u64, nanos: u32) -> Timestamp {
    Timestamp {
        secs: if secs > i64::MAX {
            i64::MAX
        } else {
            secs as i64
        },
        nanos,
    }
}

/// The timestamp `secs` seconds and `nanos` nanoseconds before the epoch,
/// with its sub-second part counted forwards from a whole second, as in
/// every timestamp; held at the smallest `i64` of seconds where it lies
/// before that.
pub open spec fn before_epoch(secs: u64, nanos: u32) -> Timestamp {
    let distance = secs * 1_000_000_000 + nanos;
    let whole = distance / 1_000_000_000;
    let rest = distance % 1_000_000_000;
    if rest == 0 {
        if whole > -(i64::MIN as int) {
            Timestamp { secs: i64::MIN, nanos: 0 }
        } else {
            Timestamp { secs: (-whole) as i64, nanos: 0 }
        }
    } else {
        if whole + 1 > -(i64::MIN as int) {
            Timestamp { secs: i64::MIN, nanos: 0 }
        } else {
            Timestamp { secs: (-whole - 1) as i64, nanos: (1_000_000_000 - rest) as u32 }
        }
    }
}

/// Computes [`after_epoch`].
pub fn timestamp_after_epoch(secs: u64, nanos: u32) -> (t: Timestamp)
    ensures
        t == after_epoch(secs, nanos),
        secs <= i64::MAX ==> t.total_nanos() == secs * 1_000_000_000 + nanos,
{
    let secs: i64 = if secs > i64::MAX as u64 {
        i64::MAX
    } else {
        secs as i64
    };
    Timestamp { secs, nanos }
}

/// Computes [`before_epoch`]. Whatever lies before the epoch is a
/// timestamp that the log refuses.
pub fn timestamp_before_epoch(secs: u64, nanos: u32) -> (t: Timestamp)
    ensures
        t == before_epoch(secs, nanos),
        t.nanos < NANOS_PER_SEC,
        t.secs > i64::MIN ==> t.total_nanos() == -(secs * 1_000_000_000 + nanos),
        secs > 0 || nanos > 0 ==> !t.is_loggable(),
{
    let distance: u128 = (secs as u128) * 1_000_000_000u128 + (nanos as u128);
    let whole: u128 = distance / 1_000_000_000u128;
    let rest: u128 = distance % 1_000_000_000u128;
    let floor: u128 = if rest == 0 {
        whole
    } else {
        whole + 1
    };
    if floor > 9_223_372_036_854_775_808u128 {
        Timestamp { secs: i64::MIN, nanos: 0 }
    } else if floor == 9_223_372_036_854_775_808u128 {
        Timestamp {
            secs: i64::MIN,
            nanos: if rest == 0 {
                0
            } else {
                (1_000_000_000u128 - rest) as u32
            },
        }
    } else {
        let below: i64 = floor as i64;
        Timestamp {
            secs: -below,
            nanos: if rest == 0 {
                0
            } else {
                (1_000_000_000u128 - rest) as u32
            },
        }
    }
}

/// The present reading of the system clock as a timestamp. A clock that
/// reads before the epoch gives a timestamp before the epoch.
pub fn wall_clock_now() -> (now: Timestamp) {
    let reading = std::time::SystemTime::now();
    match reading.duration_since(unix_epoch()) {
        Ok(elapsed) => timestamp_after_epoch(elapsed.as_secs(), elapsed.subsec_nanos()),
        Err(error) => {
            let distance = error.duration();
            timestamp_before_epoch(distance.as_secs(), distance.subsec_nanos())
        },
    }
}

/// A reading of the monotonic clock.
#[verifier::external_type_specification]
#[verifier::external_body]
pub struct ExInstant(std::time::Instant);

/// Trusted: `Instant::now()`. Nothing is claimed of the reading.
pub assume_specification[ std::time::Instant::now ]() -> (now: std::time::Instant);

/// Trusted: `Instant::elapsed()`. Nothing is claimed of the duration.
pub assume_specification[ std::time::Instant::elapsed ](origin: &std::time::Instant) -> (elapsed:
    std::time::Duration);

/// Trusted: `Duration::as_millis()`. Nothing is claimed of the number.
pub assume_specification[ std::time::Duration::as_millis ](duration: &std::time::Duration) -> (ms:
    u128);

/// Milliseconds on the monotonic clock since `origin` was read: the
/// clock's reading, brought into a `u64` by [`millis_to_u64`].
pub fn millis_since(origin: &std::time::Instant) -> (ms: u64) {
    let elapsed = origin.elapsed();
    millis_to_u64(elapsed.as_millis())
}

/// A count of milliseconds, held at the largest `u64` where it is greater.
pub open spec fn saturated_millis(reading: u128) -> u64 {
    if reading > u64::MAX {
        u64::MAX
    } else {
        reading as u64
    }
}

/// Brings a count of milliseconds into a `u64`, holding it at the largest
/// `u64` where it is greater.
pub fn millis_to_u64(reading: u128) -> (ms: u64)
    ensures
        ms == saturated_millis(reading),
{
    if reading > u64::MAX as u128 {
        u64::MAX
    } else {
        reading as u64
    }
}

} // verus!
