//! Points in time and lengths of time, counted in nanoseconds.

use vstd::prelude::*;

verus! {

/// Nanoseconds in a second.
pub const NANOS_PER_SECOND: u128 = 1_000_000_000;

/// Nanoseconds in a millisecond.
pub const NANOS_PER_MILLI: u128 = 1_000_000;

/// The longest length of time: `u64::MAX` seconds and one nanosecond less than another second.
pub const MAX_DURATION_NANOS: u128 = 18_446_744_073_709_551_615_999_999_999;

/// A length of time.
#[derive(Clone, Copy, Debug, PartialEq, Eq, Structural)]
pub struct Duration {
    nanos: u128,
}

impl Duration {
    #[verifier::type_invariant]
    pub closed spec fn inv(&self) -> bool {
        self.nanos <= MAX_DURATION_NANOS
    }

    /// The length in nanoseconds.
    pub closed spec fn nanos(&self) -> nat {
        self.nanos as nat
    }

    /// The length in whole seconds.
    pub open spec fn secs(&self) -> nat {
        self.nanos() / NANOS_PER_SECOND as nat
    }

    /// A number of seconds.
    pub fn from_secs(secs: u64) -> (d: Duration)
        ensures
            d.nanos() == secs * NANOS_PER_SECOND,
            d.secs() == secs,
    {
        Duration { nanos: secs as u128 * NANOS_PER_SECOND }
    }

    /// A number of milliseconds.
    pub fn from_millis(millis: u64) -> (d: Duration)
        ensures
            d.nanos() == millis * NANOS_PER_MILLI,
    {
        Duration { nanos: millis as u128 * NANOS_PER_MILLI }
    }

    /// The whole seconds of the length.
    pub fn as_secs(&self) -> (secs: u64)
        ensures
            secs == self.secs(),
    {
        proof {
            use_type_invariant(self);
        }
        (self.nanos / NANOS_PER_SECOND) as u64
    }

    /// The length in nanoseconds.
    pub fn as_nanos(&self) -> (nanos: u128)
        ensures
            nanos == self.nanos(),
            nanos <= MAX_DURATION_NANOS,
    {
        proof {
            use_type_invariant(self);
        }
        self.nanos
    }

    /// The length twice over, or the longest length where that is longer.
    pub fn saturating_double(&self) -> (d: Duration)
        ensures
            d.nanos() == if 2 * self.nanos() <= MAX_DURATION_NANOS {
                2 * self.nanos()
            } else {
                MAX_DURATION_NANOS as nat
            },
    {
        proof {
            use_type_invariant(self);
        }
        let twice: u128 = 2 * self.nanos;
        if twice <= MAX_DURATION_NANOS {
            Duration { nanos: twice }
        } else {
            Duration { nanos: MAX_DURATION_NANOS }
        }
    }
}

/// A point in time, as nanoseconds since the start of 1970 (UTC), below zero before it.
#[derive(Clone, Copy, Debug, PartialEq, Eq, Structural)]
pub struct Timestamp {
    pub nanos: i128,
}

/// How far a clock is from the start of 1970: whole seconds and the nanoseconds beyond them.
#[derive(Clone, Copy, Debug, PartialEq, Eq, Structural)]
pub enum ClockReading {
    Since { secs: u64, nanos: u32 },
    Before { secs: u64, nanos: u32 },
}

impl ClockReading {
    /// Whether the nanoseconds are below one second.
    pub open spec fn wf(&self) -> bool {
        match *self {
            ClockReading::Since { secs: _, nanos } => nanos < NANOS_PER_SECOND,
            ClockReading::Before { secs: _, nanos } => nanos < NANOS_PER_SECOND,
        }
    }

    /// The offset in nanoseconds, below zero before 1970.
    pub open spec fn offset(&self) -> int {
        match *self {
            ClockReading::Since { secs, nanos } => secs * NANOS_PER_SECOND + nanos,
            ClockReading::Before { secs, nanos } => -(secs * NANOS_PER_SECOND + nanos),
        }
    }
}

/// A reading of the system's clock.
#[verifier::external_type_specification]
#[verifier::external_body]
pub struct ExSystemTime(std::time::SystemTime);

/// How far a reading of the system's clock is from the start of 1970, as `duration_since` with
/// `UNIX_EPOCH` tells.
pub uninterp spec fn epoch_offset(time: std::time::SystemTime) -> ClockReading;

/// Calls `SystemTime::now`. Nothing is known of a reading of the clock.
#[verifier::external_body]
fn system_now() -> (time: std::time::SystemTime) {
    std::time::SystemTime::now()
}

/// Calls `duration_since` with `UNIX_EPOCH`, and hands the offset out as whole seconds and the
/// nanoseconds beyond them, which are below one second, on the side on which it is found.
#[verifier::external_body]
fn since_epoch(time: std::time::SystemTime) -> (reading: ClockReading)
    ensures
        reading == epoch_offset(time),
        reading.wf(),
{
    match time.duration_since(std::time::UNIX_EPOCH) {
        Ok(d) => ClockReading::Since { secs: d.as_secs(), nanos: d.subsec_nanos() },
        Err(e) => ClockReading::Before {
            secs: e.duration().as_secs(),
            nanos: e.duration().subsec_nanos(),
        },
    }
}

/// The whole seconds of nanoseconds since the start of 1970, none before it.
pub open spec fn whole_seconds(nanos: int) -> int {
    if nanos < 0 {
        0
    } else {
        nanos / NANOS_PER_SECOND as int
    }
}

/// The whole milliseconds of nanoseconds since the start of 1970, none before it.
pub open spec fn whole_millis(nanos: int) -> int {
    if nanos < 0 {
        0
    } else {
        nanos / NANOS_PER_MILLI as int
    }
}

impl Timestamp {
    /// The current time.
    pub fn now() -> (t: Timestamp)
        ensures
            exists|reading: ClockReading| #[trigger]
                reading.wf() && t.nanos == reading.offset(),
            -MAX_DURATION_NANOS <= t.nanos <= MAX_DURATION_NANOS,
    {
        Timestamp::from_reading(since_epoch(system_now()))
    }

    /// The time that a clock shows.
    pub fn from_reading(reading: ClockReading) -> (t: Timestamp)
        requires
            reading.wf(),
        ensures
            t.nanos == reading.offset(),
            -MAX_DURATION_NANOS <= t.nanos <= MAX_DURATION_NANOS,
    {
        match reading {
            ClockReading::Since { secs, nanos } => Timestamp {
                nanos: secs as i128 * 1_000_000_000 + nanos as i128,
            },
            ClockReading::Before { secs, nanos } => Timestamp {
                nanos: -(secs as i128 * 1_000_000_000 + nanos as i128),
            },
        }
    }

    /// The whole milliseconds since the start of 1970, or zero before it.
    pub fn millis(&self) -> (millis: u128)
        ensures
            millis == whole_millis(self.nanos as int),
    {
        if self.nanos < 0 {
            0
        } else {
            self.nanos as u128 / NANOS_PER_MILLI
        }
    }

    /// The whole seconds since the start of 1970, or zero before it.
    pub fn seconds(&self) -> (secs: u64)
        requires
            self.nanos <= MAX_DURATION_NANOS,
        ensures
            secs == whole_seconds(self.nanos as int),
    {
        if self.nanos < 0 {
            0
        } else {
            (self.nanos as u128 / NANOS_PER_SECOND) as u64
        }
    }

    /// The time that is `d` after this one.
    pub fn plus(&self, d: Duration) -> (t: Timestamp)
        requires
            self.nanos <= i128::MAX - MAX_DURATION_NANOS,
        ensures
            t.nanos == self.nanos + d.nanos(),
    {
        Timestamp { nanos: self.nanos + d.as_nanos() as i128 }
    }

    /// Whether at most `limit` has passed from `earlier` to this time. Not so if `earlier` is
    /// the later of the two.
    pub fn within(&self, earlier: Timestamp, limit: Duration) -> (yes: bool)
        ensures
            yes == (earlier.nanos <= self.nanos && self.nanos - earlier.nanos <= limit.nanos()),
    {
        let limit_nanos: i128 = limit.as_nanos() as i128;
        match self.nanos.checked_sub(earlier.nanos) {
            Some(passed) => 0 <= passed && passed <= limit_nanos,
            None => false,
        }
    }

    /// Whether `limit` or more has passed from `earlier` to this time.
    pub fn elapsed_at_least(&self, earlier: Timestamp, limit: Duration) -> (yes: bool)
        ensures
            yes == (earlier.nanos <= self.nanos && self.nanos - earlier.nanos >= limit.nanos()),
    {
        let limit_nanos: i128 = limit.as_nanos() as i128;
        match self.nanos.checked_sub(earlier.nanos) {
            Some(passed) => 0 <= passed && passed >= limit_nanos,
            None => earlier.nanos <= self.nanos,
        }
    }
}

/// The current time in whole seconds since the start of 1970, or zero for a clock set earlier.
pub fn now_epoch_seconds() -> (secs: u64)
    ensures
        exists|reading: ClockReading| #[trigger]
            reading.wf() && secs == whole_seconds(reading.offset()),
{
    Timestamp::now().seconds()
}

/// The current time in whole milliseconds since the start of 1970, or zero for a clock set
/// earlier.
pub fn now_epoch_millis() -> (millis: u128)
    ensures
        exists|reading: ClockReading| #[trigger]
            reading.wf() && millis == whole_millis(reading.offset()),
        millis <= MAX_DURATION_NANOS / NANOS_PER_MILLI,
{
    Timestamp::now().millis()
}

/// Whole seconds and milliseconds are as many as fit, and none before the start of 1970.
pub proof fn law_whole_units_fit(nanos: int)
    ensures
        nanos >= 0 ==> whole_seconds(nanos) * 1_000_000_000 <= nanos < (whole_seconds(nanos) + 1)
            * 1_000_000_000,
        nanos >= 0 ==> whole_millis(nanos) * 1_000_000 <= nanos < (whole_millis(nanos) + 1)
            * 1_000_000,
        nanos < 0 ==> whole_seconds(nanos) == 0 && whole_millis(nanos) == 0,
{
}

} // verus!
