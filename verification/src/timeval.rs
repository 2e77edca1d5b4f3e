//! Timeout and timestamp plumbing.
//!
//! The engine takes every timeout as a whole number of milliseconds in a
//! 32-bit field, with zero meaning "use the engine's internal default", and
//! every timestamp as whole seconds plus nanoseconds since the epoch.  The
//! host's rich time types are reduced to [`TimeSpan`] before they reach the
//! library, and the conversion down to the engine's fields is exact and
//! verified.

use vstd::prelude::*;

verus! {

/// Nanoseconds in one second.
pub const NANOS_PER_SEC: u32 = 1_000_000_000;
/// Nanoseconds in one millisecond.
pub const NANOS_PER_MILLI: u32 = 1_000_000;
/// Milliseconds in one second.
pub const MILLIS_PER_SEC: u64 = 1_000;

/// A span of time (a timeout, or a timestamp counted from the epoch), as
/// whole seconds plus a sub-second nanosecond remainder.
#[derive(Clone, Copy, Debug, PartialEq, Eq, Structural)]
pub struct TimeSpan {
    /// Whole seconds.
    pub secs: u64,
    /// Nanoseconds past the last whole second; always below one second.
    pub nanos: u32,
}

impl TimeSpan {
    /// Well-formedness: the nanosecond part never reaches a full second.
    pub open spec fn wf(&self) -> bool {
        self.nanos < NANOS_PER_SEC
    }

    /// The span's total length in whole milliseconds (fractions truncated),
    /// as an unbounded integer.
    pub open spec fn spec_total_millis(&self) -> int {
        self.secs * MILLIS_PER_SEC + self.nanos / NANOS_PER_MILLI
    }

    /// Builds a well-formed span.
    pub fn new(secs: u64, nanos: u32) -> (t: TimeSpan)
        requires
            nanos < NANOS_PER_SEC,
        ensures
            t.secs == secs,
            t.nanos == nanos,
            t.wf(),
    {
        TimeSpan { secs, nanos }
    }

    /// The zero span: as a timeout it selects the engine's internal default.
    pub fn zero() -> (t: TimeSpan)
        ensures
            t.secs == 0,
            t.nanos == 0,
            t.wf(),
            t.spec_total_millis() == 0,
    {
        TimeSpan { secs: 0, nanos: 0 }
    }

    /// Builds a span of exactly the given number of milliseconds.
    pub fn from_millis(ms: u64) -> (t: TimeSpan)
        ensures
            t.wf(),
            t.spec_total_millis() == ms,
    {
        let secs = ms / MILLIS_PER_SEC;
        let rem_ms = ms % MILLIS_PER_SEC;
        let nanos = (rem_ms as u32) * NANOS_PER_MILLI;
        TimeSpan { secs, nanos }
    }

    /// The engine's millisecond field for this span: the total length in
    /// milliseconds, truncated into 32 bits exactly as the binding's cast
    /// does.  A zero span stays zero, which the engine reads as "use the
    /// internal default", not as an immediate failure.
    pub fn to_engine_millis(&self) -> (ms: u32)
        ensures
            ms == self.spec_total_millis() % 0x1_0000_0000,
            self.spec_total_millis() < 0x1_0000_0000 ==> ms == self.spec_total_millis(),
            self.spec_total_millis() == 0 ==> ms == 0,
    {
        assert((self.secs as int) * (MILLIS_PER_SEC as int) <= (u64::MAX as int) * (
        MILLIS_PER_SEC as int)) by (nonlinear_arith)
            requires
                self.secs <= u64::MAX,
        ;
        let total: u128 = (self.secs as u128) * (MILLIS_PER_SEC as u128) + ((self.nanos
            / NANOS_PER_MILLI) as u128);
        assert(total == self.spec_total_millis());
        let ms = (total % 0x1_0000_0000) as u32;
        ms
    }
}

/// The engine's pair of notification-send arguments for an optional
/// delivery timeout: the millisecond field, and whether to wait for the
/// delivery acknowledgement at all.  An absent timeout means "do not wait"
/// (milliseconds zero); a present one, even the zero default, means "wait".
pub fn optional_timeout_to_engine(timeout: &Option<TimeSpan>) -> (r: (u32, bool))
    ensures
        timeout is None ==> r == (0u32, false),
        timeout matches Some(t) ==> r.1 == true && r.0 == t.spec_total_millis()
            % 0x1_0000_0000,
{
    match timeout {
        Option::None => (0, false),
        Option::Some(t) => (t.to_engine_millis(), true),
    }
}

} // verus!
