//! Spans of time, counted in whole nanoseconds.
//!
//! A [`Duration`] is a plain count, so every statement about it is ordinary
//! integer arithmetic: a duration made from seconds holds a billion times
//! that number, and dividing one by a scalar is flooring division.

use vstd::prelude::*;
use vstd::std_specs::ops::DivSpecImpl;

verus! {

/// Nanoseconds in one second.
pub const NANOS_PER_SEC: u128 = 1_000_000_000;

/// A non-negative span of time with nanosecond resolution.
///
/// The range covers every whole number of seconds that fits in a `u64`, and
/// far more, so no constructor can overflow.
#[derive(Clone, Copy, Debug, PartialEq, Eq, PartialOrd, Ord, Hash)]
pub struct Duration {
    /// The whole span, in nanoseconds.
    pub nanos: u128,
}

impl Duration {
    /// The duration that lasts `secs` whole seconds.
    pub open spec fn spec_from_secs(secs: u64) -> Duration {
        Duration { nanos: (secs * NANOS_PER_SEC) as u128 }
    }

    /// The duration that is `rhs` times shorter than this one, rounded down
    /// to a whole nanosecond.
    pub open spec fn spec_div(self, rhs: u32) -> Duration {
        Duration { nanos: (self.nanos / rhs as u128) as u128 }
    }

    /// Makes a duration of `secs` whole seconds.
    #[verifier::when_used_as_spec(spec_from_secs)]
    pub fn from_secs(secs: u64) -> (d: Self)
        ensures
            d == Self::spec_from_secs(secs),
            d.nanos == secs * NANOS_PER_SEC,
    {
        let secs_wide: u128 = secs as u128;
        Duration { nanos: secs_wide * NANOS_PER_SEC }
    }
}

impl Default for Duration {
    /// The empty span.
    fn default() -> (d: Self)
        ensures
            d.nanos == 0,
    {
        Duration { nanos: 0 }
    }
}

impl core::ops::Div<u32> for Duration {
    type Output = Duration;

    /// Divides the span by `rhs`, rounding down to a whole nanosecond.
    fn div(self, rhs: u32) -> (quotient: Duration)
        ensures
            quotient.nanos == self.nanos / rhs as u128,
    {
        let divisor: u128 = rhs as u128;
        Duration { nanos: self.nanos / divisor }
    }
}

impl DivSpecImpl<u32> for Duration {
    open spec fn obeys_div_spec() -> bool {
        true
    }

    open spec fn div_req(self, rhs: u32) -> bool {
        rhs != 0
    }

    open spec fn div_spec(self, rhs: u32) -> Duration {
        self.spec_div(rhs)
    }
}

} // verus!
