//! Points in time and spans between them, counted in ticks of a monotonic
//! clock that runs at `TIMER_HZ` ticks per second.
//!
//! The arithmetic is that of `fugit`, which refuses a tick rate of zero when
//! the code is compiled.

use vstd::prelude::*;

verus! {

/// The largest gap between two timestamps that the clock reports as a
/// duration. A larger gap is taken for a counter overflow and refused.
pub const MAX_GAP: u64 = 0x7fff_ffff_ffff_ffff;

/// A point in time: the tick count of a monotonic clock.
#[derive(Clone, Copy, Debug, PartialEq, Eq)]
pub struct Timestamp<const TIMER_HZ: u32> {
    ticks: u64,
}

/// A non-negative span of time, in ticks.
#[derive(Clone, Copy, Debug, PartialEq, Eq)]
pub struct Duration<const TIMER_HZ: u32> {
    ticks: u64,
}

/// The distance from `earlier` up to `later` on a 64-bit counter that wraps.
pub open spec fn wrapping_gap(later: u64, earlier: u64) -> int {
    if later >= earlier {
        later - earlier
    } else {
        later - earlier + 0x1_0000_0000_0000_0000
    }
}

/// What the clock's own subtraction yields: the wrapping gap where it is at
/// most `MAX_GAP`, nothing beyond that.
pub open spec fn clock_gap(later: u64, earlier: u64) -> Option<u64> {
    if wrapping_gap(later, earlier) <= MAX_GAP {
        Some(wrapping_gap(later, earlier) as u64)
    } else {
        None
    }
}

/// The ticks from `earlier` to `later`: defined where `later` is not before
/// `earlier` and the gap is at most `MAX_GAP`.
pub open spec fn ticks_between(later: u64, earlier: u64) -> Option<u64> {
    if earlier <= later && later - earlier <= MAX_GAP {
        Some((later - earlier) as u64)
    } else {
        None
    }
}

/// The sum of two tick counts where it fits in 64 bits.
pub open spec fn ticks_sum(a: u64, b: u64) -> Option<u64> {
    if a + b <= u64::MAX {
        Some((a + b) as u64)
    } else {
        None
    }
}

/// Calls `fugit::Instant::checked_duration_since` on two instants of the same
/// tick rate. That method compares the tick counts as a wrapping counter: it
/// returns the wrapping difference where that is at most half the range, and
/// nothing otherwise.
#[verifier::external_body]
fn instant_checked_duration_since<const TIMER_HZ: u32>(later: u64, earlier: u64) -> (gap: Option<u64>)
    ensures
        gap == clock_gap(later, earlier),
{
    let later = fugit::Instant::<u64, 1, TIMER_HZ>::from_ticks(later);
    let earlier = fugit::Instant::<u64, 1, TIMER_HZ>::from_ticks(earlier);
    later.checked_duration_since(earlier).map(|d| d.ticks())
}

/// Calls `fugit::Duration::checked_add` on two durations of the same tick
/// rate: the sum of the tick counts, or nothing where it overflows 64 bits.
#[verifier::external_body]
fn duration_checked_add<const TIMER_HZ: u32>(a: u64, b: u64) -> (sum: Option<u64>)
    ensures
        sum == ticks_sum(a, b),
{
    let a = fugit::Duration::<u64, 1, TIMER_HZ>::from_ticks(a);
    let b = fugit::Duration::<u64, 1, TIMER_HZ>::from_ticks(b);
    a.checked_add(b).map(|d| d.ticks())
}

/// Calls the division of a `fugit::Duration` by an integer, which divides the
/// tick count and rounds toward zero. It panics on a zero divisor.
#[verifier::external_body]
fn duration_div<const TIMER_HZ: u32>(a: u64, divisor: u32) -> (quotient: u64)
    requires
        divisor != 0,
    ensures
        quotient == a / (divisor as u64),
{
    (fugit::Duration::<u64, 1, TIMER_HZ>::from_ticks(a) / divisor).ticks()
}

impl<const TIMER_HZ: u32> Timestamp<TIMER_HZ> {
    /// The tick count of this timestamp.
    pub closed spec fn view(&self) -> u64 {
        self.ticks
    }

    /// The timestamp at `ticks` ticks after the clock's start.
    pub fn from_ticks(ticks: u64) -> (t: Self)
        ensures
            t@ == ticks,
    {
        Timestamp { ticks }
    }

    /// The tick count of this timestamp.
    pub fn ticks(&self) -> (ticks: u64)
        ensures
            ticks == self@,
    {
        self.ticks
    }

    /// The time from `earlier` to `self`. There is none where `self` is before
    /// `earlier`, and none where the gap exceeds `MAX_GAP`, which the clock
    /// treats as an overflow of its counter.
    pub fn checked_duration_since(self, earlier: Self) -> (gap: Option<Duration<TIMER_HZ>>)
        ensures
            gap.is_some() == ticks_between(self@, earlier@).is_some(),
            gap matches Some(d) ==> Some(d@) == ticks_between(self@, earlier@),
    {
        if self.ticks < earlier.ticks {
            None
        } else {
            match instant_checked_duration_since::<TIMER_HZ>(self.ticks, earlier.ticks) {
                Some(ticks) => Some(Duration { ticks }),
                None => None,
            }
        }
    }
}

impl<const TIMER_HZ: u32> Duration<TIMER_HZ> {
    /// The tick count of this duration.
    pub closed spec fn view(&self) -> u64 {
        self.ticks
    }

    /// The duration of `ticks` ticks.
    pub fn from_ticks(ticks: u64) -> (d: Self)
        ensures
            d@ == ticks,
    {
        Duration { ticks }
    }

    /// The tick count of this duration.
    pub fn ticks(&self) -> (ticks: u64)
        ensures
            ticks == self@,
    {
        self.ticks
    }

    /// The sum of two durations, or nothing where it does not fit in 64 bits.
    pub fn checked_add(self, other: Self) -> (sum: Option<Self>)
        ensures
            sum.is_some() == ticks_sum(self@, other@).is_some(),
            sum matches Some(d) ==> Some(d@) == ticks_sum(self@, other@),
    {
        match duration_checked_add::<TIMER_HZ>(self.ticks, other.ticks) {
            Some(ticks) => Some(Duration { ticks }),
            None => None,
        }
    }

    /// This duration divided by `divisor`, rounded toward zero.
    pub fn div(self, divisor: u32) -> (quotient: Self)
        requires
            divisor != 0,
        ensures
            quotient@ == self@ / (divisor as u64),
    {
        Duration { ticks: duration_div::<TIMER_HZ>(self.ticks, divisor) }
    }
}

} // verus!
