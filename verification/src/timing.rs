//! Pacing: the sixty-hertz timer clock, the processor's turn period, and
//! the reading of the host's clock.

use std::time::{Duration, Instant};
use vstd::prelude::*;

verus! {

/// Least time between two processor turns, in microseconds.
pub const CYCLE_RATE_MICROS: u64 = 5_000;

/// `std::time::Instant`, a reading of the host's monotonic clock. It is
/// carried through as it is; nothing is known of what it holds.
#[verifier::external_type_specification]
#[verifier::external_body]
pub struct ExInstant(Instant);

/// The host's monotonic clock, read by `Instant::now`. Nothing is claimed
/// of the reading.
#[verifier::external_body]
pub(crate) fn clock_now() -> Instant {
    Instant::now()
}

/// The time that has passed since `start`, as `Instant::elapsed` gives it.
/// Nothing is claimed of the result.
#[verifier::external_body]
pub(crate) fn time_since(start: &Instant) -> Duration {
    start.elapsed()
}

/// The whole microseconds in `span`, by `Duration::as_micros`. Nothing is
/// claimed of the result.
#[verifier::external_body]
pub(crate) fn whole_micros(span: &Duration) -> u128 {
    span.as_micros()
}

/// The count of microseconds seen on the host's clock once it reads
/// `total`: the reading, held at the greatest number a `u64` takes, unless
/// the count stands beyond the reading already, in which case it stays.
pub open spec fn seen_after(seen: u64, total: u128) -> u64 {
    if total > u64::MAX {
        u64::MAX
    } else if total > seen {
        total as u64
    } else {
        seen
    }
}

/// Timer ticks that fall due when `elapsed` microseconds pass on a clock
/// that holds `credit` millionths of a tick: sixty ticks fall due in a
/// million microseconds.
pub open spec fn ticks_due(credit: nat, elapsed: nat) -> nat {
    (credit + 60 * elapsed) / 1_000_000
}

/// Millionths of a tick that the clock keeps after `elapsed` microseconds.
pub open spec fn credit_left(credit: nat, elapsed: nat) -> nat {
    (credit + 60 * elapsed) % 1_000_000
}

/// Turns elapsed time into sixty-hertz ticks without drift: the part of a
/// tick that has not fallen due is carried over to the next reading.
pub struct TimerClock {
    credit: u32,
}

impl TimerClock {
    #[verifier::type_invariant]
    spec fn credit_below_one_tick(self) -> bool {
        self.credit < 1_000_000
    }

    /// Millionths of a tick carried over so far.
    pub closed spec fn credit(&self) -> nat {
        self.credit as nat
    }

    /// A clock that carries nothing over.
    pub fn new() -> (out: TimerClock)
        ensures
            out.credit() == 0,
    {
        TimerClock { credit: 0 }
    }

    /// Lets `elapsed_micros` microseconds pass and returns the number of
    /// ticks that fell due.
    pub fn advance(&mut self, elapsed_micros: u64) -> (ticks: u64)
        ensures
            ticks == ticks_due(old(self).credit(), elapsed_micros as nat),
            final(self).credit() == credit_left(old(self).credit(), elapsed_micros as nat),
    {
        proof {
            use_type_invariant(&*self);
        }
        let total: u128 = self.credit as u128 + elapsed_micros as u128 * 60;
        let ticks: u128 = total / 1_000_000;
        let rest: u128 = total % 1_000_000;
        self.credit = rest as u32;
        ticks as u64
    }
}

/// Whether a processor turn is due `since_turn` microseconds after the
/// last one; the very first turn is due at once.
pub open spec fn turn_due(since_turn: Option<u64>) -> bool {
    match since_turn {
        Some(micros) => micros >= CYCLE_RATE_MICROS,
        None => true,
    }
}

/// Whether a processor turn is due `since_turn` microseconds after the
/// last one; the very first turn is due at once.
pub fn is_turn_due(since_turn: Option<u64>) -> (out: bool)
    ensures
        out == turn_due(since_turn),
{
    match since_turn {
        Some(micros) => micros >= CYCLE_RATE_MICROS,
        None => true,
    }
}

} // verus!
