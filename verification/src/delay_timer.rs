//! Delay timer: delays measured in ticks of the generic timer's system counter.

use vstd::prelude::*;

verus! {

/// The number of microseconds in a second.
pub const MICROSECONDS_PER_SECOND: u128 = 1_000_000;

/// A number of clock ticks.
#[derive(Clone, Copy, Debug, Eq, PartialEq, Structural)]
pub struct ClockTick(pub u64);

/// The number of ticks at `freq_hz` that a delay of `delay_micros` microseconds takes, rounded
/// up, plus one so that the delay is never shorter than requested.
pub open spec fn spec_ticks(delay_micros: u128, freq_hz: u64) -> int {
    (delay_micros * freq_hz + MICROSECONDS_PER_SECOND - 1) / (MICROSECONDS_PER_SECOND as int) + 1
}

impl ClockTick {
    /// The number of ticks of a counter running at `freq_hz` that a delay of `delay_micros`
    /// microseconds takes, rounded up, plus one tick so as not to delay less than requested.
    pub fn from_micros(delay_micros: u128, freq_hz: u64) -> (r: ClockTick)
        requires
            delay_micros * freq_hz <= u128::MAX,
            spec_ticks(delay_micros, freq_hz) <= u64::MAX,
        ensures
            r.0 == spec_ticks(delay_micros, freq_hz),
    {
        let product = delay_micros * (freq_hz as u128);
        // div_ceil
        let quotient = product / MICROSECONDS_PER_SECOND;
        let rounded = if product % MICROSECONDS_PER_SECOND == 0 { quotient } else { quotient + 1 };
        proof {
            let p = product as int;
            assert((p + 999_999) / 1_000_000 == (if p % 1_000_000 == 0 { p / 1_000_000 } else { p / 1_000_000 + 1 })) by (nonlinear_arith)
                requires
                    p >= 0,
            ;
        }
        ClockTick((rounded as u64) + 1)
    }
}

/// A timer that has been set for a specific duration: it expires once the system counter has
/// advanced by the number of ticks from its start.
#[derive(Clone, Copy, Debug, Eq, PartialEq, Structural)]
pub struct LogicalTimer {
    /// CNTPCT_EL0 value at the time of starting the timer.
    pub start_time: u64,
    /// Number of ticks since the start time for the expiry.
    pub ticks_to_wait: ClockTick,
}

impl LogicalTimer {
    /// Starts a timer at counter value `now` that expires after `delay_micros` microseconds of a
    /// counter running at `freq_hz`.
    pub fn new(delay_micros: u128, freq_hz: u64, now: u64) -> (r: LogicalTimer)
        requires
            delay_micros * freq_hz <= u128::MAX,
            spec_ticks(delay_micros, freq_hz) <= u64::MAX,
        ensures
            r.start_time == now,
            r.ticks_to_wait.0 == spec_ticks(delay_micros, freq_hz),
    {
        LogicalTimer { start_time: now, ticks_to_wait: ClockTick::from_micros(delay_micros, freq_hz) }
    }

    /// Whether the timer has expired when the counter reads `current_time`: the ticks elapsed
    /// since the start, modulo 2^64 so that a counter wrap-around is handled, reach the wait.
    pub fn expired(&self, current_time: u64) -> (r: bool)
        ensures
            r == ((current_time - self.start_time) % 0x1_0000_0000_0000_0000 >= self.ticks_to_wait.0),
    {
        let elapsed_ticks = current_time.wrapping_sub(self.start_time);
        elapsed_ticks >= self.ticks_to_wait.0
    }
}

} // verus!
