//! The system clock and the microsecond timer.
//!
//! [`Clock`] keeps the settled system frequency, the calendar clock and
//! the word of oscillator entropy the environment last gathered.
//! [`Timer`] is the free-running microsecond counter; in the model a sleep
//! advances it by exactly the sleep's length.

use vstd::prelude::*;

use crate::clock::rtc::RtcClock;

verus! {

/// The system clock tree, settled.
pub struct Clock {
    /// The system frequency, in hertz.
    pub sys_freq: u32,
    /// Ring-oscillator entropy the environment gathered; drawn by `seed`.
    pub entropy: u32,
    /// The calendar clock.
    pub calendar: RtcClock,
}

/// The free-running microsecond counter.
pub struct Timer {
    /// Microseconds since the tick generator started.
    pub tick: u64,
}

impl Clock {
    /// A settled clock tree at the given frequency, calendar stopped.
    pub fn new(freq: u32) -> (r: Clock)
        ensures
            r.sys_freq == freq,
            r.entropy == 0,
            r.calendar.running == false,
    {
        Clock { sys_freq: freq, entropy: 0, calendar: RtcClock::new() }
    }

    /// The system frequency, in hertz.
    pub fn freq(&self) -> (r: u32)
        ensures
            r == self.sys_freq,
    {
        self.sys_freq
    }

    /// The entropy word the environment last gathered; on silicon each
    /// call samples the ring oscillator, so nothing relates two calls.
    pub fn seed(&self) -> (r: u32)
        ensures
            r == self.entropy,
    {
        self.entropy
    }

    /// The calendar clock.
    pub fn rtc(&self) -> (r: &RtcClock)
        ensures
            *r == self.calendar,
    {
        &self.calendar
    }
}

impl Timer {
    /// A counter at zero.
    pub fn new() -> (r: Timer)
        ensures
            r.tick == 0,
    {
        Timer { tick: 0 }
    }

    /// Microseconds since the tick generator started.
    pub fn current_tick(&self) -> (r: u64)
        ensures
            r == self.tick,
    {
        self.tick
    }

    /// Wait a number of milliseconds; the model advances the counter by
    /// exactly that long.
    pub fn sleep_ms(&mut self, ms: u32)
        requires
            ms <= 4_294_967,
            old(self).tick + ms * 1000 <= u64::MAX,
        ensures
            final(self).tick == old(self).tick + ms * 1000,
    {
        self.sleep_us(ms * 1_000);
    }

    /// Wait a number of microseconds.
    pub fn sleep_us(&mut self, us: u32)
        requires
            old(self).tick + us <= u64::MAX,
        ensures
            final(self).tick == old(self).tick + us,
    {
        self.tick = self.tick + us as u64;
    }
}

} // verus!
