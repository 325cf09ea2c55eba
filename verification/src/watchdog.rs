//! Watchdog timer.
//!
//! The watchdog's registers live as plain data: the tick generator, the
//! control enable, the reload value and the eight scratch registers that
//! survive a reset.  Loading happens in microsecond pairs, exactly as the
//! hardware counts.

use vstd::prelude::*;

verus! {

/// One of the eight reset-surviving scratch registers.
#[derive(Clone, Copy, Debug, PartialEq, Eq, Structural)]
pub enum Scratch {
    Register0,
    Register1,
    Register2,
    Register3,
    Register4,
    Register5,
    Register6,
    Register7,
}

/// The watchdog's register model plus the driver's remembered reload
/// value.
pub struct Watchdog {
    /// Tick generator: cycle count in the low bits, enable at bit 9.
    pub tick: u32,
    /// Countdown enable.
    pub enable: bool,
    /// Pause while a debugger halts either core or the JTAG port.
    pub pause_dbg0: bool,
    pub pause_dbg1: bool,
    pub pause_jtag: bool,
    /// Value loaded into the countdown on a feed.
    pub load: u32,
    /// The reload value the driver remembers between feeds.
    pub value: u32,
    /// The eight scratch registers.
    pub scratch0: u32,
    pub scratch1: u32,
    pub scratch2: u32,
    pub scratch3: u32,
    pub scratch4: u32,
    pub scratch5: u32,
    pub scratch6: u32,
    pub scratch7: u32,
}

impl Watchdog {
    /// A watchdog whose tick generator divides the given frequency down
    /// to microseconds, not yet counting.
    pub fn new(freq: u32) -> (r: Watchdog)
        ensures
            r.tick == if freq / 1_000_000 < 0xFF {
                freq / 1_000_000
            } else {
                0xFFu32
            },
            r.enable == false,
            r.load == 0 && r.value == 0,
            r.scratch0 == 0 && r.scratch1 == 0 && r.scratch2 == 0 && r.scratch3 == 0,
            r.scratch4 == 0 && r.scratch5 == 0 && r.scratch6 == 0 && r.scratch7 == 0,
    {
        let c: u32 = freq / 1_000_000;
        Watchdog {
            tick: if c < 0xFF {
                c
            } else {
                0xFF
            },
            enable: false,
            pause_dbg0: false,
            pause_dbg1: false,
            pause_jtag: false,
            load: 0,
            value: 0,
            scratch0: 0,
            scratch1: 0,
            scratch2: 0,
            scratch3: 0,
            scratch4: 0,
            scratch5: 0,
            scratch6: 0,
            scratch7: 0,
        }
    }

    /// Reload the countdown from the remembered value.
    pub fn feed(&mut self)
        ensures
            *final(self) == (Watchdog { load: old(self).value, ..*old(self) }),
    {
        self.load = self.value;
    }

    /// Reload the countdown from the remembered value.
    pub fn ping(&mut self)
        ensures
            *final(self) == (Watchdog { load: old(self).value, ..*old(self) }),
    {
        self.feed();
    }

    /// Stop the countdown.
    pub fn disable(&mut self)
        ensures
            *final(self) == (Watchdog { enable: false, ..*old(self) }),
    {
        self.enable = false;
    }

    /// Turn the tick generator on, keeping its cycle count.
    pub fn enable_ticks(&mut self)
        ensures
            *final(self) == (Watchdog { tick: old(self).tick | 0x200u32, ..*old(self) }),
    {
        self.tick = self.tick | 0x200;
    }

    /// Arm the watchdog with a millisecond deadline.
    pub fn start(&mut self, ms: u32)
        requires
            ms <= 0x418937,
        ensures
            *final(self) == spec_started(*old(self), (ms * 1000) as u32),
    {
        self.start_us(ms * 1_000);
    }

    /// The tick generator's cycle field.
    pub fn countdown(&self) -> (r: u16)
        ensures
            r == (self.tick % 0x200) as u16,
    {
        (self.tick % 0x200) as u16
    }

    /// Disarm, then arm again with a millisecond deadline.
    pub fn restart(&mut self, ms: u32)
        requires
            ms <= 0x418937,
        ensures
            *final(self) == spec_started(
                Watchdog { enable: false, ..*old(self) },
                (ms * 1000) as u32,
            ),
    {
        self.restart_us(ms * 1_000)
    }

    /// Arm the watchdog with a microsecond deadline: the deadline is
    /// clamped, doubled into the reload value (the counter ticks twice
    /// per microsecond), the tick generator is switched on if needed, the
    /// countdown is loaded and enabled.
    pub fn start_us(&mut self, us: u32)
        ensures
            *final(self) == spec_started(*old(self), us),
    {
        let d: u32 = if us < 0x7FFFFF {
            us
        } else {
            0x7FFFFF
        };
        self.enable = false;
        self.value = d * 2;
        if !self.is_ticking() {
            self.enable_ticks();
        }
        self.feed();
        self.enable = true;
    }

    /// Whether the tick generator is running.
    pub fn is_ticking(&self) -> (r: bool)
        ensures
            r == (self.tick & 0x200u32 != 0),
    {
        self.tick & 0x200 != 0
    }

    /// Disarm, then arm again with a microsecond deadline.
    pub fn restart_us(&mut self, us: u32)
        ensures
            *final(self) == spec_started(Watchdog { enable: false, ..*old(self) }, us),
    {
        self.disable();
        self.start_us(us);
    }

    /// Pause or run the countdown while a debugger is attached.
    pub fn pause_on_debug(&mut self, pause_en: bool)
        ensures
            *final(self) == (Watchdog {
                pause_dbg0: pause_en,
                pause_dbg1: pause_en,
                pause_jtag: pause_en,
                ..*old(self)
            }),
    {
        self.pause_dbg0 = pause_en;
        self.pause_dbg1 = pause_en;
        self.pause_jtag = pause_en;
    }

    /// Turn the tick generator on with the given cycle count.
    pub fn enable_with_cycles(&mut self, cycles: u8)
        ensures
            *final(self) == (Watchdog { tick: (0x200 + cycles as u32) as u32, ..*old(self) }),
    {
        self.tick = 0x200 + cycles as u32;
    }

    /// One reset-surviving scratch register.
    pub fn read_scratch(&self, r: Scratch) -> (v: u32)
        ensures
            v == spec_scratch(*self, r),
    {
        match r {
            Scratch::Register0 => self.scratch0,
            Scratch::Register1 => self.scratch1,
            Scratch::Register2 => self.scratch2,
            Scratch::Register3 => self.scratch3,
            Scratch::Register4 => self.scratch4,
            Scratch::Register5 => self.scratch5,
            Scratch::Register6 => self.scratch6,
            Scratch::Register7 => self.scratch7,
        }
    }

    /// Write one reset-surviving scratch register.
    pub fn write_scratch(&mut self, r: Scratch, v: u32)
        ensures
            spec_scratch(*final(self), r) == v,
            forall|o: Scratch| o != r ==> spec_scratch(*final(self), o) == spec_scratch(
                *old(self),
                o,
            ),
            final(self).tick == old(self).tick,
            final(self).enable == old(self).enable,
            final(self).load == old(self).load,
            final(self).value == old(self).value,
    {
        match r {
            Scratch::Register0 => self.scratch0 = v,
            Scratch::Register1 => self.scratch1 = v,
            Scratch::Register2 => self.scratch2 = v,
            Scratch::Register3 => self.scratch3 = v,
            Scratch::Register4 => self.scratch4 = v,
            Scratch::Register5 => self.scratch5 = v,
            Scratch::Register6 => self.scratch6 = v,
            Scratch::Register7 => self.scratch7 = v,
        }
    }
}

/// The scratch register named by `r`.
pub open spec fn spec_scratch(w: Watchdog, r: Scratch) -> u32 {
    match r {
        Scratch::Register0 => w.scratch0,
        Scratch::Register1 => w.scratch1,
        Scratch::Register2 => w.scratch2,
        Scratch::Register3 => w.scratch3,
        Scratch::Register4 => w.scratch4,
        Scratch::Register5 => w.scratch5,
        Scratch::Register6 => w.scratch6,
        Scratch::Register7 => w.scratch7,
    }
}

/// The watchdog after arming with a microsecond deadline.
pub open spec fn spec_started(w: Watchdog, us: u32) -> Watchdog {
    let d = if us < 0x7FFFFF {
        us as int
    } else {
        0x7FFFFFint
    };
    Watchdog {
        enable: true,
        value: (d * 2) as u32,
        load: (d * 2) as u32,
        tick: if w.tick & 0x200u32 != 0 {
            w.tick
        } else {
            w.tick | 0x200u32
        },
        ..w
    }
}

} // verus!
