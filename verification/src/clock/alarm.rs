//! One-shot alarms on the microsecond timer.
//!
//! An [`Alarm`] owns the model of its timer channel: the raw tick counter
//! the environment advances, the armed flag and the interrupt bits.
//! Scheduling arms the channel at the current tick plus the delay.

use vstd::prelude::*;

verus! {

/// One of the four alarm channels.
#[derive(Clone, Copy, Debug, PartialEq, Eq, Structural)]
pub enum AlarmID {
    Alarm0,
    Alarm1,
    Alarm2,
    Alarm3,
}

/// One alarm channel with its timer model.
pub struct Alarm {
    /// Which channel this is.
    pub i: AlarmID,
    /// The 64-bit microsecond counter; the environment advances it.
    pub tick: u64,
    /// Whether the channel is armed.
    pub armed: bool,
    /// The tick the channel fires at, while armed.
    pub target: u64,
    /// Forced-interrupt flag.
    pub intf: bool,
    /// Interrupt enable.
    pub inte: bool,
}

impl Alarm {
    /// The given channel, disarmed, at tick zero.
    pub fn new(a: AlarmID) -> (r: Alarm)
        ensures
            r.i == a,
            r.tick == 0,
            r.armed == false,
            r.intf == false,
            r.inte == false,
    {
        Alarm { i: a, tick: 0, armed: false, target: 0, intf: false, inte: false }
    }

    /// Disarm the channel and drop any forced interrupt.
    pub fn cancel(&mut self)
        ensures
            *final(self) == (Alarm { armed: false, intf: false, ..*old(self) }),
    {
        self.armed = false;
        self.intf = false;
    }

    /// Whether the channel has fired (or was never armed).
    pub fn done(&self) -> (r: bool)
        ensures
            r == !self.armed,
    {
        !self.armed
    }

    /// Which channel this is.
    pub fn id(&self) -> (r: &AlarmID)
        ensures
            *r == self.i,
    {
        &self.i
    }

    /// The 64-bit microsecond counter.
    pub fn current_tick(&self) -> (r: u64)
        ensures
            r == self.tick,
    {
        self.tick
    }

    /// Arm the channel a number of milliseconds ahead.
    pub fn schedule(&mut self, ms: u32)
        requires
            ms <= 4_294_967,
            old(self).tick + ms * 1000 <= u64::MAX,
        ensures
            *final(self) == (Alarm {
                armed: true,
                target: (old(self).tick + ms * 1000) as u64,
                ..*old(self)
            }),
    {
        self.schedule_us(ms * 1_000);
    }

    /// Arm the channel a number of microseconds ahead.
    pub fn schedule_us(&mut self, us: u32)
        requires
            old(self).tick + us <= u64::MAX,
        ensures
            *final(self) == (Alarm {
                armed: true,
                target: (old(self).tick + us) as u64,
                ..*old(self)
            }),
    {
        self.target = self.tick + us as u64;
        self.armed = true;
    }

    /// Enable or disable the channel's interrupt.
    pub fn interrupt_set(&mut self, en: bool)
        ensures
            *final(self) == (Alarm { inte: en, ..*old(self) }),
    {
        self.inte = en;
    }

    /// Clear the channel's forced interrupt.
    pub fn interrupt_clear(&mut self)
        ensures
            *final(self) == (Alarm { intf: false, ..*old(self) }),
    {
        self.intf = false;
    }
}

} // verus!
