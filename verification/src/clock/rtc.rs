//! The calendar clock.
//!
//! [`RtcClock`] owns the model of the calendar registers: the running
//! flag, the broken-down time the environment keeps current, the alarm
//! match fields and the interrupt bits.

use vstd::prelude::*;

use crate::clock::{AlarmConfig, RtcError};
use crate::time::Time;

verus! {

/// The calendar clock's register model.
pub struct RtcClock {
    /// Whether the clock counts.
    pub running: bool,
    /// The current calendar value; the environment keeps it moving.
    pub time: Time,
    /// Refuse the leap-year rule when clear.
    pub leap_check: bool,
    /// Alarm interrupt enable.
    pub inte: bool,
    /// Whether the alarm match is armed.
    pub match_ena: bool,
    /// The alarm match fields.
    pub alarm: AlarmConfig,
}

impl RtcClock {
    /// A stopped clock at the earliest valid date.
    pub fn new() -> (r: RtcClock)
        ensures
            r.running == false,
            r.match_ena == false,
            r.inte == false,
            r.leap_check == true,
    {
        RtcClock {
            running: false,
            time: Time::empty(),
            leap_check: true,
            inte: false,
            match_ena: false,
            alarm: AlarmConfig::new(),
        }
    }

    /// Disarm the alarm match.
    pub fn alarm_disable(&mut self)
        ensures
            *final(self) == (RtcClock { match_ena: false, ..*old(self) }),
    {
        self.match_ena = false;
    }

    /// Acknowledge the alarm by rearming its match.
    pub fn interrupt_clear(&mut self)
        ensures
            *final(self) == (RtcClock { match_ena: true, ..*old(self) }),
    {
        self.match_ena = false;
        self.match_ena = true;
    }

    /// Whether the clock counts.
    pub fn is_running(&self) -> (r: bool)
        ensures
            r == self.running,
    {
        self.running
    }

    /// Enable or disable the alarm interrupt.
    pub fn interrupt_set(&mut self, en: bool)
        ensures
            *final(self) == (RtcClock { inte: en, ..*old(self) }),
    {
        self.inte = en;
    }

    /// Apply or suspend the leap-year rule.
    pub fn set_leap_year_check(&mut self, en: bool)
        ensures
            *final(self) == (RtcClock { leap_check: en, ..*old(self) }),
    {
        self.leap_check = en;
    }

    /// The current calendar value: an error while the clock is stopped or
    /// holds no real date, the value otherwise.
    pub fn now(&self) -> (r: Result<Time, RtcError>)
        ensures
            !self.running ==> r == Result::<Time, RtcError>::Err(RtcError::NotRunning),
            self.running && !spec_time_valid(self.time) ==> r == Result::<Time, RtcError>::Err(
                RtcError::InvalidTime,
            ),
            self.running && spec_time_valid(self.time) ==> r == Result::<Time, RtcError>::Ok(
                self.time,
            ),
    {
        if !self.running {
            return Err(RtcError::NotRunning);
        }
        let d = self.time;
        if !d.is_valid() {
            Err(RtcError::InvalidTime)
        } else {
            Ok(d)
        }
    }

    /// Load a calendar value and start counting from it; a value naming
    /// no real date is refused.
    pub fn set_time(&mut self, v: Time) -> (r: Result<(), RtcError>)
        ensures
            !spec_time_valid(v) ==> r == Result::<(), RtcError>::Err(RtcError::InvalidTime)
                && *final(self) == *old(self),
            spec_time_valid(v) ==> r is Ok && *final(self) == (RtcClock {
                running: true,
                time: v,
                ..*old(self)
            }),
    {
        if !v.is_valid() {
            return Err(RtcError::InvalidTime);
        }
        self.running = false;
        self.time = v;
        self.running = true;
        Ok(())
    }

    /// Arm the alarm match: an empty configuration arms nothing, one with
    /// a field outside its calendar range is refused, any other is stored
    /// and armed.
    pub fn set_alarm(&mut self, v: AlarmConfig) -> (r: Result<(), RtcError>)
        ensures
            spec_alarm_empty(v) ==> r is Ok && *final(self) == *old(self),
            !spec_alarm_empty(v) && !spec_alarm_valid(v) ==> r == Result::<(), RtcError>::Err(
                RtcError::InvalidTime,
            ) && *final(self) == *old(self),
            !spec_alarm_empty(v) && spec_alarm_valid(v) ==> r is Ok && *final(self) == (RtcClock {
                alarm: v,
                match_ena: true,
                ..*old(self)
            }),
    {
        if v.is_empty() {
            return Ok(());
        }
        if !v.is_valid() {
            return Err(RtcError::InvalidTime);
        }
        self.match_ena = false;
        self.alarm = v;
        self.match_ena = true;
        Ok(())
    }
}

/// Whether a calendar value names a real instant.
pub open spec fn spec_time_valid(t: Time) -> bool {
    1 <= t.day <= 31 && t.hours <= 23 && t.mins <= 59 && t.secs <= 59 && t.month
        != crate::time::Month::Unset
}

/// Whether an alarm configuration matches on nothing that repeats.
pub open spec fn spec_alarm_empty(v: AlarmConfig) -> bool {
    v.day is None && v.mins is None && v.secs is None && v.hours is None && v.weekday
        == crate::time::Weekday::Unset
}

/// Whether every set alarm field is inside its calendar range.
pub open spec fn spec_alarm_valid(v: AlarmConfig) -> bool {
    &&& (match v.day {
        Some(d) => 1 <= d <= 31,
        None => true,
    })
    &&& (match v.hours {
        Some(d) => d <= 23,
        None => true,
    })
    &&& (match v.mins {
        Some(d) => d <= 59,
        None => true,
    })
    &&& (match v.secs {
        Some(d) => d <= 59,
        None => true,
    })
}

} // verus!
