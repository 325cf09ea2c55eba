//! Light-emitting diodes on plain or PWM-driven pins.

use vstd::prelude::*;

use crate::pin::pwm::{spec_with_duty, PwmPin};
use crate::pin::{Output, PadRegs, Pin, PinID};

verus! {

/// A diode on a plain output pin.
pub struct Led(pub Pin<Output>);

/// A diode on a PWM-driven pin, dimmable.
pub struct LedPwm(pub PwmPin<Output>);

impl Led {
    /// The diode on the given pin, off.
    pub fn get(i: PinID) -> (r: Led)
        ensures
            r.0.i == i,
            r.0.pad.out == false,
    {
        Led(Pin::<Output>::get(i))
    }

    /// Light the diode.
    pub fn on(&mut self)
        ensures
            *final(self) == Led(
                Pin { pad: PadRegs { out: true, ..old(self).0.pad }, ..old(self).0 },
            ),
    {
        self.0.high()
    }

    /// Darken the diode.
    pub fn off(&mut self)
        ensures
            *final(self) == Led(
                Pin { pad: PadRegs { out: false, ..old(self).0.pad }, ..old(self).0 },
            ),
    {
        self.0.low()
    }
}

impl LedPwm {
    /// The diode on the given pin, driven by its PWM channel.
    pub fn get(i: PinID) -> (r: LedPwm)
        ensures
            r.0.i == crate::pin::pwm_of(i),
    {
        LedPwm(Pin::<Output>::get(i).into_pwm())
    }

    /// Full brightness.
    pub fn on(&mut self)
        ensures
            *final(self) == LedPwm(
                spec_with_duty(
                    old(self).0,
                    (if old(self).0.ch.top == 0xFFFFu16 {
                        0xFFFFu16
                    } else {
                        (old(self).0.ch.top + 1) as u16
                    }),
                ),
            ),
    {
        self.0.high()
    }

    /// Darkness.
    pub fn off(&mut self)
        ensures
            *final(self) == LedPwm(spec_with_duty(old(self).0, 0u16)),
    {
        self.0.low()
    }

    /// Brightness as a percentage of the full duty.
    pub fn brightness(&mut self, p: u8)
        requires
            p <= 100,
        ensures
            *final(self) == LedPwm(
                spec_with_duty(
                    old(self).0,
                    ((if old(self).0.ch.top == 0xFFFFu16 {
                        0xFFFFint
                    } else {
                        old(self).0.ch.top + 1
                    }) / 100 * p as int) as u16,
                ),
            ),
    {
        let m: u16 = self.0.get_max_duty();
        proof {
            lemma_percent_bound(m, p);
        }
        let d: u16 = (m / 100) * (p as u16);
        self.0.set_duty(d)
    }
}

/// A hundredth of a duty scaled by a percentage stays within range.
proof fn lemma_percent_bound(m: u16, p: u8)
    requires
        p <= 100,
    ensures
        ((m / 100) as int) * (p as int) <= 65500,
        ((m / 100) as int) * (p as int) >= 0,
{
    assert(((m / 100) as int) * (p as int) <= 655 * 100 && ((m / 100) as int) * (p as int) >= 0)
        by (nonlinear_arith)
        requires
            m <= 0xFFFFu16,
            p <= 100,
            m / 100 <= 655,
    ;
}

} // verus!
