//! Pulse-width modulation channels.
//!
//! A [`PwmPin`] owns the model of the slice registers behind one channel
//! output: counter, top, divisor, compare values, mode and interrupt bits,
//! plus the driver's own remembered duty and enable state.  Setting the
//! state off parks the compare value at zero and remembers the duty, so a
//! later enable restores it — exactly the dance the hardware interface
//! calls for.

use vstd::prelude::*;

use crate::pin::PinIO;

verus! {

/// One of the sixteen PWM channel outputs: slices 0–7, side A or B.
#[derive(Clone, Copy, Debug, PartialEq, Eq, Structural)]
pub enum PwmID {
    Pwm0A,
    Pwm0B,
    Pwm1A,
    Pwm1B,
    Pwm2A,
    Pwm2B,
    Pwm3A,
    Pwm3B,
    Pwm4A,
    Pwm4B,
    Pwm5A,
    Pwm5B,
    Pwm6A,
    Pwm6B,
    Pwm7A,
    Pwm7B,
}

/// Counting mode of a slice.
#[derive(Clone, Copy, Debug, PartialEq, Eq, Structural)]
pub enum PwmMode {
    /// Count every cycle.
    Free,
    /// Count while the B input is high.
    High,
    /// Count on rising edges of the B input.
    Rising,
    /// Count on falling edges of the B input.
    Falling,
}

impl PwmID {
    /// The slice number in `0..8`.
    pub open spec fn spec_channel(self) -> int {
        match self {
            PwmID::Pwm0A | PwmID::Pwm0B => 0,
            PwmID::Pwm1A | PwmID::Pwm1B => 1,
            PwmID::Pwm2A | PwmID::Pwm2B => 2,
            PwmID::Pwm3A | PwmID::Pwm3B => 3,
            PwmID::Pwm4A | PwmID::Pwm4B => 4,
            PwmID::Pwm5A | PwmID::Pwm5B => 5,
            PwmID::Pwm6A | PwmID::Pwm6B => 6,
            PwmID::Pwm7A | PwmID::Pwm7B => 7,
        }
    }

    /// Whether this is the B side of its slice.
    pub open spec fn spec_is_b(self) -> bool {
        match self {
            PwmID::Pwm0B | PwmID::Pwm1B | PwmID::Pwm2B | PwmID::Pwm3B | PwmID::Pwm4B
                | PwmID::Pwm5B | PwmID::Pwm6B | PwmID::Pwm7B => true,
            _ => false,
        }
    }

    /// The slice number, computed.
    pub fn channel(self) -> (r: u8)
        ensures
            r as int == self.spec_channel(),
            r < 8,
    {
        match self {
            PwmID::Pwm0A | PwmID::Pwm0B => 0,
            PwmID::Pwm1A | PwmID::Pwm1B => 1,
            PwmID::Pwm2A | PwmID::Pwm2B => 2,
            PwmID::Pwm3A | PwmID::Pwm3B => 3,
            PwmID::Pwm4A | PwmID::Pwm4B => 4,
            PwmID::Pwm5A | PwmID::Pwm5B => 5,
            PwmID::Pwm6A | PwmID::Pwm6B => 6,
            PwmID::Pwm7A | PwmID::Pwm7B => 7,
        }
    }

    /// Whether this is the B side, computed.
    pub fn is_b(self) -> (r: bool)
        ensures
            r == self.spec_is_b(),
    {
        match self {
            PwmID::Pwm0B | PwmID::Pwm1B | PwmID::Pwm2B | PwmID::Pwm3B | PwmID::Pwm4B
                | PwmID::Pwm5B | PwmID::Pwm6B | PwmID::Pwm7B => true,
            _ => false,
        }
    }
}

/// The channel output with the given slice number and side.
pub open spec fn spec_pwm_of_index(ch: int, b: bool) -> PwmID {
    if b {
        if ch == 0 {
            PwmID::Pwm0B
        } else if ch == 1 {
            PwmID::Pwm1B
        } else if ch == 2 {
            PwmID::Pwm2B
        } else if ch == 3 {
            PwmID::Pwm3B
        } else if ch == 4 {
            PwmID::Pwm4B
        } else if ch == 5 {
            PwmID::Pwm5B
        } else if ch == 6 {
            PwmID::Pwm6B
        } else {
            PwmID::Pwm7B
        }
    } else {
        if ch == 0 {
            PwmID::Pwm0A
        } else if ch == 1 {
            PwmID::Pwm1A
        } else if ch == 2 {
            PwmID::Pwm2A
        } else if ch == 3 {
            PwmID::Pwm3A
        } else if ch == 4 {
            PwmID::Pwm4A
        } else if ch == 5 {
            PwmID::Pwm5A
        } else if ch == 6 {
            PwmID::Pwm6A
        } else {
            PwmID::Pwm7A
        }
    }
}

/// The channel output with the given slice number and side, computed.
pub fn pwm_of_index(ch: u8, b: bool) -> (r: PwmID)
    ensures
        r == spec_pwm_of_index(ch as int, b),
{
    if b {
        match ch {
            0 => PwmID::Pwm0B,
            1 => PwmID::Pwm1B,
            2 => PwmID::Pwm2B,
            3 => PwmID::Pwm3B,
            4 => PwmID::Pwm4B,
            5 => PwmID::Pwm5B,
            6 => PwmID::Pwm6B,
            _ => PwmID::Pwm7B,
        }
    } else {
        match ch {
            0 => PwmID::Pwm0A,
            1 => PwmID::Pwm1A,
            2 => PwmID::Pwm2A,
            3 => PwmID::Pwm3A,
            4 => PwmID::Pwm4A,
            5 => PwmID::Pwm5A,
            6 => PwmID::Pwm6A,
            _ => PwmID::Pwm7A,
        }
    }
}

/// Model of one slice's registers, as this channel sees them.
#[derive(Clone, Copy, Debug, PartialEq, Eq, Structural)]
pub struct PwmChRegs {
    /// Slice enable.
    pub en: bool,
    /// Phase-correct (up-down) counting.
    pub ph_correct: bool,
    /// Invert the A output.
    pub a_inv: bool,
    /// Invert the B output.
    pub b_inv: bool,
    /// Counting mode.
    pub mode: PwmMode,
    /// Divisor, integer part.
    pub div_int: u8,
    /// Divisor, fractional part in units of 1/16.
    pub div_frac: u8,
    /// The running counter.
    pub ctr: u16,
    /// Wrap value of the counter.
    pub top: u16,
    /// Compare value of the A output.
    pub cc_a: u16,
    /// Compare value of the B output.
    pub cc_b: u16,
    /// Latched wrap interrupt.
    pub intr: bool,
    /// Wrap interrupt enable.
    pub inte: bool,
}

/// One PWM channel output with the model of its slice.
pub struct PwmPin<F: PinIO> {
    /// Which channel output this is.
    pub i: PwmID,
    /// The slice register model.
    pub ch: PwmChRegs,
    /// Duty remembered while the output is parked.
    pub value: u16,
    /// Whether the driver treats the output as live.
    pub on: bool,
    /// Carries the direction marker.
    pub dir: core::marker::PhantomData<F>,
}

impl PwmPin<crate::pin::Output> {
    /// Park the output at zero duty.
    pub fn low(&mut self)
        ensures
            *final(self) == spec_with_duty(*old(self), 0u16),
    {
        self.set_duty(0)
    }

    /// Drive the output at full duty.
    pub fn high(&mut self)
        ensures
            *final(self) == spec_with_duty(
                *old(self),
                (if old(self).ch.top == 0xFFFFu16 {
                    0xFFFFu16
                } else {
                    (old(self).ch.top + 1) as u16
                }),
            ),
    {
        let d: u16 = self.get_max_duty();
        self.set_duty(d)
    }

    /// Drive full or park at zero.
    pub fn set_on(&mut self, en: bool)
        ensures
            en ==> *final(self) == spec_with_duty(
                *old(self),
                (if old(self).ch.top == 0xFFFFu16 {
                    0xFFFFu16
                } else {
                    (old(self).ch.top + 1) as u16
                }),
            ),
            !en ==> *final(self) == spec_with_duty(*old(self), 0u16),
    {
        if en {
            self.high();
        } else {
            self.low();
        }
    }
}

/// The channel after a duty write: the remembered value always updates;
/// the live compare value only while the output is live.
pub open spec fn spec_with_duty<F: PinIO>(p: PwmPin<F>, v: u16) -> PwmPin<F> {
    if !p.on {
        PwmPin { value: v, ..p }
    } else if p.i.spec_is_b() {
        PwmPin { value: v, ch: PwmChRegs { cc_b: v, ..p.ch }, ..p }
    } else {
        PwmPin { value: v, ch: PwmChRegs { cc_a: v, ..p.ch }, ..p }
    }
}

impl<F: PinIO> PwmPin<F> {
    /// A channel bound to its reset slice: divisor one, top just under
    /// full scale, phase-correct, parked.
    pub(crate) fn new(i: PwmID) -> (r: PwmPin<F>)
        ensures
            r.i == i,
            r.value == 0u16,
            r.on == true,
            r.ch == (PwmChRegs {
                en: false,
                ph_correct: true,
                a_inv: false,
                b_inv: true,
                mode: PwmMode::Free,
                div_int: 1u8,
                div_frac: 0u8,
                ctr: 0u16,
                top: 0xFFFEu16,
                cc_a: 0u16,
                cc_b: 0u16,
                intr: false,
                inte: false,
            }),
    {
        PwmPin {
            i,
            ch: PwmChRegs {
                en: false,
                ph_correct: true,
                a_inv: false,
                b_inv: true,
                mode: PwmMode::Free,
                div_int: 1,
                div_frac: 0,
                ctr: 0,
                top: 0xFFFE,
                cc_a: 0,
                cc_b: 0,
                intr: false,
                inte: false,
            },
            value: 0,
            on: true,
            dir: core::marker::PhantomData,
        }
    }

    /// Which channel output this is.
    pub fn id(&self) -> (r: &PwmID)
        ensures
            *r == self.i,
    {
        &self.i
    }

    /// Set the counter's wrap value.
    pub fn set_top(&mut self, v: u16)
        ensures
            *final(self) == (PwmPin { ch: PwmChRegs { top: v, ..old(self).ch }, ..*old(self) }),
    {
        self.ch.top = v;
    }

    /// The counter's wrap value.
    pub fn get_top(&self) -> (r: u16)
        ensures
            r == self.ch.top,
    {
        self.ch.top
    }

    /// The current duty: the live compare value, or the remembered one
    /// while the output is parked.
    pub fn get_duty(&self) -> (r: u16)
        ensures
            r == (if !self.on {
                self.value
            } else if self.i.spec_is_b() {
                self.ch.cc_b
            } else {
                self.ch.cc_a
            }),
    {
        if !self.on {
            self.value
        } else if self.i.is_b() {
            self.ch.cc_b
        } else {
            self.ch.cc_a
        }
    }

    /// Clear the latched wrap interrupt of this slice.
    pub fn interrupt_clear(&mut self)
        ensures
            *final(self) == (PwmPin {
                ch: PwmChRegs { intr: false, ..old(self).ch },
                ..*old(self)
            }),
    {
        self.ch.intr = false;
    }

    /// Set the duty: remembered always, live only while the output is on.
    pub fn set_duty(&mut self, v: u16)
        ensures
            *final(self) == spec_with_duty(*old(self), v),
    {
        self.value = v;
        if !self.on {
            return ;
        }
        if self.i.is_b() {
            self.ch.cc_b = v;
        } else {
            self.ch.cc_a = v;
        }
    }

    /// Whether the driver treats the output as live.
    pub fn get_state(&self) -> (r: bool)
        ensures
            r == self.on,
    {
        self.on
    }

    /// The running counter.
    pub fn get_counter(&self) -> (r: u16)
        ensures
            r == self.ch.ctr,
    {
        self.ch.ctr
    }

    /// Whether the driver treats the output as live.
    pub fn is_enabled(&self) -> (r: bool)
        ensures
            r == self.on,
    {
        self.on
    }

    /// Set the divisor's integer part.
    pub fn set_div_int(&mut self, v: u8)
        ensures
            *final(self) == (PwmPin {
                ch: PwmChRegs { div_int: v, ..old(self).ch },
                ..*old(self)
            }),
    {
        self.ch.div_int = v;
    }

    /// Set the divisor's fractional part.
    pub fn set_div_frac(&mut self, v: u8)
        ensures
            *final(self) == (PwmPin {
                ch: PwmChRegs { div_frac: v, ..old(self).ch },
                ..*old(self)
            }),
    {
        self.ch.div_frac = v;
    }

    /// Force the running counter.
    pub fn set_counter(&mut self, v: u16)
        ensures
            *final(self) == (PwmPin { ch: PwmChRegs { ctr: v, ..old(self).ch }, ..*old(self) }),
    {
        self.ch.ctr = v;
    }

    /// The duty that drives the output fully high: top plus one,
    /// saturating.
    pub fn get_max_duty(&self) -> (r: u16)
        ensures
            r == (if self.ch.top == 0xFFFFu16 {
                0xFFFFu16
            } else {
                (self.ch.top + 1) as u16
            }),
    {
        if self.ch.top == 0xFFFF {
            0xFFFF
        } else {
            self.ch.top + 1
        }
    }

    /// Turn the output live or parked: parking remembers the duty and
    /// zeroes the live compare value; enabling restores it.
    pub fn set_state(&mut self, en: bool)
        ensures
            en ==> *final(self) == (if old(self).i.spec_is_b() {
                PwmPin {
                    on: true,
                    ch: PwmChRegs { cc_b: old(self).value, ..old(self).ch },
                    ..*old(self)
                }
            } else {
                PwmPin {
                    on: true,
                    ch: PwmChRegs { cc_a: old(self).value, ..old(self).ch },
                    ..*old(self)
                }
            }),
            !en ==> *final(self) == (if old(self).i.spec_is_b() {
                PwmPin {
                    on: false,
                    value: if old(self).on {
                        old(self).ch.cc_b
                    } else {
                        old(self).value
                    },
                    ch: PwmChRegs { cc_b: 0u16, ..old(self).ch },
                    ..*old(self)
                }
            } else {
                PwmPin {
                    on: false,
                    value: if old(self).on {
                        old(self).ch.cc_a
                    } else {
                        old(self).value
                    },
                    ch: PwmChRegs { cc_a: 0u16, ..old(self).ch },
                    ..*old(self)
                }
            }),
    {
        if en {
            if self.i.is_b() {
                self.ch.cc_b = self.value;
            } else {
                self.ch.cc_a = self.value;
            }
            self.on = true;
        } else {
            self.value = self.get_duty();
            if self.i.is_b() {
                self.ch.cc_b = 0;
            } else {
                self.ch.cc_a = 0;
            }
            self.on = false;
        }
    }

    /// Whether the slice's wrap interrupt is latched.
    pub fn is_overflown(&self) -> (r: bool)
        ensures
            r == self.ch.intr,
    {
        self.ch.intr
    }

    /// Select the counting mode.
    pub fn set_mode(&mut self, m: PwmMode)
        ensures
            *final(self) == (PwmPin { ch: PwmChRegs { mode: m, ..old(self).ch }, ..*old(self) }),
    {
        self.ch.mode = m;
    }

    /// Invert or restore this side's output.
    pub fn set_inverted(&mut self, inv: bool)
        ensures
            old(self).i.spec_is_b() ==> *final(self) == (PwmPin {
                ch: PwmChRegs { b_inv: inv, ..old(self).ch },
                ..*old(self)
            }),
            !old(self).i.spec_is_b() ==> *final(self) == (PwmPin {
                ch: PwmChRegs { a_inv: inv, ..old(self).ch },
                ..*old(self)
            }),
    {
        if self.i.is_b() {
            self.ch.b_inv = inv;
        } else {
            self.ch.a_inv = inv;
        }
    }

    /// Enable or disable the slice's wrap interrupt.
    pub fn interrupt_set(&mut self, en: bool)
        ensures
            *final(self) == (PwmPin { ch: PwmChRegs { inte: en, ..old(self).ch }, ..*old(self) }),
    {
        self.ch.inte = en;
    }

    /// Turn phase-correct (up-down) counting on or off.
    pub fn set_phase_correct(&mut self, en: bool)
        ensures
            *final(self) == (PwmPin {
                ch: PwmChRegs { ph_correct: en, ..old(self).ch },
                ..*old(self)
            }),
    {
        self.ch.ph_correct = en;
    }
}

} // verus!
