//! General-purpose I/O pins.
//!
//! Each [`Pin`] owns the model of its own pad: output level, input and
//! output enables, pull resistors, drive strength, slew rate, input
//! hysteresis, function selector and per-pin interrupt bits.  The input
//! level is a model field the environment sets.  The direction markers
//! [`Input`] and [`Output`] pick, at compile time, which operations the
//! pin offers.

use vstd::prelude::*;

use crate::pin::pwm::{PwmID, PwmPin};

pub mod adc;
pub mod led;
pub mod pwm;

verus! {

/// Identity of one of the thirty user pins.
#[derive(Clone, Copy, Debug, PartialEq, Eq, Structural)]
pub enum PinID {
    Pin0,
    Pin1,
    Pin2,
    Pin3,
    Pin4,
    Pin5,
    Pin6,
    Pin7,
    Pin8,
    Pin9,
    Pin10,
    Pin11,
    Pin12,
    Pin13,
    Pin14,
    Pin15,
    Pin16,
    Pin17,
    Pin18,
    Pin19,
    Pin20,
    Pin21,
    Pin22,
    Pin23,
    Pin24,
    Pin25,
    Pin26,
    Pin27,
    Pin28,
    Pin29,
}

impl PinID {
    /// The pin as a number in `0..30`.
    pub open spec fn as_int(self) -> int {
        match self {
            PinID::Pin0 => 0,
            PinID::Pin1 => 1,
            PinID::Pin2 => 2,
            PinID::Pin3 => 3,
            PinID::Pin4 => 4,
            PinID::Pin5 => 5,
            PinID::Pin6 => 6,
            PinID::Pin7 => 7,
            PinID::Pin8 => 8,
            PinID::Pin9 => 9,
            PinID::Pin10 => 10,
            PinID::Pin11 => 11,
            PinID::Pin12 => 12,
            PinID::Pin13 => 13,
            PinID::Pin14 => 14,
            PinID::Pin15 => 15,
            PinID::Pin16 => 16,
            PinID::Pin17 => 17,
            PinID::Pin18 => 18,
            PinID::Pin19 => 19,
            PinID::Pin20 => 20,
            PinID::Pin21 => 21,
            PinID::Pin22 => 22,
            PinID::Pin23 => 23,
            PinID::Pin24 => 24,
            PinID::Pin25 => 25,
            PinID::Pin26 => 26,
            PinID::Pin27 => 27,
            PinID::Pin28 => 28,
            PinID::Pin29 => 29,
        }
    }

    /// The pin number as a machine integer.
    pub fn index(self) -> (r: u8)
        ensures
            r as int == self.as_int(),
            r < 30,
    {
        match self {
            PinID::Pin0 => 0,
            PinID::Pin1 => 1,
            PinID::Pin2 => 2,
            PinID::Pin3 => 3,
            PinID::Pin4 => 4,
            PinID::Pin5 => 5,
            PinID::Pin6 => 6,
            PinID::Pin7 => 7,
            PinID::Pin8 => 8,
            PinID::Pin9 => 9,
            PinID::Pin10 => 10,
            PinID::Pin11 => 11,
            PinID::Pin12 => 12,
            PinID::Pin13 => 13,
            PinID::Pin14 => 14,
            PinID::Pin15 => 15,
            PinID::Pin16 => 16,
            PinID::Pin17 => 17,
            PinID::Pin18 => 18,
            PinID::Pin19 => 19,
            PinID::Pin20 => 20,
            PinID::Pin21 => 21,
            PinID::Pin22 => 22,
            PinID::Pin23 => 23,
            PinID::Pin24 => 24,
            PinID::Pin25 => 25,
            PinID::Pin26 => 26,
            PinID::Pin27 => 27,
            PinID::Pin28 => 28,
            PinID::Pin29 => 29,
        }
    }

    /// The pin with the given number, if it exists.
    pub fn try_from(v: u8) -> (r: Result<PinID, PinInvalidError>)
        ensures
            v < 30 ==> (r matches Ok(p) && p.as_int() == v as int),
            v >= 30 ==> r is Err,
    {
        match v {
            0 => Ok(PinID::Pin0),
            1 => Ok(PinID::Pin1),
            2 => Ok(PinID::Pin2),
            3 => Ok(PinID::Pin3),
            4 => Ok(PinID::Pin4),
            5 => Ok(PinID::Pin5),
            6 => Ok(PinID::Pin6),
            7 => Ok(PinID::Pin7),
            8 => Ok(PinID::Pin8),
            9 => Ok(PinID::Pin9),
            10 => Ok(PinID::Pin10),
            11 => Ok(PinID::Pin11),
            12 => Ok(PinID::Pin12),
            13 => Ok(PinID::Pin13),
            14 => Ok(PinID::Pin14),
            15 => Ok(PinID::Pin15),
            16 => Ok(PinID::Pin16),
            17 => Ok(PinID::Pin17),
            18 => Ok(PinID::Pin18),
            19 => Ok(PinID::Pin19),
            20 => Ok(PinID::Pin20),
            21 => Ok(PinID::Pin21),
            22 => Ok(PinID::Pin22),
            23 => Ok(PinID::Pin23),
            24 => Ok(PinID::Pin24),
            25 => Ok(PinID::Pin25),
            26 => Ok(PinID::Pin26),
            27 => Ok(PinID::Pin27),
            28 => Ok(PinID::Pin28),
            29 => Ok(PinID::Pin29),
            _ => Err(PinInvalidError),
        }
    }

    /// Whether the pin number is odd.
    pub fn is_odd(self) -> (r: bool)
        ensures
            r == (self.as_int() % 2 == 1),
    {
        self.index() % 2 == 1
    }
}

/// Reported when a number names no pin.
#[derive(Clone, Copy, Debug, PartialEq, Eq, Structural)]
pub struct PinInvalidError;

/// Pull resistor selection of a pad; `Floating` selects neither resistor.
#[derive(Clone, Copy, Debug, PartialEq, Eq, Structural)]
pub enum PinPull {
    Up,
    Down,
    Floating,
}

/// Slew rate of a pad.
#[derive(Clone, Copy, Debug, PartialEq, Eq, Structural)]
pub enum PinSlew {
    Slow,
    Fast,
}

/// Logic level of a pin.
#[derive(Clone, Copy, Debug, PartialEq, Eq, Structural)]
pub enum PinState {
    Low,
    High,
}

/// Drive strength of a pad.
#[derive(Clone, Copy, Debug, PartialEq, Eq, Structural)]
pub enum PinStrength {
    Drive2ma,
    Drive4ma,
    Drive8ma,
    Drive12ma,
}

/// Function selector of a pin; `Unused` selects no function.
#[derive(Clone, Copy, Debug, PartialEq, Eq, Structural)]
pub enum PinFunction {
    JTag,
    Spi,
    Uart,
    I2c,
    Pwm,
    Sio,
    Pio0,
    Pio1,
    Clock,
    Usb,
    Unused,
}

/// Direction of a pin.
#[derive(Clone, Copy, Debug, PartialEq, Eq, Structural)]
pub enum PinDirection {
    In,
    Out,
}

/// Interrupt conditions of a pin; `All` names every condition at once.
#[derive(Clone, Copy, Debug, PartialEq, Eq, Structural)]
pub enum PinInterrupt {
    Low,
    High,
    EdgeLow,
    EdgeHigh,
    All,
}

impl PinInterrupt {
    /// The condition as a four-bit mask.
    pub open spec fn spec_mask(self) -> u8 {
        match self {
            PinInterrupt::Low => 1u8,
            PinInterrupt::High => 2u8,
            PinInterrupt::EdgeLow => 4u8,
            PinInterrupt::EdgeHigh => 8u8,
            PinInterrupt::All => 0xFu8,
        }
    }

    /// The condition as a four-bit mask.
    pub fn mask(self) -> (r: u8)
        ensures
            r == self.spec_mask(),
    {
        match self {
            PinInterrupt::Low => 1,
            PinInterrupt::High => 2,
            PinInterrupt::EdgeLow => 4,
            PinInterrupt::EdgeHigh => 8,
            PinInterrupt::All => 0xF,
        }
    }
}

/// Direction marker of an input pin.
pub struct Input;

/// Direction marker of an output pin.
pub struct Output;

/// Direction markers a pin can carry.
pub trait PinIO {
    /// Whether this marker is the input direction.
    spec fn spec_input() -> bool;

    /// Whether this marker is the input direction.
    fn input() -> (r: bool)
        ensures
            r == Self::spec_input(),
    ;
}

impl PinIO for Input {
    open spec fn spec_input() -> bool {
        true
    }

    fn input() -> (r: bool) {
        true
    }
}

impl PinIO for Output {
    open spec fn spec_input() -> bool {
        false
    }

    fn input() -> (r: bool) {
        false
    }
}

/// Model of one pin's pad and per-pin interrupt registers.
#[derive(Clone, Copy, Debug, PartialEq, Eq, Structural)]
pub struct PadRegs {
    /// Driven output level.
    pub out: bool,
    /// Input enable.
    pub ie: bool,
    /// Output disable.
    pub od: bool,
    /// Pull-up enable.
    pub pue: bool,
    /// Pull-down enable.
    pub pde: bool,
    /// Fast slew rate.
    pub slewfast: bool,
    /// Input hysteresis.
    pub schmitt: bool,
    /// Drive strength.
    pub drive: PinStrength,
    /// Function selector.
    pub func: PinFunction,
    /// Level the environment drives onto the pin.
    pub in_level: bool,
    /// Input synchronizer bypass.
    pub sync_bypass: bool,
    /// Latched interrupt condition bits.
    pub ints: u8,
    /// Interrupt enable bits.
    pub inte: u8,
    /// Latched dormant-wake condition bits.
    pub dorm_ints: u8,
    /// Dormant-wake enable bits.
    pub dorm_inte: u8,
}

/// The reset pad state: input disabled, output enabled low, no pulls, slow
/// slew, four-milliampere drive, hysteresis on, no function, all quiet.
pub open spec fn spec_pad_reset() -> PadRegs {
    PadRegs {
        out: false,
        ie: false,
        od: false,
        pue: false,
        pde: false,
        slewfast: false,
        schmitt: true,
        drive: PinStrength::Drive4ma,
        func: PinFunction::Unused,
        in_level: false,
        sync_bypass: false,
        ints: 0u8,
        inte: 0u8,
        dorm_ints: 0u8,
        dorm_inte: 0u8,
    }
}

impl PadRegs {
    /// The reset pad.
    pub fn new() -> (r: PadRegs)
        ensures
            r == spec_pad_reset(),
    {
        PadRegs {
            out: false,
            ie: false,
            od: false,
            pue: false,
            pde: false,
            slewfast: false,
            schmitt: true,
            drive: PinStrength::Drive4ma,
            func: PinFunction::Unused,
            in_level: false,
            sync_bypass: false,
            ints: 0,
            inte: 0,
            dorm_ints: 0,
            dorm_inte: 0,
        }
    }
}

/// One user pin with its pad model; the marker decides the operations.
pub struct Pin<F: PinIO> {
    /// Which pin this is.
    pub i: PinID,
    /// The pad model.
    pub pad: PadRegs,
    /// Carries the direction marker.
    pub dir: core::marker::PhantomData<F>,
}

impl Pin<Input> {
    /// Whether the environment drives the pin low.
    pub fn is_low(&self) -> (r: bool)
        ensures
            r == !self.pad.in_level,
    {
        !self.pad.in_level
    }

    /// Whether the environment drives the pin high.
    pub fn is_high(&self) -> (r: bool)
        ensures
            r == self.pad.in_level,
    {
        self.pad.in_level
    }

    /// Whether the input buffer is enabled.
    pub fn get_state(&self) -> (r: bool)
        ensures
            r == self.pad.ie,
    {
        self.pad.ie
    }

    /// Whether the input buffer is enabled.
    pub fn is_enabled(&self) -> (r: bool)
        ensures
            r == self.pad.ie,
    {
        self.pad.ie
    }

    /// Enable or disable the input buffer.
    pub fn set_state(&mut self, en: bool)
        ensures
            *final(self) == (Pin { pad: PadRegs { ie: en, ..old(self).pad }, ..*old(self) }),
    {
        self.pad.ie = en;
    }

    /// Re-tag the pin as an output, keeping its pad.
    pub fn into_output(self) -> (r: Pin<Output>)
        ensures
            r.i == self.i,
            r.pad == (PadRegs { ie: false, od: false, ..self.pad }),
    {
        Pin {
            i: self.i,
            pad: PadRegs { ie: false, od: false, ..self.pad },
            dir: core::marker::PhantomData,
        }
    }

    /// Hand the pin to the PWM block; only odd pins carry a channel's B
    /// input, so even pins are refused.
    pub fn into_pwm(self) -> (r: Option<PwmPin<Input>>)
        ensures
            self.i.as_int() % 2 == 0 ==> r is None,
            self.i.as_int() % 2 == 1 ==> (r matches Some(p) && p.i == pwm_of(self.i)),
    {
        if !self.i.is_odd() {
            return None;
        }
        Some(PwmPin::new(pwm_of_pin(self.i)))
    }
}

impl Pin<Output> {
    /// A fresh output pin: driven low, no pull resistors, wired to the
    /// single-cycle I/O block.
    pub fn get(i: PinID) -> (r: Pin<Output>)
        ensures
            r.i == i,
            r.pad == (PadRegs { func: PinFunction::Sio, ..spec_pad_reset() }),
    {
        let mut p = PadRegs::new();
        p.func = PinFunction::Sio;
        Pin { i, pad: p, dir: core::marker::PhantomData }
    }

    /// Drive the pin low.
    pub fn low(&mut self)
        ensures
            *final(self) == (Pin { pad: PadRegs { out: false, ..old(self).pad }, ..*old(self) }),
    {
        self.pad.out = false;
    }

    /// Drive the pin high.
    pub fn high(&mut self)
        ensures
            *final(self) == (Pin { pad: PadRegs { out: true, ..old(self).pad }, ..*old(self) }),
    {
        self.pad.out = true;
    }

    /// Invert the driven level.
    pub fn toggle(&mut self)
        ensures
            *final(self) == (Pin {
                pad: PadRegs { out: !old(self).pad.out, ..old(self).pad },
                ..*old(self)
            }),
    {
        self.pad.out = !self.pad.out;
    }

    /// Drive the pin high or low.
    pub fn set_on(&mut self, en: bool)
        ensures
            *final(self) == (Pin { pad: PadRegs { out: en, ..old(self).pad }, ..*old(self) }),
    {
        if en {
            self.high();
        } else {
            self.low();
        }
    }

    /// Whether the output driver is disabled.
    pub fn get_state(&self) -> (r: bool)
        ensures
            r == self.pad.od,
    {
        self.pad.od
    }

    /// Whether the output driver is disabled.
    pub fn is_enabled(&self) -> (r: bool)
        ensures
            r == self.pad.od,
    {
        self.pad.od
    }

    /// Whether the driven level is low.
    pub fn is_set_low(&self) -> (r: bool)
        ensures
            r == !self.pad.out,
    {
        !self.pad.out
    }

    /// Whether the driven level is high.
    pub fn is_set_high(&self) -> (r: bool)
        ensures
            r == self.pad.out,
    {
        self.pad.out
    }

    /// Enable or disable the output driver (the stored bit disables).
    pub fn set_state(&mut self, en: bool)
        ensures
            *final(self) == (Pin { pad: PadRegs { od: !en, ..old(self).pad }, ..*old(self) }),
    {
        self.pad.od = !en;
    }

    /// Re-tag the pin as an input, keeping its pad.
    pub fn into_input(self) -> (r: Pin<Input>)
        ensures
            r.i == self.i,
            r.pad == (PadRegs { ie: true, ..self.pad }),
    {
        Pin { i: self.i, pad: PadRegs { ie: true, ..self.pad }, dir: core::marker::PhantomData }
    }

    /// Hand the pin to the PWM block.
    pub fn into_pwm(self) -> (r: PwmPin<Output>)
        ensures
            r.i == pwm_of(self.i),
    {
        PwmPin::new(pwm_of_pin(self.i))
    }

    /// Drive the pin high and keep it.
    pub fn output_high(self) -> (r: Pin<Output>)
        ensures
            r == (Pin { pad: PadRegs { out: true, ..self.pad }, ..self }),
    {
        let mut p = self;
        p.high();
        p
    }

    /// Drive the pin to the given level and keep it.
    pub fn output(self, high: bool) -> (r: Pin<Output>)
        ensures
            r == (Pin { pad: PadRegs { out: high, ..self.pad }, ..self }),
    {
        let mut p = self;
        p.set_on(high);
        p
    }
}

/// The PWM channel serving a pin: channel `(pin / 2) mod 8`, B side on odd
/// pins.
pub open spec fn pwm_of(i: PinID) -> PwmID {
    crate::pin::pwm::spec_pwm_of_index((i.as_int() / 2) % 8, i.as_int() % 2 == 1)
}

/// The PWM channel serving a pin, computed.
fn pwm_of_pin(i: PinID) -> (r: PwmID)
    ensures
        r == pwm_of(i),
{
    crate::pin::pwm::pwm_of_index((i.index() / 2) % 8, i.index() % 2 == 1)
}

impl<F: PinIO> Pin<F> {
    /// Which pin this is.
    pub fn id(&self) -> (r: &PinID)
        ensures
            *r == self.i,
    {
        &self.i
    }

    /// Whether input hysteresis is enabled.
    pub fn get_schmitt(&self) -> (r: bool)
        ensures
            r == self.pad.schmitt,
    {
        self.pad.schmitt
    }

    /// The pad's slew rate.
    pub fn get_slew(&self) -> (r: PinSlew)
        ensures
            r == if self.pad.slewfast {
                PinSlew::Fast
            } else {
                PinSlew::Slow
            },
    {
        if self.pad.slewfast {
            PinSlew::Fast
        } else {
            PinSlew::Slow
        }
    }

    /// Set the pad's slew rate.
    pub fn set_slew(&mut self, s: PinSlew)
        ensures
            *final(self) == (Pin {
                pad: PadRegs { slewfast: s == PinSlew::Fast, ..old(self).pad },
                ..*old(self)
            }),
    {
        self.pad.slewfast = matches!(s, PinSlew::Fast);
    }

    /// The pull resistor selection, read back from the enables.
    pub fn pull_type(&self) -> (r: PinPull)
        ensures
            r == (match (self.pad.pue, self.pad.pde) {
                (true, false) => PinPull::Up,
                (false, true) => PinPull::Down,
                _ => PinPull::Floating,
            }),
    {
        match (self.pad.pue, self.pad.pde) {
            (true, false) => PinPull::Up,
            (false, true) => PinPull::Down,
            _ => PinPull::Floating,
        }
    }

    /// Enable or disable input hysteresis.
    pub fn set_schmitt(&mut self, en: bool)
        ensures
            *final(self) == (Pin { pad: PadRegs { schmitt: en, ..old(self).pad }, ..*old(self) }),
    {
        self.pad.schmitt = en;
    }

    /// Whether the input synchronizer is bypassed.
    pub fn is_sync_bypass(&self) -> (r: bool)
        ensures
            r == self.pad.sync_bypass,
    {
        self.pad.sync_bypass
    }

    /// Bypass or restore the input synchronizer.
    pub fn set_sync_bypass(&mut self, en: bool)
        ensures
            *final(self) == (Pin {
                pad: PadRegs { sync_bypass: en, ..old(self).pad },
                ..*old(self)
            }),
    {
        self.pad.sync_bypass = en;
    }

    /// Whether the PWM block can serve this pin in this direction: every
    /// output pin, but only odd (B-channel) input pins.
    pub fn is_pwm_avaliable(&self) -> (r: bool)
        ensures
            r == (!F::spec_input() || self.i.as_int() % 2 == 1),
    {
        !F::input() || self.i.is_odd()
    }

    /// Select the pull resistors and keep the pin.
    pub fn pull(self, p: PinPull) -> (r: Pin<F>)
        ensures
            r == (Pin {
                pad: PadRegs { pue: p == PinPull::Up, pde: p == PinPull::Down, ..self.pad },
                ..self
            }),
    {
        let mut v = self;
        v.set_pull_type(p);
        v
    }

    /// Select the pull resistors.
    pub fn set_pull_type(&mut self, p: PinPull)
        ensures
            *final(self) == (Pin {
                pad: PadRegs {
                    pue: p == PinPull::Up,
                    pde: p == PinPull::Down,
                    ..old(self).pad
                },
                ..*old(self)
            }),
    {
        let x: bool = matches!(p, PinPull::Up);
        let y: bool = matches!(p, PinPull::Down);
        self.pad.pue = x;
        self.pad.pde = y;
    }

    /// Set the drive strength.
    pub fn set_drive(&mut self, s: PinStrength)
        ensures
            *final(self) == (Pin { pad: PadRegs { drive: s, ..old(self).pad }, ..*old(self) }),
    {
        self.pad.drive = s;
    }

    /// The drive strength.
    pub fn get_strength(&self) -> (r: PinStrength)
        ensures
            r == self.pad.drive,
    {
        self.pad.drive
    }

    /// Select the pin's function.
    pub fn set_function(&mut self, f: PinFunction)
        ensures
            *final(self) == (Pin { pad: PadRegs { func: f, ..old(self).pad }, ..*old(self) }),
    {
        self.pad.func = f;
    }

    /// Clear the latched interrupt conditions named by `i`.
    pub fn interrupt_clear(&mut self, i: PinInterrupt)
        ensures
            *final(self) == (Pin {
                pad: PadRegs { ints: old(self).pad.ints & !i.spec_mask(), ..old(self).pad },
                ..*old(self)
            }),
    {
        let m: u8 = i.mask();
        self.pad.ints = self.pad.ints & !m;
    }

    /// Enable or disable the interrupt conditions named by `i`.
    pub fn interrupt_set(&mut self, i: PinInterrupt, en: bool)
        ensures
            *final(self) == (Pin {
                pad: PadRegs {
                    inte: if en {
                        old(self).pad.inte | i.spec_mask()
                    } else {
                        old(self).pad.inte & !i.spec_mask()
                    },
                    ..old(self).pad
                },
                ..*old(self)
            }),
    {
        let m: u8 = i.mask();
        if en {
            self.pad.inte = self.pad.inte | m;
        } else {
            self.pad.inte = self.pad.inte & !m;
        }
    }

    /// Whether every condition named by `i` is latched.
    pub fn interrupt_status(&self, i: PinInterrupt) -> (r: bool)
        ensures
            r == (self.pad.ints & i.spec_mask() == i.spec_mask()),
    {
        let m: u8 = i.mask();
        self.pad.ints & m == m
    }

    /// Whether every condition named by `i` is enabled.
    pub fn interrupt_enabled(&self, i: PinInterrupt) -> (r: bool)
        ensures
            r == (self.pad.inte & i.spec_mask() == i.spec_mask()),
    {
        let m: u8 = i.mask();
        self.pad.inte & m == m
    }

    /// Enable or disable the dormant-wake conditions named by `i`.
    pub fn dormant_wake_set(&mut self, i: PinInterrupt, en: bool)
        ensures
            *final(self) == (Pin {
                pad: PadRegs {
                    dorm_inte: if en {
                        old(self).pad.dorm_inte | i.spec_mask()
                    } else {
                        old(self).pad.dorm_inte & !i.spec_mask()
                    },
                    ..old(self).pad
                },
                ..*old(self)
            }),
    {
        let m: u8 = i.mask();
        if en {
            self.pad.dorm_inte = self.pad.dorm_inte | m;
        } else {
            self.pad.dorm_inte = self.pad.dorm_inte & !m;
        }
    }

    /// Whether every dormant-wake condition named by `i` is latched.
    pub fn dormant_wake_status(&self, i: PinInterrupt) -> (r: bool)
        ensures
            r == (self.pad.dorm_ints & i.spec_mask() == i.spec_mask()),
    {
        let m: u8 = i.mask();
        self.pad.dorm_ints & m == m
    }

    /// Whether every dormant-wake condition named by `i` is enabled.
    pub fn dormant_wake_enabled(&self, i: PinInterrupt) -> (r: bool)
        ensures
            r == (self.pad.dorm_inte & i.spec_mask() == i.spec_mask()),
    {
        let m: u8 = i.mask();
        self.pad.dorm_inte & m == m
    }
}

} // verus!
