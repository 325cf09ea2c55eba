//! Configuration builder for one state-machine unit.
//!
//! [`Config`] is a pure value object: every builder method returns a
//! modified copy.  [`Config::configure`] translates the logical fields into
//! the execution-, shift- and pin-control register layouts, applies them to
//! a claimed unit, jumps it to its origin and pulses its restarts — all
//! before the unit can run, so it never executes with a partial
//! configuration.

use vstd::prelude::*;

use crate::pin::PinID;
use crate::pio::regs::{PioRegs, UnitRegs};
use crate::pio::{mask32, spec_sat_add_u8, Handle, State, Stopped, Uninit};

verus! {

/// FIFO join selection: give both directions their own four words, or fold
/// one direction's storage into the other.
#[derive(Clone, Copy, Debug, PartialEq, Eq, Structural)]
pub enum Fifo {
    Tx,
    Rx,
    Both,
}

/// Shift direction of a shift register.
#[derive(Clone, Copy, Debug, PartialEq, Eq, Structural)]
pub enum Shift {
    Left,
    Right,
}

/// FIFO watched by the STATUS word.
#[derive(Clone, Copy, Debug, PartialEq, Eq, Structural)]
pub enum Source {
    Tx,
    Rx,
}

/// Logical configuration of one unit; one field per configurable
/// attribute.
#[derive(Clone, Copy, Debug)]
pub struct Config {
    /// Program start address the unit is jumped to.
    pub origin: u8,
    /// FIFO join allocation.
    pub fifo: Fifo,
    /// Source watched when executing the STATUS word.
    pub status_src: Source,
    /// Comparison level for the STATUS word.
    pub status_level: u8,
    /// Clock divisor, integer part.
    pub clock_div_int: u16,
    /// Clock divisor, fractional part in units of 1/256.
    pub clock_div_frac: u8,
    /// Reaching this address wraps the program counter.
    pub wrap_top: u8,
    /// Address the program counter wraps back to.
    pub wrap_bottom: u8,
    /// Treat the side-set MSB as an enable flag instead of data.
    pub sideset_as_enable: bool,
    /// Side-set data drives pin directions instead of pin levels.
    pub sideset_as_directions: bool,
    /// Pin tested by conditional jumps.
    pub jump_pin: PinID,
    /// First pin driven by side-sets.
    pub sideset_pin: PinID,
    /// Number of consecutive side-set pins.
    pub sideset_pin_count: u8,
    /// First pin driven by SET words.
    pub set_pin: PinID,
    /// Number of consecutive SET pins.
    pub set_pin_count: u8,
    /// First pin driven by OUT words.
    pub output_pin: PinID,
    /// Number of consecutive OUT pins.
    pub output_pin_count: u8,
    /// First pin read by IN words.
    pub input_pin: PinID,
    /// Push the input shift register automatically when full.
    pub push_auto: bool,
    /// Input shift direction.
    pub push_shift: Shift,
    /// Bits shifted in before an automatic push.
    pub push_threshold: u8,
    /// Pull the output shift register automatically when empty.
    pub pull_auto: bool,
    /// Output shift direction.
    pub pull_shift: Shift,
    /// Bits shifted out before an automatic pull.
    pub pull_threshold: u8,
    /// Keep driving the last OUT/SET result to the pins.
    pub sticky_output: bool,
    /// Treat one OUT data bit as a write enable for sticky output.
    pub inline_out_enable: bool,
    /// Which OUT data bit is the write enable.
    pub inline_out_bit: u8,
}

/// The execution-control register image of a configuration.
pub open spec fn spec_execctrl(c: Config) -> u32 {
    ((c.status_level as int % 16) + (match c.status_src {
        Source::Rx => 16int,
        Source::Tx => 0int,
    }) + (c.wrap_bottom as int % 32) * 0x80 + (c.wrap_top as int % 32) * 0x1000 + (
    if c.sticky_output {
        0x2_0000int
    } else {
        0int
    }) + (if c.inline_out_enable {
        0x4_0000int
    } else {
        0int
    }) + (c.inline_out_bit as int % 32) * 0x8_0000 + c.jump_pin.as_int() * 0x100_0000 + (
    if c.sideset_as_directions {
        0x2000_0000int
    } else {
        0int
    }) + (if c.sideset_as_enable {
        0x4000_0000int
    } else {
        0int
    })) as u32
}

/// The shift-control register image of a configuration.
pub open spec fn spec_shiftctrl(c: Config) -> u32 {
    ((if c.push_auto {
        0x1_0000int
    } else {
        0int
    }) + (if c.pull_auto {
        0x2_0000int
    } else {
        0int
    }) + (match c.push_shift {
        Shift::Right => 0x4_0000int,
        Shift::Left => 0int,
    }) + (match c.pull_shift {
        Shift::Right => 0x8_0000int,
        Shift::Left => 0int,
    }) + (c.push_threshold as int % 32) * 0x10_0000 + (c.pull_threshold as int % 32) * 0x200_0000
        + (match c.fifo {
        Fifo::Tx => 0x4000_0000int,
        Fifo::Rx => 0x8000_0000int,
        Fifo::Both => 0int,
    })) as u32
}

/// The pin-control register image of a configuration.
pub open spec fn spec_pinctrl(c: Config) -> u32 {
    (c.output_pin.as_int() + c.set_pin.as_int() * 0x20 + c.sideset_pin.as_int() * 0x400
        + c.input_pin.as_int() * 0x8000 + (c.output_pin_count as int % 64) * 0x10_0000 + (
    c.set_pin_count as int % 8) * 0x400_0000 + (c.sideset_pin_count as int % 8)
        * 0x2000_0000) as u32
}

/// The clock-divisor register image of a configuration.
pub open spec fn spec_clkdiv(c: Config) -> u32 {
    (c.clock_div_int as int * 0x1_0000 + c.clock_div_frac as int * 0x100) as u32
}

/// The reset configuration: divisor one, wrap over the whole memory, both
/// FIFOs their own, everything else off.
pub open spec fn spec_default_config() -> Config {
    Config {
        origin: 0u8,
        fifo: Fifo::Both,
        status_src: Source::Tx,
        status_level: 0u8,
        clock_div_int: 1u16,
        clock_div_frac: 0u8,
        wrap_top: 0x1Fu8,
        wrap_bottom: 0u8,
        sideset_as_enable: false,
        sideset_as_directions: false,
        jump_pin: PinID::Pin0,
        sideset_pin: PinID::Pin0,
        sideset_pin_count: 0u8,
        set_pin: PinID::Pin0,
        set_pin_count: 0u8,
        output_pin: PinID::Pin0,
        output_pin_count: 0u8,
        input_pin: PinID::Pin0,
        push_auto: false,
        push_shift: Shift::Right,
        push_threshold: 0u8,
        pull_auto: false,
        pull_shift: Shift::Right,
        pull_threshold: 0u8,
        sticky_output: false,
        inline_out_enable: false,
        inline_out_bit: 0u8,
    }
}

impl Config {
    /// The reset configuration.
    pub fn new() -> (r: Config)
        ensures
            r == spec_default_config(),
    {
        Config {
            origin: 0,
            fifo: Fifo::Both,
            status_src: Source::Tx,
            status_level: 0,
            clock_div_int: 1,
            clock_div_frac: 0,
            wrap_top: 0x1F,
            wrap_bottom: 0,
            sideset_as_enable: false,
            sideset_as_directions: false,
            jump_pin: PinID::Pin0,
            sideset_pin: PinID::Pin0,
            sideset_pin_count: 0,
            set_pin: PinID::Pin0,
            set_pin_count: 0,
            output_pin: PinID::Pin0,
            output_pin_count: 0,
            input_pin: PinID::Pin0,
            push_auto: false,
            push_shift: Shift::Right,
            push_threshold: 0,
            pull_auto: false,
            pull_shift: Shift::Right,
            pull_threshold: 0,
            sticky_output: false,
            inline_out_enable: false,
            inline_out_bit: 0,
        }
    }

    /// The reset configuration seeded with a handle's origin and absolute
    /// wrap addresses.
    pub fn new_with(h: &Handle) -> (r: Config)
        ensures
            r == (Config {
                origin: h.offset,
                wrap_top: (spec_sat_add_u8(h.src as int, h.offset as int)) as u8,
                wrap_bottom: (spec_sat_add_u8(h.target as int, h.offset as int)) as u8,
                ..spec_default_config()
            }),
    {
        let mut c = Config::new();
        c.origin = h.offset;
        c.wrap_top = h.wrap_src_adjusted();
        c.wrap_bottom = h.wrap_target_adjusted();
        c
    }

    /// Set the start address.
    pub fn origin(self, addr: u8) -> (r: Config)
        ensures
            r == (Config { origin: addr, ..self }),
    {
        Config { origin: addr, ..self }
    }

    /// Seed origin and wrap addresses from a handle.
    pub fn program(self, h: &Handle) -> (r: Config)
        ensures
            r == (Config {
                origin: h.offset,
                wrap_top: (spec_sat_add_u8(h.src as int, h.offset as int)) as u8,
                wrap_bottom: (spec_sat_add_u8(h.target as int, h.offset as int)) as u8,
                ..self
            }),
    {
        let mut c = self;
        c.set_program(h);
        c
    }

    /// Turn automatic pulling on or off.
    pub fn pull_auto(self, en: bool) -> (r: Config)
        ensures
            r == (Config { pull_auto: en, ..self }),
    {
        Config { pull_auto: en, ..self }
    }

    /// Turn automatic pushing on or off.
    pub fn push_auto(self, en: bool) -> (r: Config)
        ensures
            r == (Config { push_auto: en, ..self }),
    {
        Config { push_auto: en, ..self }
    }

    /// Choose the FIFO join allocation.
    pub fn fifo_alloc(self, v: Fifo) -> (r: Config)
        ensures
            r == (Config { fifo: v, ..self }),
    {
        Config { fifo: v, ..self }
    }

    /// Drive one pin from SET words.
    pub fn set_pin(self, pin: PinID) -> (r: Config)
        ensures
            r == (Config { set_pin: pin, set_pin_count: 1u8, ..self }),
    {
        Config { set_pin: pin, set_pin_count: 1, ..self }
    }

    /// Choose the pin tested by conditional jumps.
    pub fn jump_pin(self, pin: PinID) -> (r: Config)
        ensures
            r == (Config { jump_pin: pin, ..self }),
    {
        Config { jump_pin: pin, ..self }
    }

    /// Choose the output shift direction.
    pub fn pull_shift(self, v: Shift) -> (r: Config)
        ensures
            r == (Config { pull_shift: v, ..self }),
    {
        Config { pull_shift: v, ..self }
    }

    /// Choose the input shift direction.
    pub fn push_shift(self, v: Shift) -> (r: Config)
        ensures
            r == (Config { push_shift: v, ..self }),
    {
        Config { push_shift: v, ..self }
    }

    /// Set the automatic pull threshold.
    pub fn pull_threshold(self, v: u8) -> (r: Config)
        ensures
            r == (Config { pull_threshold: v, ..self }),
    {
        Config { pull_threshold: v, ..self }
    }

    /// Set the automatic push threshold.
    pub fn push_threshold(self, v: u8) -> (r: Config)
        ensures
            r == (Config { push_threshold: v, ..self }),
    {
        Config { push_threshold: v, ..self }
    }

    /// Choose the first pin read by IN words.
    pub fn input_pin(self, pin: PinID) -> (r: Config)
        ensures
            r == (Config { input_pin: pin, ..self }),
    {
        Config { input_pin: pin, ..self }
    }

    /// Drive one pin from OUT words.
    pub fn output_pin(self, pin: PinID) -> (r: Config)
        ensures
            r == (Config { output_pin: pin, output_pin_count: 1u8, ..self }),
    {
        Config { output_pin: pin, output_pin_count: 1, ..self }
    }

    /// Keep driving the last OUT/SET result to the pins.
    pub fn sticky_output(self, en: bool) -> (r: Config)
        ensures
            r == (Config { sticky_output: en, ..self }),
    {
        Config { sticky_output: en, ..self }
    }

    /// Drive one pin from side-sets.
    pub fn sideset_pin(self, pin: PinID) -> (r: Config)
        ensures
            r == (Config { sideset_pin: pin, sideset_pin_count: 1u8, ..self }),
    {
        Config { sideset_pin: pin, sideset_pin_count: 1, ..self }
    }

    /// Drive the listed pins from SET words; the hardware takes at most
    /// five.
    pub fn set_pins(self, pins: &[PinID]) -> (r: Config)
        ensures
            r == (Config {
                set_pin: if pins@.len() > 0 {
                    pins@[0]
                } else {
                    PinID::Pin0
                },
                set_pin_count: if pins@.len() > 5 {
                    5u8
                } else {
                    pins@.len() as u8
                },
                ..self
            }),
    {
        Config {
            set_pin: if pins.len() > 0 {
                pins[0]
            } else {
                PinID::Pin0
            },
            set_pin_count: if pins.len() > 5 {
                5
            } else {
                pins.len() as u8
            },
            ..self
        }
    }

    /// Set both wrap addresses.
    pub fn wrap(self, top: u8, bottom: u8) -> (r: Config)
        ensures
            r == (Config { wrap_top: top, wrap_bottom: bottom, ..self }),
    {
        Config { wrap_top: top, wrap_bottom: bottom, ..self }
    }

    /// Read input from the listed pins; only the first matters.
    pub fn input_pins(self, pins: &[PinID]) -> (r: Config)
        ensures
            r == (Config {
                input_pin: if pins@.len() > 0 {
                    pins@[0]
                } else {
                    PinID::Pin0
                },
                ..self
            }),
    {
        Config {
            input_pin: if pins.len() > 0 {
                pins[0]
            } else {
                PinID::Pin0
            },
            ..self
        }
    }

    /// Drive the listed pins from OUT words.
    pub fn output_pins(self, pins: &[PinID]) -> (r: Config)
        ensures
            pins@.len() <= 255 ==> r == (Config {
                output_pin: if pins@.len() > 0 {
                    pins@[0]
                } else {
                    PinID::Pin0
                },
                output_pin_count: pins@.len() as u8,
                ..self
            }),
    {
        Config {
            output_pin: if pins.len() > 0 {
                pins[0]
            } else {
                PinID::Pin0
            },
            output_pin_count: if pins.len() > 255 {
                255
            } else {
                pins.len() as u8
            },
            ..self
        }
    }

    /// Treat the side-set MSB as an enable flag.
    pub fn sideset_as_enable(self, en: bool) -> (r: Config)
        ensures
            r == (Config { sideset_as_enable: en, ..self }),
    {
        Config { sideset_as_enable: en, ..self }
    }

    /// Set the clock divisor.
    pub fn clock_div(self, int_part: u16, frac: u8) -> (r: Config)
        ensures
            r == (Config { clock_div_int: int_part, clock_div_frac: frac, ..self }),
    {
        Config { clock_div_int: int_part, clock_div_frac: frac, ..self }
    }

    /// Drive the listed pins from side-sets.
    pub fn sideset_pins(self, pins: &[PinID]) -> (r: Config)
        ensures
            pins@.len() <= 255 ==> r == (Config {
                sideset_pin: if pins@.len() > 0 {
                    pins@[0]
                } else {
                    PinID::Pin0
                },
                sideset_pin_count: pins@.len() as u8,
                ..self
            }),
    {
        Config {
            sideset_pin: if pins.len() > 0 {
                pins[0]
            } else {
                PinID::Pin0
            },
            sideset_pin_count: if pins.len() > 255 {
                255
            } else {
                pins.len() as u8
            },
            ..self
        }
    }

    /// Choose source and level for the STATUS word.
    pub fn status(self, level: u8, source: Source) -> (r: Config)
        ensures
            r == (Config { status_src: source, status_level: level, ..self }),
    {
        Config { status_src: source, status_level: level, ..self }
    }

    /// Side-set data drives pin directions instead of levels.
    pub fn sideset_as_pin_directions(self, en: bool) -> (r: Config)
        ensures
            r == (Config { sideset_as_directions: en, ..self }),
    {
        Config { sideset_as_directions: en, ..self }
    }

    /// Configure the inline write-enable bit of sticky output.
    pub fn inline_output(self, en: bool, bit_pos: u8) -> (r: Config)
        ensures
            r == (Config { inline_out_enable: en, inline_out_bit: bit_pos, ..self }),
    {
        Config { inline_out_enable: en, inline_out_bit: bit_pos, ..self }
    }

    /// Configure the whole output-shift side at once.
    pub fn pull(self, auto: bool, thresh: u8, shift: Shift) -> (r: Config)
        ensures
            r == (Config { pull_auto: auto, pull_shift: shift, pull_threshold: thresh, ..self }),
    {
        Config { pull_auto: auto, pull_shift: shift, pull_threshold: thresh, ..self }
    }

    /// Configure the whole input-shift side at once.
    pub fn push(self, auto: bool, thresh: u8, shift: Shift) -> (r: Config)
        ensures
            r == (Config { push_auto: auto, push_shift: shift, push_threshold: thresh, ..self }),
    {
        Config { push_auto: auto, push_shift: shift, push_threshold: thresh, ..self }
    }

    /// Seed origin and wrap addresses from a handle, in place.
    pub fn set_program(&mut self, h: &Handle)
        ensures
            *final(self) == (Config {
                origin: h.offset,
                wrap_top: (spec_sat_add_u8(h.src as int, h.offset as int)) as u8,
                wrap_bottom: (spec_sat_add_u8(h.target as int, h.offset as int)) as u8,
                ..*old(self)
            }),
    {
        self.origin = h.offset;
        self.wrap_top = h.wrap_src_adjusted();
        self.wrap_bottom = h.wrap_target_adjusted();
    }

    /// Apply this configuration to a claimed unit: disable it, write its
    /// divisor and the three control registers, jump it to the origin and
    /// pulse its restarts.  The unit comes back Stopped, its program
    /// counter at the origin, its enable bit clear.
    pub fn configure(&self, s: State<Uninit>, r: &mut PioRegs) -> (res: State<Stopped>)
        requires
            self.origin < 32,
        ensures
            res.m.idx == s.m.idx,
            res.m.block == s.m.block,
            *final(r) == (PioRegs {
                ctrl: final(r).ctrl,
                last_restart: mask32(s.m.idx),
                last_clkdiv: mask32(s.m.idx),
                ..old(r).with_unit(
                    s.m.idx,
                    UnitRegs {
                        clkdiv: spec_clkdiv(*self),
                        execctrl: spec_execctrl(*self),
                        shiftctrl: spec_shiftctrl(*self),
                        pinctrl: spec_pinctrl(*self),
                        instr: self.origin as u16,
                        addr: self.origin,
                        ..old(r).unit(s.m.idx)
                    },
                )
            }),
            final(r).ctrl == (old(r).ctrl & !mask32(s.m.idx)),
    {
        let m = s.m;
        m.set_state(r, false);
        let clk: u32 = self.clock_div_int as u32 * 0x1_0000 + self.clock_div_frac as u32 * 0x100;
        let exe: u32 = self.compute_execctrl();
        let shf: u32 = self.compute_shiftctrl();
        let pin: u32 = self.compute_pinctrl();
        {
            let u = r.unit_mut(m.idx);
            u.clkdiv = clk;
            u.execctrl = exe;
            u.shiftctrl = shf;
            u.pinctrl = pin;
            // Jump to the entrance: a bare address is an unconditional jump.
            u.instr = self.origin as u16;
            u.addr = self.origin;
        }
        r.last_restart = 1u32 << m.idx.index();
        r.last_clkdiv = 1u32 << m.idx.index();
        State { m: crate::pio::Machine { idx: m.idx, block: m.block, tag: core::marker::PhantomData } }
    }

    /// Assemble the execution-control register image.
    fn compute_execctrl(&self) -> (v: u32)
        ensures
            v == spec_execctrl(*self),
    {
        (self.status_level as u32 % 16) + (match self.status_src {
            Source::Rx => 16u32,
            Source::Tx => 0u32,
        }) + (self.wrap_bottom as u32 % 32) * 0x80 + (self.wrap_top as u32 % 32) * 0x1000 + (
        if self.sticky_output {
            0x2_0000u32
        } else {
            0u32
        }) + (if self.inline_out_enable {
            0x4_0000u32
        } else {
            0u32
        }) + (self.inline_out_bit as u32 % 32) * 0x8_0000 + self.jump_pin.index() as u32
            * 0x100_0000 + (if self.sideset_as_directions {
            0x2000_0000u32
        } else {
            0u32
        }) + (if self.sideset_as_enable {
            0x4000_0000u32
        } else {
            0u32
        })
    }

    /// Assemble the shift-control register image.
    fn compute_shiftctrl(&self) -> (v: u32)
        ensures
            v == spec_shiftctrl(*self),
    {
        (if self.push_auto {
            0x1_0000u32
        } else {
            0u32
        }) + (if self.pull_auto {
            0x2_0000u32
        } else {
            0u32
        }) + (match self.push_shift {
            Shift::Right => 0x4_0000u32,
            Shift::Left => 0u32,
        }) + (match self.pull_shift {
            Shift::Right => 0x8_0000u32,
            Shift::Left => 0u32,
        }) + (self.push_threshold as u32 % 32) * 0x10_0000 + (self.pull_threshold as u32 % 32)
            * 0x200_0000 + (match self.fifo {
            Fifo::Tx => 0x4000_0000u32,
            Fifo::Rx => 0x8000_0000u32,
            Fifo::Both => 0u32,
        })
    }

    /// Assemble the pin-control register image.
    fn compute_pinctrl(&self) -> (v: u32)
        ensures
            v == spec_pinctrl(*self),
    {
        self.output_pin.index() as u32 + self.set_pin.index() as u32 * 0x20
            + self.sideset_pin.index() as u32 * 0x400 + self.input_pin.index() as u32 * 0x8000 + (
        self.output_pin_count as u32 % 64) * 0x10_0000 + (self.set_pin_count as u32 % 8)
            * 0x400_0000 + (self.sideset_pin_count as u32 % 8) * 0x2000_0000
    }
}

impl Default for Config {
    /// The reset configuration.
    fn default() -> (r: Config)
        ensures
            r == spec_default_config(),
    {
        Config::new()
    }
}

} // verus!
