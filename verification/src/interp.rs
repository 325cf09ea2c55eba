//! The single-cycle interpolators.
//!
//! Each of the two interpolators has two lanes; a lane shifts its
//! accumulator, masks the result to a bit range and adds its base.  The
//! model computes that plain shift-and-mask path; the blend, clamp and
//! cross modes only store their control bits.  [`LaneConfig`] builds the
//! lane control word.

use vstd::prelude::*;

verus! {

/// Marker of the first interpolator.
pub struct Num0;

/// Marker of the second interpolator.
pub struct Num1;

/// Marker of a lane's first slot.
pub struct Lane0;

/// Marker of a lane's second slot.
pub struct Lane1;

/// Interpolator markers.
pub trait InterpolerSlot {}

/// Lane markers.
pub trait InterpolerSlotLane {}

impl InterpolerSlot for Num0 {}

impl InterpolerSlot for Num1 {}

impl InterpolerSlotLane for Lane0 {}

impl InterpolerSlotLane for Lane1 {}

/// Logical lane configuration, one field per control bit group.
#[derive(Clone, Copy, Debug, PartialEq, Eq, Structural)]
pub struct LaneConfig {
    /// Right shift applied to the accumulator.
    pub shift: u8,
    /// Clamp the result to the masked range.
    pub clamp: bool,
    /// Blend the two lanes.
    pub blend: bool,
    /// Sign-extend the masked value.
    pub signed: bool,
    /// Top bit of the mask range.
    pub msb_mask: u8,
    /// Bottom bit of the mask range.
    pub lsb_mask: u8,
    /// Bits forced into the result's top.
    pub msb_force: u8,
    /// Feed the other lane's accumulator in.
    pub input_cross: bool,
    /// Feed the other lane's result back.
    pub result_cross: bool,
    /// Add the raw, unshifted value instead.
    pub add_with_raw: bool,
}

/// The control-register image of a lane configuration.
pub open spec fn spec_lane_ctrl(c: LaneConfig) -> u32 {
    (if c.clamp {
        0x40_0000u32
    } else {
        0u32
    }) | (if c.blend {
        0x20_0000u32
    } else {
        0u32
    }) | ((c.msb_force as u32) << 19u32) | (if c.add_with_raw {
        0x4_0000u32
    } else {
        0u32
    }) | (if c.result_cross {
        0x2_0000u32
    } else {
        0u32
    }) | (if c.input_cross {
        0x1_0000u32
    } else {
        0u32
    }) | (if c.signed {
        0x8000u32
    } else {
        0u32
    }) | ((c.msb_mask as u32) << 10u32) | ((c.lsb_mask as u32) << 5u32) | (c.shift as u32)
}

impl LaneConfig {
    /// The reset configuration: no shift, full mask, everything off.
    pub fn new() -> (r: LaneConfig)
        ensures
            r == (LaneConfig {
                shift: 0u8,
                clamp: false,
                blend: false,
                signed: false,
                msb_mask: 0x1Fu8,
                lsb_mask: 0u8,
                msb_force: 0u8,
                input_cross: false,
                result_cross: false,
                add_with_raw: false,
            }),
    {
        LaneConfig {
            shift: 0,
            clamp: false,
            blend: false,
            signed: false,
            msb_mask: 0x1F,
            lsb_mask: 0,
            msb_force: 0,
            input_cross: false,
            result_cross: false,
            add_with_raw: false,
        }
    }

    /// The configuration as a control-register word.
    pub fn as_ctrl(&self) -> (r: u32)
        ensures
            r == spec_lane_ctrl(*self),
    {
        (if self.clamp {
            0x40_0000u32
        } else {
            0u32
        }) | (if self.blend {
            0x20_0000u32
        } else {
            0u32
        }) | ((self.msb_force as u32) << 19u32) | (if self.add_with_raw {
            0x4_0000u32
        } else {
            0u32
        }) | (if self.result_cross {
            0x2_0000u32
        } else {
            0u32
        }) | (if self.input_cross {
            0x1_0000u32
        } else {
            0u32
        }) | (if self.signed {
            0x8000u32
        } else {
            0u32
        }) | ((self.msb_mask as u32) << 10u32) | ((self.lsb_mask as u32) << 5u32) | (
        self.shift as u32)
    }

    /// Set the accumulator shift.
    pub fn shift(self, v: u8) -> (r: LaneConfig)
        ensures
            r == (LaneConfig { shift: v, ..self }),
    {
        LaneConfig { shift: v, ..self }
    }

    /// Clamp the result to the masked range.
    pub fn clamp(self, v: bool) -> (r: LaneConfig)
        ensures
            r == (LaneConfig { clamp: v, ..self }),
    {
        LaneConfig { clamp: v, ..self }
    }

    /// Blend the two lanes.
    pub fn blend(self, v: bool) -> (r: LaneConfig)
        ensures
            r == (LaneConfig { blend: v, ..self }),
    {
        LaneConfig { blend: v, ..self }
    }

    /// Sign-extend the masked value.
    pub fn signed(self, v: bool) -> (r: LaneConfig)
        ensures
            r == (LaneConfig { signed: v, ..self }),
    {
        LaneConfig { signed: v, ..self }
    }

    /// Set the mask's top bit.
    pub fn msb_mask(self, v: u8) -> (r: LaneConfig)
        ensures
            r == (LaneConfig { msb_mask: v, ..self }),
    {
        LaneConfig { msb_mask: v, ..self }
    }

    /// Set the mask's bottom bit.
    pub fn lsb_mask(self, v: u8) -> (r: LaneConfig)
        ensures
            r == (LaneConfig { lsb_mask: v, ..self }),
    {
        LaneConfig { lsb_mask: v, ..self }
    }

    /// Force bits into the result's top.
    pub fn msb_force(self, v: u8) -> (r: LaneConfig)
        ensures
            r == (LaneConfig { msb_force: v, ..self }),
    {
        LaneConfig { msb_force: v, ..self }
    }

    /// Feed the other lane's accumulator in.
    pub fn input_cross(self, v: bool) -> (r: LaneConfig)
        ensures
            r == (LaneConfig { input_cross: v, ..self }),
    {
        LaneConfig { input_cross: v, ..self }
    }

    /// Feed the other lane's result back.
    pub fn result_cross(self, v: bool) -> (r: LaneConfig)
        ensures
            r == (LaneConfig { result_cross: v, ..self }),
    {
        LaneConfig { result_cross: v, ..self }
    }

    /// Add the raw, unshifted value instead.
    pub fn add_with_raw(self, v: bool) -> (r: LaneConfig)
        ensures
            r == (LaneConfig { add_with_raw: v, ..self }),
    {
        LaneConfig { add_with_raw: v, ..self }
    }
}

impl Default for LaneConfig {
    /// The reset configuration.
    fn default() -> (r: LaneConfig)
        ensures
            r == (LaneConfig {
                shift: 0u8,
                clamp: false,
                blend: false,
                signed: false,
                msb_mask: 0x1Fu8,
                lsb_mask: 0u8,
                msb_force: 0u8,
                input_cross: false,
                result_cross: false,
                add_with_raw: false,
            }),
    {
        LaneConfig::new()
    }
}

/// One lane of one interpolator: accumulator, base and control word.
pub struct Lane<S: InterpolerSlot, N: InterpolerSlotLane> {
    /// The accumulator.
    pub accum: u32,
    /// The base added onto the masked value.
    pub base: u32,
    /// The control word.
    pub ctrl: u32,
    /// Carries the interpolator and lane markers.
    pub tag: core::marker::PhantomData<(S, N)>,
}

/// The shift field of a lane control word.
pub open spec fn spec_shift_of(c: u32) -> u32 {
    c % 32
}

/// The mask-bottom field of a lane control word.
pub open spec fn spec_lsb_of(c: u32) -> u32 {
    (c / 0x20) % 32
}

/// The mask-top field of a lane control word.
pub open spec fn spec_msb_of(c: u32) -> u32 {
    (c / 0x400) % 32
}

/// The range mask a lane control word selects.
pub open spec fn spec_mask_of_ctrl(c: u32) -> u32 {
    (((((1u64 << ((spec_msb_of(c) + 1) as u64)) - 1) as u64) & (!(((1u64 << (spec_lsb_of(
        c,
    ) as u64)) - 1) as u64))) % 0x1_0000_0000) as u32
}

impl<S: InterpolerSlot, N: InterpolerSlotLane> Lane<S, N> {
    /// The shifted, masked accumulator.
    pub open spec fn spec_raw(self) -> u32 {
        (self.accum >> spec_shift_of(self.ctrl)) & spec_mask_of_ctrl(self.ctrl)
    }

    /// The lane result: raw value plus base, wrapping.
    pub open spec fn spec_result(self) -> u32 {
        ((self.spec_raw() as int + self.base as int) % 0x1_0000_0000) as u32
    }

    /// The lane result, without touching anything.
    pub fn peek(&self) -> (r: u32)
        ensures
            r == self.spec_result(),
    {
        let raw: u32 = self.read();
        ((raw as u64 + self.base as u64) % 0x1_0000_0000) as u32
    }

    /// The base register.
    pub fn base(&self) -> (r: u32)
        ensures
            r == self.base,
    {
        self.base
    }

    /// The control word.
    pub fn ctrl(&self) -> (r: u32)
        ensures
            r == self.ctrl,
    {
        self.ctrl
    }

    /// The shifted, masked accumulator, without the base.
    pub fn read(&self) -> (r: u32)
        ensures
            r == self.spec_raw(),
    {
        let shift: u32 = self.ctrl % 32;
        let lsb: u32 = (self.ctrl / 0x20) % 32;
        let msb: u32 = (self.ctrl / 0x400) % 32;
        proof {
            lemma_pow2_positive((msb + 1) as u64, lsb as u64);
        }
        let mask: u32 = ((((1u64 << ((msb + 1) as u64)) - 1) & !((1u64 << (lsb as u64)) - 1))
            % 0x1_0000_0000) as u32;
        (self.accum >> shift) & mask
    }

    /// The lane result; the accumulator reloads with it.
    pub fn pop(&mut self) -> (r: u32)
        ensures
            r == old(self).spec_result(),
            *final(self) == (Lane { accum: r, ..*old(self) }),
    {
        let r: u32 = self.peek();
        self.accum = r;
        r
    }

    /// Add onto the accumulator, wrapping.
    pub fn add(&mut self, v: u32)
        ensures
            *final(self) == (Lane {
                accum: ((old(self).accum as int + v as int) % 0x1_0000_0000) as u32,
                ..*old(self)
            }),
    {
        self.accum = ((self.accum as u64 + v as u64) % 0x1_0000_0000) as u32;
    }

    /// The accumulator.
    pub fn accumulator(&self) -> (r: u32)
        ensures
            r == self.accum,
    {
        self.accum
    }

    /// Write the base register.
    pub fn base_set(&mut self, v: u32)
        ensures
            *final(self) == (Lane { base: v, ..*old(self) }),
    {
        self.base = v;
    }

    /// Write the accumulator.
    pub fn accumulator_set(&mut self, v: u32)
        ensures
            *final(self) == (Lane { accum: v, ..*old(self) }),
    {
        self.accum = v;
    }

    /// Write the control word.
    pub fn ctrl_set(&mut self, v: u32)
        ensures
            *final(self) == (Lane { ctrl: v, ..*old(self) }),
    {
        self.ctrl = v;
    }

    /// A reset lane.
    pub(crate) fn new() -> (r: Lane<S, N>)
        ensures
            r.accum == 0 && r.base == 0 && r.ctrl == 0,
    {
        Lane { accum: 0, base: 0, ctrl: 0, tag: core::marker::PhantomData }
    }
}

/// A one-bit left shift inside the word never reaches zero.
proof fn lemma_pow2_positive(a: u64, b: u64)
    requires
        a <= 32,
        b < 32,
    ensures
        1u64 << a >= 1,
        1u64 << b >= 1,
{
    assert(a <= 32 && b < 32 ==> (1u64 << a >= 1 && 1u64 << b >= 1)) by (bit_vector);
}

/// One interpolator: its two lanes.
pub struct Interpoler<S: InterpolerSlot> {
    /// The first lane.
    pub lane0: Lane<S, Lane0>,
    /// The second lane.
    pub lane1: Lane<S, Lane1>,
}

/// The first interpolator.
pub type Interpoler0 = Interpoler<Num0>;

/// The second interpolator.
pub type Interpoler1 = Interpoler<Num1>;

impl Interpoler<Num0> {
    /// The first interpolator, reset.
    pub fn get() -> (r: Interpoler0)
        ensures
            r.lane0.accum == 0 && r.lane0.base == 0 && r.lane0.ctrl == 0,
            r.lane1.accum == 0 && r.lane1.base == 0 && r.lane1.ctrl == 0,
    {
        Interpoler { lane0: Lane::new(), lane1: Lane::new() }
    }
}

impl Interpoler<Num1> {
    /// The second interpolator, reset.
    pub fn get() -> (r: Interpoler1)
        ensures
            r.lane0.accum == 0 && r.lane0.base == 0 && r.lane0.ctrl == 0,
            r.lane1.accum == 0 && r.lane1.base == 0 && r.lane1.ctrl == 0,
    {
        Interpoler { lane0: Lane::new(), lane1: Lane::new() }
    }
}

impl<S: InterpolerSlot> Interpoler<S> {
    /// The first lane.
    pub fn lane0(&mut self) -> (r: &mut Lane<S, Lane0>)
        ensures
            *r == old(self).lane0,
            *final(self) == (Interpoler { lane0: *final(r), ..*old(self) }),
    {
        &mut self.lane0
    }

    /// The second lane.
    pub fn lane1(&mut self) -> (r: &mut Lane<S, Lane1>)
        ensures
            *r == old(self).lane1,
            *final(self) == (Interpoler { lane1: *final(r), ..*old(self) }),
    {
        &mut self.lane1
    }
}

} // verus!
