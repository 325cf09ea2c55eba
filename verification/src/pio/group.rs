//! Grouping of unit handles for skew-free start and stop.
//!
//! A group holds two to four same-tag handles.  Its `start`, `stop` and
//! `sync` operations compute the union of the members' enable-bit masks and
//! issue one shared-register write, so every member changes state in the
//! same bus cycle.

use vstd::prelude::*;

use crate::pio::regs::PioRegs;
use crate::pio::{mask32, PioState, PioStateOccupied, Running, State, Stopped};

verus! {

/// Two same-tag unit handles moved together.
pub struct StateGroup2<S: PioState>(pub State<S>, pub State<S>);

/// Three same-tag unit handles moved together.
pub struct StateGroup3<S: PioState>(pub State<S>, pub State<S>, pub State<S>);

/// Four same-tag unit handles moved together.
pub struct StateGroup4<S: PioState>(pub State<S>, pub State<S>, pub State<S>, pub State<S>);

impl<S: PioState> StateGroup2<S> {
    /// Union of the members' enable-bit masks.
    pub open spec fn mask(self) -> u32 {
        mask32(self.0.m.idx) | mask32(self.1.m.idx)
    }

    /// Dissolve the group into its members.
    pub fn free(self) -> (r: (State<S>, State<S>))
        ensures
            r.0 == self.0,
            r.1 == self.1,
    {
        (self.0, self.1)
    }

    /// Grow the group by one more handle of the same tag.
    pub fn add(self, other: State<S>) -> (r: StateGroup3<S>)
        ensures
            r.0 == self.0,
            r.1 == self.1,
            r.2 == other,
    {
        StateGroup3(self.0, self.1, other)
    }

    /// Pair two handles.
    pub(crate) fn new(state1: State<S>, state2: State<S>) -> (r: StateGroup2<S>)
        ensures
            r.0 == state1,
            r.1 == state2,
    {
        StateGroup2(state1, state2)
    }

    /// The union mask, computed.
    fn mask_val(&self) -> (r: u32)
        ensures
            r == self.mask(),
    {
        (1u32 << self.0.m.idx.index()) | (1u32 << self.1.m.idx.index())
    }
}

impl<S: PioState> StateGroup3<S> {
    /// Union of the members' enable-bit masks.
    pub open spec fn mask(self) -> u32 {
        mask32(self.0.m.idx) | mask32(self.1.m.idx) | mask32(self.2.m.idx)
    }

    /// Split off the last member.
    pub fn pop(self) -> (r: (StateGroup2<S>, State<S>))
        ensures
            r.0.0 == self.0,
            r.0.1 == self.1,
            r.1 == self.2,
    {
        (StateGroup2(self.0, self.1), self.2)
    }

    /// Grow the group by one more handle of the same tag.
    pub fn add(self, other: State<S>) -> (r: StateGroup4<S>)
        ensures
            r.0 == self.0,
            r.1 == self.1,
            r.2 == self.2,
            r.3 == other,
    {
        StateGroup4(self.0, self.1, self.2, other)
    }

    /// Dissolve the group into its members.
    pub fn free(self) -> (r: (State<S>, State<S>, State<S>))
        ensures
            r.0 == self.0,
            r.1 == self.1,
            r.2 == self.2,
    {
        (self.0, self.1, self.2)
    }

    /// The union mask, computed.
    fn mask_val(&self) -> (r: u32)
        ensures
            r == self.mask(),
    {
        (1u32 << self.0.m.idx.index()) | (1u32 << self.1.m.idx.index()) | (1u32
            << self.2.m.idx.index())
    }
}

impl<S: PioState> StateGroup4<S> {
    /// Union of the members' enable-bit masks.
    pub open spec fn mask(self) -> u32 {
        mask32(self.0.m.idx) | mask32(self.1.m.idx) | mask32(self.2.m.idx) | mask32(self.3.m.idx)
    }

    /// Split off the last member.
    pub fn pop(self) -> (r: (StateGroup3<S>, State<S>))
        ensures
            r.0.0 == self.0,
            r.0.1 == self.1,
            r.0.2 == self.2,
            r.1 == self.3,
    {
        (StateGroup3(self.0, self.1, self.2), self.3)
    }

    /// Dissolve the group into its members.
    pub fn free(self) -> (r: (State<S>, State<S>, State<S>, State<S>))
        ensures
            r.0 == self.0,
            r.1 == self.1,
            r.2 == self.2,
            r.3 == self.3,
    {
        (self.0, self.1, self.2, self.3)
    }

    /// The union mask, computed.
    fn mask_val(&self) -> (r: u32)
        ensures
            r == self.mask(),
    {
        (1u32 << self.0.m.idx.index()) | (1u32 << self.1.m.idx.index()) | (1u32
            << self.2.m.idx.index()) | (1u32 << self.3.m.idx.index())
    }
}

impl StateGroup2<Stopped> {
    /// Enable both members in one control-register write.
    pub fn start(self, r: &mut PioRegs) -> (res: StateGroup2<Running>)
        ensures
            *final(r) == (PioRegs { ctrl: final(r).ctrl, ..*old(r) }),
            final(r).ctrl == (old(r).ctrl | self.mask()),
            res.0.m.idx == self.0.m.idx && res.0.m.block == self.0.m.block,
            res.1.m.idx == self.1.m.idx && res.1.m.block == self.1.m.block,
    {
        let m: u32 = self.mask_val();
        r.ctrl = r.ctrl | m;
        let (a, b) = self.free();
        StateGroup2(a.start_paused(), b.start_paused())
    }
}

impl StateGroup2<Running> {
    /// Disable both members in one control-register write.
    pub fn stop(self, r: &mut PioRegs) -> (res: StateGroup2<Stopped>)
        ensures
            *final(r) == (PioRegs { ctrl: final(r).ctrl, ..*old(r) }),
            final(r).ctrl == (old(r).ctrl & !self.mask()),
            res.0.m.idx == self.0.m.idx && res.0.m.block == self.0.m.block,
            res.1.m.idx == self.1.m.idx && res.1.m.block == self.1.m.block,
    {
        let m: u32 = self.mask_val();
        r.ctrl = r.ctrl & !m;
        let (a, b) = self.free();
        StateGroup2(a.into_stopped(), b.into_stopped())
    }
}

impl StateGroup3<Stopped> {
    /// Enable all three members in one control-register write.
    pub fn start(self, r: &mut PioRegs) -> (res: StateGroup3<Running>)
        ensures
            *final(r) == (PioRegs { ctrl: final(r).ctrl, ..*old(r) }),
            final(r).ctrl == (old(r).ctrl | self.mask()),
            res.0.m.idx == self.0.m.idx && res.0.m.block == self.0.m.block,
            res.1.m.idx == self.1.m.idx && res.1.m.block == self.1.m.block,
            res.2.m.idx == self.2.m.idx && res.2.m.block == self.2.m.block,
    {
        let m: u32 = self.mask_val();
        r.ctrl = r.ctrl | m;
        let (a, b, c) = self.free();
        StateGroup3(a.start_paused(), b.start_paused(), c.start_paused())
    }
}

impl StateGroup3<Running> {
    /// Disable all three members in one control-register write.
    pub fn stop(self, r: &mut PioRegs) -> (res: StateGroup3<Stopped>)
        ensures
            *final(r) == (PioRegs { ctrl: final(r).ctrl, ..*old(r) }),
            final(r).ctrl == (old(r).ctrl & !self.mask()),
            res.0.m.idx == self.0.m.idx && res.0.m.block == self.0.m.block,
            res.1.m.idx == self.1.m.idx && res.1.m.block == self.1.m.block,
            res.2.m.idx == self.2.m.idx && res.2.m.block == self.2.m.block,
    {
        let m: u32 = self.mask_val();
        r.ctrl = r.ctrl & !m;
        let (a, b, c) = self.free();
        StateGroup3(a.into_stopped(), b.into_stopped(), c.into_stopped())
    }
}

impl StateGroup4<Stopped> {
    /// Enable all four members in one control-register write.
    pub fn start(self, r: &mut PioRegs) -> (res: StateGroup4<Running>)
        ensures
            *final(r) == (PioRegs { ctrl: final(r).ctrl, ..*old(r) }),
            final(r).ctrl == (old(r).ctrl | self.mask()),
            res.0.m.idx == self.0.m.idx && res.0.m.block == self.0.m.block,
            res.1.m.idx == self.1.m.idx && res.1.m.block == self.1.m.block,
            res.2.m.idx == self.2.m.idx && res.2.m.block == self.2.m.block,
            res.3.m.idx == self.3.m.idx && res.3.m.block == self.3.m.block,
    {
        let m: u32 = self.mask_val();
        r.ctrl = r.ctrl | m;
        let (a, b, c, d) = self.free();
        StateGroup4(a.start_paused(), b.start_paused(), c.start_paused(), d.start_paused())
    }
}

impl StateGroup4<Running> {
    /// Disable all four members in one control-register write.
    pub fn stop(self, r: &mut PioRegs) -> (res: StateGroup4<Stopped>)
        ensures
            *final(r) == (PioRegs { ctrl: final(r).ctrl, ..*old(r) }),
            final(r).ctrl == (old(r).ctrl & !self.mask()),
            res.0.m.idx == self.0.m.idx && res.0.m.block == self.0.m.block,
            res.1.m.idx == self.1.m.idx && res.1.m.block == self.1.m.block,
            res.2.m.idx == self.2.m.idx && res.2.m.block == self.2.m.block,
            res.3.m.idx == self.3.m.idx && res.3.m.block == self.3.m.block,
    {
        let m: u32 = self.mask_val();
        r.ctrl = r.ctrl & !m;
        let (a, b, c, d) = self.free();
        StateGroup4(a.into_stopped(), b.into_stopped(), c.into_stopped(), d.into_stopped())
    }
}

impl<S: PioStateOccupied> StateGroup2<S> {
    /// Restart the members' clock dividers with one combined pulse.
    pub fn sync(&mut self, r: &mut PioRegs)
        ensures
            *final(r) == (PioRegs { last_clkdiv: final(r).last_clkdiv, ..*old(r) }),
            final(r).last_clkdiv == old(self).mask(),
            *final(self) == *old(self),
    {
        r.last_clkdiv = self.mask_val();
    }
}

impl<S: PioStateOccupied> StateGroup3<S> {
    /// Restart the members' clock dividers with one combined pulse.
    pub fn sync(&mut self, r: &mut PioRegs)
        ensures
            *final(r) == (PioRegs { last_clkdiv: final(r).last_clkdiv, ..*old(r) }),
            final(r).last_clkdiv == old(self).mask(),
            *final(self) == *old(self),
    {
        r.last_clkdiv = self.mask_val();
    }
}

impl<S: PioStateOccupied> StateGroup4<S> {
    /// Restart the members' clock dividers with one combined pulse.
    pub fn sync(&mut self, r: &mut PioRegs)
        ensures
            *final(r) == (PioRegs { last_clkdiv: final(r).last_clkdiv, ..*old(r) }),
            final(r).last_clkdiv == old(self).mask(),
            *final(self) == *old(self),
    {
        r.last_clkdiv = self.mask_val();
    }
}

} // verus!
