//! Interrupt view of one request line of a PIO block.
//!
//! The block drives two request lines.  For each line the model keeps an
//! enable and a force register; the raw status is derived from the FIFO
//! queues and the latched unit flags exactly as the hardware derives it,
//! and the latched line status is the raw status masked by the enables and
//! OR-ed with the forced bits.

use vstd::prelude::*;

use crate::pio::io::Request;
use crate::pio::regs::{LineRegs, PioRegs};
use crate::pio::Slot;

verus! {

/// Flags of one request line, as read from the hardware.
///
/// Bits 0–3 report a non-empty receive FIFO, bits 4–7 a non-full transmit
/// FIFO, bits 8–11 the latched unit flags.
#[derive(Clone, Copy, Debug, PartialEq, Eq, Structural)]
pub struct InterruptState(pub u32);

/// One of the four per-unit interrupt flags of a request line.
#[derive(Clone, Copy, Debug, PartialEq, Eq, Structural)]
pub enum InterruptIndex {
    Num0,
    Num1,
    Num2,
    Num3,
}

impl InterruptIndex {
    /// The flag index as a number in `0..4`.
    pub open spec fn as_int(self) -> int {
        match self {
            InterruptIndex::Num0 => 0,
            InterruptIndex::Num1 => 1,
            InterruptIndex::Num2 => 2,
            InterruptIndex::Num3 => 3,
        }
    }

    /// The flag index as a machine integer.
    pub fn index(self) -> (r: u8)
        ensures
            r as int == self.as_int(),
            r < 4,
    {
        match self {
            InterruptIndex::Num0 => 0,
            InterruptIndex::Num1 => 1,
            InterruptIndex::Num2 => 2,
            InterruptIndex::Num3 => 3,
        }
    }
}

/// The raw (unlatched) interrupt status of a block: one term per flag,
/// assembled by addition of disjoint powers of two.
pub open spec fn intr_spec(p: PioRegs) -> u32 {
    (rx_term(p, Slot::Index0, 1) + rx_term(p, Slot::Index1, 2) + rx_term(p, Slot::Index2, 4)
        + rx_term(p, Slot::Index3, 8) + tx_term(p, Slot::Index0, 16) + tx_term(p, Slot::Index1, 32)
        + tx_term(p, Slot::Index2, 64) + tx_term(p, Slot::Index3, 128) + irq_term(p, 1, 256)
        + irq_term(p, 2, 512) + irq_term(p, 4, 1024) + irq_term(p, 8, 2048)) as u32
}

/// `v` when unit `i`'s receive FIFO holds a word, else zero.
pub open spec fn rx_term(p: PioRegs, i: Slot, v: int) -> int {
    if p.unit(i).rx@.len() > 0 {
        v
    } else {
        0
    }
}

/// `v` when unit `i`'s transmit FIFO has a free slot, else zero.
pub open spec fn tx_term(p: PioRegs, i: Slot, v: int) -> int {
    if p.unit(i).tx@.len() < p.spec_tx_depth(i) {
        v
    } else {
        0
    }
}

/// `v` when the latched unit flag selected by mask `m` is raised, else
/// zero.
pub open spec fn irq_term(p: PioRegs, m: u8, v: int) -> int {
    if p.irq & m != 0 {
        v
    } else {
        0
    }
}

/// The latched, software-visible status of line `i`: the raw status masked
/// by the line's enables, OR-ed with its forced bits.
pub open spec fn ints_spec(p: PioRegs, i: Request) -> u32 {
    (intr_spec(p) & p.line(i).inte) | p.line(i).intf
}

impl InterruptState {
    /// Latched flag of unit 0.
    pub fn sm0(&self) -> (r: bool)
        ensures
            r == (self.0 & 0x100u32 != 0),
    {
        self.0 & 0x100 != 0
    }

    /// Latched flag of unit 1.
    pub fn sm1(&self) -> (r: bool)
        ensures
            r == (self.0 & 0x200u32 != 0),
    {
        self.0 & 0x200 != 0
    }

    /// Latched flag of unit 2.
    pub fn sm2(&self) -> (r: bool)
        ensures
            r == (self.0 & 0x400u32 != 0),
    {
        self.0 & 0x400 != 0
    }

    /// Latched flag of unit 3.
    pub fn sm3(&self) -> (r: bool)
        ensures
            r == (self.0 & 0x800u32 != 0),
    {
        self.0 & 0x800 != 0
    }

    /// Receive FIFO of unit 0 holds a word.
    pub fn rx_not_empty_sm0(&self) -> (r: bool)
        ensures
            r == (self.0 & 0x1u32 != 0),
    {
        self.0 & 0x1 != 0
    }

    /// Receive FIFO of unit 1 holds a word.
    pub fn rx_not_empty_sm1(&self) -> (r: bool)
        ensures
            r == (self.0 & 0x2u32 != 0),
    {
        self.0 & 0x2 != 0
    }

    /// Receive FIFO of unit 2 holds a word.
    pub fn rx_not_empty_sm2(&self) -> (r: bool)
        ensures
            r == (self.0 & 0x4u32 != 0),
    {
        self.0 & 0x4 != 0
    }

    /// Receive FIFO of unit 3 holds a word.
    pub fn rx_not_empty_sm3(&self) -> (r: bool)
        ensures
            r == (self.0 & 0x8u32 != 0),
    {
        self.0 & 0x8 != 0
    }

    /// Transmit FIFO of unit 0 has a free slot.
    pub fn tx_not_empty_sm0(&self) -> (r: bool)
        ensures
            r == (self.0 & 0x10u32 != 0),
    {
        self.0 & 0x10 != 0
    }

    /// Transmit FIFO of unit 1 has a free slot.
    pub fn tx_not_empty_sm1(&self) -> (r: bool)
        ensures
            r == (self.0 & 0x20u32 != 0),
    {
        self.0 & 0x20 != 0
    }

    /// Transmit FIFO of unit 2 has a free slot.
    pub fn tx_not_empty_sm2(&self) -> (r: bool)
        ensures
            r == (self.0 & 0x40u32 != 0),
    {
        self.0 & 0x40 != 0
    }

    /// Transmit FIFO of unit 3 has a free slot.
    pub fn tx_not_empty_sm3(&self) -> (r: bool)
        ensures
            r == (self.0 & 0x80u32 != 0),
    {
        self.0 & 0x80 != 0
    }
}

/// A view of one request line of a block.
pub struct Interrupt {
    /// The line this view is scoped to.
    pub line: Request,
}

impl Interrupt {
    /// The unlatched hardware status of the block.
    pub fn raw(&self, p: &PioRegs) -> (r: InterruptState)
        ensures
            r.0 == intr_spec(*p),
    {
        InterruptState(intr_read(p))
    }

    /// The latched, software-visible status of this line.
    pub fn state(&self, p: &PioRegs) -> (r: InterruptState)
        ensures
            r.0 == ints_spec(*p, self.line),
    {
        let l = p.line_ref(self.line);
        InterruptState((intr_read(p) & l.inte) | l.intf)
    }

    /// Enable or disable the latched flag `i` on this line.
    pub fn set_interrupt(&self, p: &mut PioRegs, i: InterruptIndex, en: bool)
        ensures
            *final(p) == old(p).with_line(
                self.line,
                LineRegs {
                    inte: if en {
                        old(p).line(self.line).inte | (1u32 << (i.as_int() as u32 + 8))
                    } else {
                        old(p).line(self.line).inte & !(1u32 << (i.as_int() as u32 + 8))
                    },
                    ..old(p).line(self.line)
                },
            ),
    {
        let m: u32 = 1u32 << (i.index() as u32 + 8);
        let l = p.line_mut(self.line);
        if en {
            l.inte = l.inte | m;
        } else {
            l.inte = l.inte & !m;
        }
    }

    /// Force or release the latched flag `i` on this line.
    pub fn set_interrupt_state(&self, p: &mut PioRegs, i: InterruptIndex, en: bool)
        ensures
            *final(p) == old(p).with_line(
                self.line,
                LineRegs {
                    intf: if en {
                        old(p).line(self.line).intf | (1u32 << (i.as_int() as u32 + 8))
                    } else {
                        old(p).line(self.line).intf & !(1u32 << (i.as_int() as u32 + 8))
                    },
                    ..old(p).line(self.line)
                },
            ),
    {
        let m: u32 = 1u32 << (i.index() as u32 + 8);
        let l = p.line_mut(self.line);
        if en {
            l.intf = l.intf | m;
        } else {
            l.intf = l.intf & !m;
        }
    }

    /// A view scoped to line `i`.
    pub(crate) fn new(i: Request) -> (r: Interrupt)
        ensures
            r.line == i,
    {
        Interrupt { line: i }
    }
}

/// Assemble the raw status word from the model.
fn intr_read(p: &PioRegs) -> (r: u32)
    ensures
        r == intr_spec(*p),
{
    let t0: u32 = rx_flag(p, Slot::Index0, 1);
    let t1: u32 = rx_flag(p, Slot::Index1, 2);
    let t2: u32 = rx_flag(p, Slot::Index2, 4);
    let t3: u32 = rx_flag(p, Slot::Index3, 8);
    let t4: u32 = tx_flag(p, Slot::Index0, 16);
    let t5: u32 = tx_flag(p, Slot::Index1, 32);
    let t6: u32 = tx_flag(p, Slot::Index2, 64);
    let t7: u32 = tx_flag(p, Slot::Index3, 128);
    let t8: u32 = irq_flag(p, 1, 256);
    let t9: u32 = irq_flag(p, 2, 512);
    let t10: u32 = irq_flag(p, 4, 1024);
    let t11: u32 = irq_flag(p, 8, 2048);
    let v: u32 = t0 + t1 + t2 + t3 + t4 + t5 + t6 + t7 + t8 + t9 + t10 + t11;
    proof {
        lemma_intr_sum(*p, v);
    }
    v
}

/// One receive-status term of the raw status word.
fn rx_flag(p: &PioRegs, i: Slot, v: u32) -> (r: u32)
    requires
        v <= 2048,
    ensures
        r as int == rx_term(*p, i, v as int),
        r <= 2048,
{
    if p.unit_ref(i).rx.len() > 0 {
        v
    } else {
        0
    }
}

/// One transmit-status term of the raw status word.
fn tx_flag(p: &PioRegs, i: Slot, v: u32) -> (r: u32)
    requires
        v <= 2048,
    ensures
        r as int == tx_term(*p, i, v as int),
        r <= 2048,
{
    if p.unit_ref(i).tx.len() < p.tx_depth(i) {
        v
    } else {
        0
    }
}

/// One latched-flag term of the raw status word.
fn irq_flag(p: &PioRegs, m: u8, v: u32) -> (r: u32)
    requires
        v <= 2048,
    ensures
        r as int == irq_term(*p, m, v as int),
        r <= 2048,
{
    if p.irq & m != 0 {
        v
    } else {
        0
    }
}

/// A word that adds up the twelve status terms is the raw status word.
proof fn lemma_intr_sum(p: PioRegs, v: u32)
    requires
        v as int == rx_term(p, Slot::Index0, 1) + rx_term(p, Slot::Index1, 2) + rx_term(
            p,
            Slot::Index2,
            4,
        ) + rx_term(p, Slot::Index3, 8) + tx_term(p, Slot::Index0, 16) + tx_term(
            p,
            Slot::Index1,
            32,
        ) + tx_term(p, Slot::Index2, 64) + tx_term(p, Slot::Index3, 128) + irq_term(p, 1, 256)
            + irq_term(p, 2, 512) + irq_term(p, 4, 1024) + irq_term(p, 8, 2048),
    ensures
        v == intr_spec(p),
{
}

} // verus!
