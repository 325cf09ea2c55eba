//! Typed FIFO endpoints of one state-machine unit.
//!
//! [`Rx`] and [`Tx`] are thin views bound to one claimed unit: they carry
//! only the unit index and the block identity, and operate on the block's
//! register model passed in by the caller.  Blocking transfers poll the
//! FIFO flag; every poll that finds the FIFO not ready consumes one pending
//! hardware event, so the wait is exactly as long as the environment's
//! scripted activity makes it.

use vstd::prelude::*;

use crate::pio::regs::{PioRegs, UnitRegs};
use crate::pio::{mask32, Machine, PioError, PioID, PioStateOccupied, Slot};

verus! {

/// One of the two shared interrupt request lines of a block.
#[derive(Clone, Copy, Debug, PartialEq, Eq, Structural)]
pub enum Request {
    Irq0,
    Irq1,
}

impl Request {
    /// The line as a number in `0..2`.
    pub open spec fn as_int(self) -> int {
        match self {
            Request::Irq0 => 0,
            Request::Irq1 => 1,
        }
    }
}

/// Word widths a FIFO endpoint can carry.
pub trait PioIO {}

impl PioIO for u8 {}

impl PioIO for u16 {}

impl PioIO for u32 {}

/// Receive endpoint of one unit.
pub struct Rx<T: PioIO> {
    /// Index of the unit inside its block.
    pub idx: Slot,
    /// Which block the unit belongs to.
    pub block: PioID,
    /// Carries the word width.
    pub width: core::marker::PhantomData<T>,
}

/// Transmit endpoint of one unit.
pub struct Tx<T: PioIO> {
    /// Index of the unit inside its block.
    pub idx: Slot,
    /// Which block the unit belongs to.
    pub block: PioID,
    /// Carries the word width.
    pub width: core::marker::PhantomData<T>,
}

impl Rx<u8> {
    /// Blocking read, truncated to the low byte.
    pub fn read(&self, r: &mut PioRegs) -> (res: u8)
        requires
            exists|k: nat| !(#[trigger] old(r)@.stepped(k)).unit(self.idx).rx_empty(),
        ensures
            exists|k: nat|
                {
                    &&& forall|j: nat|
                        j < k ==> (#[trigger] old(r)@.stepped(j)).unit(self.idx).rx_empty()
                    &&& !(#[trigger] old(r)@.stepped(k)).unit(self.idx).rx_empty()
                    &&& res == old(r)@.stepped(k).unit(self.idx).rx[0] as u8
                    &&& final(r)@ == old(r)@.stepped(k).rx_pop(self.idx)
                },
    {
        self.read_raw(r) as u8
    }

    /// Non-blocking read, truncated to the low byte.
    pub fn try_read(&self, r: &mut PioRegs) -> (res: Option<u8>)
        ensures
            old(r).spec_rx_empty(self.idx) ==> res is None && *final(r) == *old(r),
            !old(r).spec_rx_empty(self.idx) ==> (res matches Some(w) && w == old(r).unit(
                self.idx,
            ).rx@[0] as u8 && rx_popped(*old(r), *final(r), self.idx)),
    {
        match self.try_read_raw(r) {
            Some(v) => Some(v as u8),
            None => None,
        }
    }
}

impl Tx<u8> {
    /// Blocking write of one byte.
    pub fn write(&self, r: &mut PioRegs, v: u8)
        requires
            exists|k: nat| !(#[trigger] old(r)@.stepped(k)).unit(self.idx).tx_full(),
        ensures
            exists|k: nat|
                {
                    &&& forall|j: nat|
                        j < k ==> (#[trigger] old(r)@.stepped(j)).unit(self.idx).tx_full()
                    &&& !(#[trigger] old(r)@.stepped(k)).unit(self.idx).tx_full()
                    &&& final(r)@ == old(r)@.stepped(k).tx_push(self.idx, v as u32)
                },
    {
        self.write_raw(r, v as u32)
    }

    /// Non-blocking write of one byte.
    pub fn try_write(&self, r: &mut PioRegs, v: u8) -> (res: Result<(), PioError>)
        ensures
            old(r).spec_tx_full(self.idx) ==> res == Result::<(), PioError>::Err(
                PioError::WouldBlock,
            ) && *final(r) == *old(r),
            !old(r).spec_tx_full(self.idx) ==> res is Ok && tx_pushed(
                *old(r),
                *final(r),
                self.idx,
                v as u32,
            ),
    {
        self.try_write_raw(r, v as u32)
    }
}

impl Rx<u16> {
    /// Blocking read, truncated to the low half-word.
    pub fn read(&self, r: &mut PioRegs) -> (res: u16)
        requires
            exists|k: nat| !(#[trigger] old(r)@.stepped(k)).unit(self.idx).rx_empty(),
        ensures
            exists|k: nat|
                {
                    &&& forall|j: nat|
                        j < k ==> (#[trigger] old(r)@.stepped(j)).unit(self.idx).rx_empty()
                    &&& !(#[trigger] old(r)@.stepped(k)).unit(self.idx).rx_empty()
                    &&& res == old(r)@.stepped(k).unit(self.idx).rx[0] as u16
                    &&& final(r)@ == old(r)@.stepped(k).rx_pop(self.idx)
                },
    {
        self.read_raw(r) as u16
    }

    /// Non-blocking read, truncated to the low half-word.
    pub fn try_read(&self, r: &mut PioRegs) -> (res: Option<u16>)
        ensures
            old(r).spec_rx_empty(self.idx) ==> res is None && *final(r) == *old(r),
            !old(r).spec_rx_empty(self.idx) ==> (res matches Some(w) && w == old(r).unit(
                self.idx,
            ).rx@[0] as u16 && rx_popped(*old(r), *final(r), self.idx)),
    {
        match self.try_read_raw(r) {
            Some(v) => Some(v as u16),
            None => None,
        }
    }
}

impl Tx<u16> {
    /// Blocking write of one half-word.
    pub fn write(&self, r: &mut PioRegs, v: u16)
        requires
            exists|k: nat| !(#[trigger] old(r)@.stepped(k)).unit(self.idx).tx_full(),
        ensures
            exists|k: nat|
                {
                    &&& forall|j: nat|
                        j < k ==> (#[trigger] old(r)@.stepped(j)).unit(self.idx).tx_full()
                    &&& !(#[trigger] old(r)@.stepped(k)).unit(self.idx).tx_full()
                    &&& final(r)@ == old(r)@.stepped(k).tx_push(self.idx, v as u32)
                },
    {
        self.write_raw(r, v as u32)
    }

    /// Non-blocking write of one half-word.
    pub fn try_write(&self, r: &mut PioRegs, v: u16) -> (res: Result<(), PioError>)
        ensures
            old(r).spec_tx_full(self.idx) ==> res == Result::<(), PioError>::Err(
                PioError::WouldBlock,
            ) && *final(r) == *old(r),
            !old(r).spec_tx_full(self.idx) ==> res is Ok && tx_pushed(
                *old(r),
                *final(r),
                self.idx,
                v as u32,
            ),
    {
        self.try_write_raw(r, v as u32)
    }
}

impl Rx<u32> {
    /// Blocking read of one word.
    pub fn read(&self, r: &mut PioRegs) -> (res: u32)
        requires
            exists|k: nat| !(#[trigger] old(r)@.stepped(k)).unit(self.idx).rx_empty(),
        ensures
            exists|k: nat|
                {
                    &&& forall|j: nat|
                        j < k ==> (#[trigger] old(r)@.stepped(j)).unit(self.idx).rx_empty()
                    &&& !(#[trigger] old(r)@.stepped(k)).unit(self.idx).rx_empty()
                    &&& res == old(r)@.stepped(k).unit(self.idx).rx[0]
                    &&& final(r)@ == old(r)@.stepped(k).rx_pop(self.idx)
                },
    {
        self.read_raw(r)
    }

    /// Non-blocking read of one word.
    pub fn try_read(&self, r: &mut PioRegs) -> (res: Option<u32>)
        ensures
            old(r).spec_rx_empty(self.idx) ==> res is None && *final(r) == *old(r),
            !old(r).spec_rx_empty(self.idx) ==> (res matches Some(w) && w == old(r).unit(
                self.idx,
            ).rx@[0] && rx_popped(*old(r), *final(r), self.idx)),
    {
        self.try_read_raw(r)
    }
}

impl Tx<u32> {
    /// Blocking write of one word.
    pub fn write(&self, r: &mut PioRegs, v: u32)
        requires
            exists|k: nat| !(#[trigger] old(r)@.stepped(k)).unit(self.idx).tx_full(),
        ensures
            exists|k: nat|
                {
                    &&& forall|j: nat|
                        j < k ==> (#[trigger] old(r)@.stepped(j)).unit(self.idx).tx_full()
                    &&& !(#[trigger] old(r)@.stepped(k)).unit(self.idx).tx_full()
                    &&& final(r)@ == old(r)@.stepped(k).tx_push(self.idx, v)
                },
    {
        self.write_raw(r, v)
    }

    /// Non-blocking write of one word.
    pub fn try_write(&self, r: &mut PioRegs, v: u32) -> (res: Result<(), PioError>)
        ensures
            old(r).spec_tx_full(self.idx) ==> res == Result::<(), PioError>::Err(
                PioError::WouldBlock,
            ) && *final(r) == *old(r),
            !old(r).spec_tx_full(self.idx) ==> res is Ok && tx_pushed(
                *old(r),
                *final(r),
                self.idx,
                v,
            ),
    {
        self.try_write_raw(r, v)
    }
}

/// `b` is `a` with the oldest word of unit `i`'s receive FIFO removed.
pub open spec fn rx_popped(a: PioRegs, b: PioRegs, i: Slot) -> bool {
    &&& b == a.with_unit(i, UnitRegs { rx: b.unit(i).rx, ..a.unit(i) })
    &&& b.unit(i).rx@ == a.unit(i).rx@.drop_first()
}

/// `b` is `a` with `v` appended to unit `i`'s transmit FIFO.
pub open spec fn tx_pushed(a: PioRegs, b: PioRegs, i: Slot, v: u32) -> bool {
    &&& b == a.with_unit(i, UnitRegs { tx: b.unit(i).tx, ..a.unit(i) })
    &&& b.unit(i).tx@ == a.unit(i).tx@.push(v)
}

impl<T: PioIO> Rx<T> {
    /// The DMA pacing-request number of this endpoint.
    pub fn dreq(&self) -> (r: u8)
        ensures
            r as int == (match self.block {
                PioID::Pio0 => 4int,
                PioID::Pio1 => 12int,
            }) + self.idx.as_int(),
    {
        (match self.block {
            PioID::Pio0 => 4u8,
            PioID::Pio1 => 12u8,
        }) + self.idx.index()
    }

    /// The fixed bus address of this unit's receive FIFO register.
    pub fn address(&self) -> (r: u32)
        ensures
            r as int == (match self.block {
                PioID::Pio0 => 0x5020_0020int,
                PioID::Pio1 => 0x5030_0020int,
            }) + 4 * self.idx.as_int(),
    {
        (match self.block {
            PioID::Pio0 => 0x5020_0020u32,
            PioID::Pio1 => 0x5030_0020u32,
        }) + 4 * self.idx.index() as u32
    }

    /// Clear this unit's sticky receive-stall debug flag.
    pub fn clear_stalled(&self, r: &mut PioRegs)
        ensures
            *final(r) == (PioRegs { fdebug: final(r).fdebug, ..*old(r) }),
            final(r).fdebug == old(r).fdebug & !mask32(self.idx),
    {
        r.fdebug = r.fdebug & !(1u32 << self.idx.index());
    }

    /// Clear this unit's sticky receive-underrun debug flag.
    pub fn clear_underrun(&self, r: &mut PioRegs)
        ensures
            *final(r) == (PioRegs { fdebug: final(r).fdebug, ..*old(r) }),
            final(r).fdebug == old(r).fdebug & !(mask32(self.idx) << 8),
    {
        r.fdebug = r.fdebug & !((1u32 << self.idx.index()) << 8);
    }

    /// Whether the receive FIFO has no free slot.
    pub fn is_full(&self, r: &PioRegs) -> (res: bool)
        ensures
            res == (r.unit(self.idx).rx@.len() >= r.spec_rx_depth(self.idx)),
    {
        r.unit_ref(self.idx).rx.len() >= r.rx_depth(self.idx)
    }

    /// Whether the receive FIFO holds no word.
    pub fn is_empty(&self, r: &PioRegs) -> (res: bool)
        ensures
            res == r.spec_rx_empty(self.idx),
    {
        r.rx_empty(self.idx)
    }

    /// Whether the sticky receive-stall debug flag is raised.
    pub fn is_stalled(&self, r: &PioRegs) -> (res: bool)
        ensures
            res == (r.fdebug & mask32(self.idx) != 0),
    {
        r.fdebug & (1u32 << self.idx.index()) != 0
    }

    /// Whether the sticky receive-underrun debug flag is raised.
    pub fn is_underrun(&self, r: &PioRegs) -> (res: bool)
        ensures
            res == (r.fdebug & (mask32(self.idx) << 8) != 0),
    {
        r.fdebug & ((1u32 << self.idx.index()) << 8) != 0
    }

    /// Blocking read of one word: poll until the FIFO holds one, consuming
    /// one pending hardware event per failed poll, then take the oldest.
    /// The pending events must make the FIFO non-empty at some poll; on
    /// hardware the wait would otherwise simply never end.
    pub fn read_raw(&self, r: &mut PioRegs) -> (res: u32)
        requires
            exists|k: nat| !(#[trigger] old(r)@.stepped(k)).unit(self.idx).rx_empty(),
        ensures
            exists|k: nat|
                {
                    &&& forall|j: nat|
                        j < k ==> (#[trigger] old(r)@.stepped(j)).unit(self.idx).rx_empty()
                    &&& !(#[trigger] old(r)@.stepped(k)).unit(self.idx).rx_empty()
                    &&& res == old(r)@.stepped(k).unit(self.idx).rx[0]
                    &&& final(r)@ == old(r)@.stepped(k).rx_pop(self.idx)
                },
    {
        let ghost orig = *r;
        let ghost k0 = choose|k: nat| !(#[trigger] orig@.stepped(k)).unit(self.idx).rx_empty();
        let ghost mut j: nat = 0;
        loop
            invariant
                orig == *old(r),
                r@ == orig@.stepped(j),
                forall|jj: nat| jj < j ==> (#[trigger] orig@.stepped(jj)).unit(self.idx).rx_empty(),
                !orig@.stepped(k0).unit(self.idx).rx_empty(),
                j <= k0,
            decreases k0 - j,
        {
            if !r.rx_empty(self.idx) {
                let w: u32;
                {
                    let u = r.unit_mut(self.idx);
                    w = u.rx.remove(0);
                }
                proof {
                    assert(old(r)@ == orig@);
                    assert(!(#[trigger] old(r)@.stepped(j)).unit(self.idx).rx_empty());
                    assert(w == old(r)@.stepped(j).unit(self.idx).rx[0]);
                    assert(r@ =~~= old(r)@.stepped(j).rx_pop(self.idx));
                }
                return w;
            }
            proof {
                if j == k0 {
                    assert(false);
                }
            }
            r.step();
            proof {
                j = j + 1;
            }
        }
    }

    /// Turn automatic pushing of the input shift register on or off.
    /// This is a full register write: the other shift-control bits reset.
    pub fn set_autopush(&self, r: &mut PioRegs, en: bool)
        ensures
            *final(r) == old(r).with_unit(
                self.idx,
                UnitRegs {
                    shiftctrl: if en {
                        0x1_0000u32
                    } else {
                        0u32
                    },
                    ..old(r).unit(self.idx)
                },
            ),
    {
        let u = r.unit_mut(self.idx);
        u.shiftctrl = if en {
            0x1_0000
        } else {
            0
        };
    }

    /// Non-blocking read: the oldest word, or nothing when the FIFO is
    /// empty.
    pub fn try_read_raw(&self, r: &mut PioRegs) -> (res: Option<u32>)
        ensures
            old(r).spec_rx_empty(self.idx) ==> res is None && *final(r) == *old(r),
            !old(r).spec_rx_empty(self.idx) ==> (res matches Some(w) && w == old(r).unit(
                self.idx,
            ).rx@[0] && rx_popped(*old(r), *final(r), self.idx)),
    {
        if r.rx_empty(self.idx) {
            None
        } else {
            let u = r.unit_mut(self.idx);
            Some(u.rx.remove(0))
        }
    }

    /// Enable or disable the receive-not-empty interrupt of this unit on
    /// request line `i`.
    pub fn set_non_empty_irq(&self, r: &mut PioRegs, i: Request, en: bool)
        ensures
            *final(r) == old(r).with_line(
                i,
                crate::pio::regs::LineRegs {
                    inte: if en {
                        old(r).line(i).inte | mask32(self.idx)
                    } else {
                        old(r).line(i).inte & !mask32(self.idx)
                    },
                    ..old(r).line(i)
                },
            ),
    {
        let m: u32 = 1u32 << self.idx.index();
        let l = r.line_mut(i);
        if en {
            l.inte = l.inte | m;
        } else {
            l.inte = l.inte & !m;
        }
    }

    /// Force or release the receive-not-empty interrupt of this unit on
    /// request line `i`.
    pub fn set_non_empty_irq_state(&self, r: &mut PioRegs, i: Request, en: bool)
        ensures
            *final(r) == old(r).with_line(
                i,
                crate::pio::regs::LineRegs {
                    intf: if en {
                        old(r).line(i).intf | mask32(self.idx)
                    } else {
                        old(r).line(i).intf & !mask32(self.idx)
                    },
                    ..old(r).line(i)
                },
            ),
    {
        let m: u32 = 1u32 << self.idx.index();
        let l = r.line_mut(i);
        if en {
            l.intf = l.intf | m;
        } else {
            l.intf = l.intf & !m;
        }
    }

    /// An endpoint bound to the unit of an occupied handle.
    pub(crate) fn new<S: PioStateOccupied>(state: &Machine<S>) -> (res: Rx<T>)
        ensures
            res.idx == state.idx,
            res.block == state.block,
    {
        Rx { idx: state.idx, block: state.block, width: core::marker::PhantomData }
    }
}

impl<T: PioIO> Tx<T> {
    /// The DMA pacing-request number of this endpoint.
    pub fn dreq(&self) -> (r: u8)
        ensures
            r as int == (match self.block {
                PioID::Pio0 => 0int,
                PioID::Pio1 => 8int,
            }) + self.idx.as_int(),
    {
        (match self.block {
            PioID::Pio0 => 0u8,
            PioID::Pio1 => 8u8,
        }) + self.idx.index()
    }

    /// The fixed bus address of this unit's transmit FIFO register.
    pub fn address(&self) -> (r: u32)
        ensures
            r as int == (match self.block {
                PioID::Pio0 => 0x5020_0010int,
                PioID::Pio1 => 0x5030_0010int,
            }) + 4 * self.idx.as_int(),
    {
        (match self.block {
            PioID::Pio0 => 0x5020_0010u32,
            PioID::Pio1 => 0x5030_0010u32,
        }) + 4 * self.idx.index() as u32
    }

    /// Clear this unit's sticky transmit-stall debug flag.
    pub fn clear_stalled(&self, r: &mut PioRegs)
        ensures
            *final(r) == (PioRegs { fdebug: final(r).fdebug, ..*old(r) }),
            final(r).fdebug == old(r).fdebug & !(mask32(self.idx) << 24),
    {
        r.fdebug = r.fdebug & !((1u32 << self.idx.index()) << 24);
    }

    /// Clear this unit's sticky transmit-overrun debug flag.
    pub fn clear_overrun(&self, r: &mut PioRegs)
        ensures
            *final(r) == (PioRegs { fdebug: final(r).fdebug, ..*old(r) }),
            final(r).fdebug == old(r).fdebug & !(mask32(self.idx) << 16),
    {
        r.fdebug = r.fdebug & !((1u32 << self.idx.index()) << 16);
    }

    /// Whether the transmit FIFO has no free slot.
    pub fn is_full(&self, r: &PioRegs) -> (res: bool)
        ensures
            res == r.spec_tx_full(self.idx),
    {
        r.tx_full(self.idx)
    }

    /// Whether the transmit FIFO holds no word.
    pub fn is_empty(&self, r: &PioRegs) -> (res: bool)
        ensures
            res == (r.unit(self.idx).tx@.len() == 0),
    {
        r.unit_ref(self.idx).tx.len() == 0
    }

    /// Whether the sticky transmit-overrun debug flag is raised.
    pub fn is_overrun(&self, r: &PioRegs) -> (res: bool)
        ensures
            res == (r.fdebug & (mask32(self.idx) << 16) != 0),
    {
        r.fdebug & ((1u32 << self.idx.index()) << 16) != 0
    }

    /// Whether the sticky transmit-stall debug flag is raised.
    pub fn is_stalled(&self, r: &PioRegs) -> (res: bool)
        ensures
            res == (r.fdebug & (mask32(self.idx) << 24) != 0),
    {
        r.fdebug & ((1u32 << self.idx.index()) << 24) != 0
    }

    /// Blocking write of one word: poll until the FIFO has a free slot,
    /// consuming one pending hardware event per failed poll, then append.
    /// The pending events must free a slot at some poll; on hardware the
    /// wait would otherwise simply never end.
    pub fn write_raw(&self, r: &mut PioRegs, v: u32)
        requires
            exists|k: nat| !(#[trigger] old(r)@.stepped(k)).unit(self.idx).tx_full(),
        ensures
            exists|k: nat|
                {
                    &&& forall|j: nat|
                        j < k ==> (#[trigger] old(r)@.stepped(j)).unit(self.idx).tx_full()
                    &&& !(#[trigger] old(r)@.stepped(k)).unit(self.idx).tx_full()
                    &&& final(r)@ == old(r)@.stepped(k).tx_push(self.idx, v)
                },
    {
        let ghost orig = *r;
        let ghost k0 = choose|k: nat| !(#[trigger] orig@.stepped(k)).unit(self.idx).tx_full();
        let ghost mut j: nat = 0;
        loop
            invariant
                orig == *old(r),
                r@ == orig@.stepped(j),
                forall|jj: nat| jj < j ==> (#[trigger] orig@.stepped(jj)).unit(self.idx).tx_full(),
                !orig@.stepped(k0).unit(self.idx).tx_full(),
                j <= k0,
            decreases k0 - j,
        {
            if !r.tx_full(self.idx) {
                {
                    let u = r.unit_mut(self.idx);
                    u.tx.push(v);
                }
                proof {
                    assert(old(r)@ == orig@);
                    assert(!(#[trigger] old(r)@.stepped(j)).unit(self.idx).tx_full());
                    assert(r@ =~~= old(r)@.stepped(j).tx_push(self.idx, v));
                }
                return ;
            }
            proof {
                if j == k0 {
                    assert(false);
                }
            }
            r.step();
            proof {
                j = j + 1;
            }
        }
    }

    /// Turn automatic pulling of the output shift register on or off.
    /// This is a full register write: the other shift-control bits reset.
    pub fn set_autopull(&self, r: &mut PioRegs, en: bool)
        ensures
            *final(r) == old(r).with_unit(
                self.idx,
                UnitRegs {
                    shiftctrl: if en {
                        0x2_0000u32
                    } else {
                        0u32
                    },
                    ..old(r).unit(self.idx)
                },
            ),
    {
        let u = r.unit_mut(self.idx);
        u.shiftctrl = if en {
            0x2_0000
        } else {
            0
        };
    }

    /// Enable or disable the transmit-not-full interrupt of this unit on
    /// request line `i`.
    pub fn set_non_empty_irq(&self, r: &mut PioRegs, i: Request, en: bool)
        ensures
            *final(r) == old(r).with_line(
                i,
                crate::pio::regs::LineRegs {
                    inte: if en {
                        old(r).line(i).inte | (mask32(self.idx) << 4)
                    } else {
                        old(r).line(i).inte & !(mask32(self.idx) << 4)
                    },
                    ..old(r).line(i)
                },
            ),
    {
        let m: u32 = (1u32 << self.idx.index()) << 4;
        let l = r.line_mut(i);
        if en {
            l.inte = l.inte | m;
        } else {
            l.inte = l.inte & !m;
        }
    }

    /// Force or release the transmit-not-full interrupt of this unit on
    /// request line `i`.
    pub fn set_non_empty_irq_state(&self, r: &mut PioRegs, i: Request, en: bool)
        ensures
            *final(r) == old(r).with_line(
                i,
                crate::pio::regs::LineRegs {
                    intf: if en {
                        old(r).line(i).intf | (mask32(self.idx) << 4)
                    } else {
                        old(r).line(i).intf & !(mask32(self.idx) << 4)
                    },
                    ..old(r).line(i)
                },
            ),
    {
        let m: u32 = (1u32 << self.idx.index()) << 4;
        let l = r.line_mut(i);
        if en {
            l.intf = l.intf | m;
        } else {
            l.intf = l.intf & !m;
        }
    }

    /// Non-blocking write: append `v`, or report `WouldBlock` when the
    /// FIFO has no free slot.
    pub fn try_write_raw(&self, r: &mut PioRegs, v: u32) -> (res: Result<(), PioError>)
        ensures
            old(r).spec_tx_full(self.idx) ==> res == Result::<(), PioError>::Err(
                PioError::WouldBlock,
            ) && *final(r) == *old(r),
            !old(r).spec_tx_full(self.idx) ==> res is Ok && tx_pushed(
                *old(r),
                *final(r),
                self.idx,
                v,
            ),
    {
        if r.tx_full(self.idx) {
            Err(PioError::WouldBlock)
        } else {
            let u = r.unit_mut(self.idx);
            u.tx.push(v);
            Ok(())
        }
    }

    /// An endpoint bound to the unit of an occupied handle.
    pub(crate) fn new<S: PioStateOccupied>(state: &Machine<S>) -> (res: Tx<T>)
        ensures
            res.idx == state.idx,
            res.block == state.block,
    {
        Tx { idx: state.idx, block: state.block, width: core::marker::PhantomData }
    }
}

} // verus!
