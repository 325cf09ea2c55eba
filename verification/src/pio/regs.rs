//! Register model of one PIO block.
//!
//! `PioRegs` mirrors, as plain data, every register of the block that this
//! driver reads or writes: the shared control and debug registers, the
//! 32-word instruction memory, the per-unit register sets and the two
//! interrupt lines.  The FIFOs appear as explicit queues so their full and
//! empty flags are derived exactly the way the hardware derives them.
//!
//! The hardware's own activity — a running unit draining a transmit FIFO or
//! filling a receive FIFO — is injected as explicit [`HwEvent`] values: each
//! poll of a busy flag consumes one pending event.  This makes the blocking
//! transfer paths deterministic and lets a test script the moment at which a
//! FIFO frees a slot.  The abstract state of the block is [`PioView`], and
//! [`PioView::stepped`] says exactly where the block stands after a number
//! of polls.

use vstd::prelude::*;

use crate::pio::io::Request;
use crate::pio::Slot;

verus! {

/// Registers owned by a single state-machine unit.
pub struct UnitRegs {
    /// Clock divisor: integer part in bits 31:16, fraction in bits 15:8.
    pub clkdiv: u32,
    /// Execution control: side-set mode, wrap addresses, status source.
    pub execctrl: u32,
    /// Shift control: FIFO join bits, thresholds, shift directions.
    pub shiftctrl: u32,
    /// Pin control: base pin and pin count for each pin group.
    pub pinctrl: u32,
    /// Last word written to the instruction register (one-shot execution).
    pub instr: u16,
    /// Program counter.
    pub addr: u8,
    /// X scratch register.
    pub x: u32,
    /// Y scratch register.
    pub y: u32,
    /// Transmit FIFO, oldest word first.
    pub tx: Vec<u32>,
    /// Receive FIFO, oldest word first.
    pub rx: Vec<u32>,
}

/// Interrupt-enable and interrupt-force registers of one request line.
#[derive(Clone, Copy, Debug, PartialEq, Eq, Structural)]
pub struct LineRegs {
    pub inte: u32,
    pub intf: u32,
}

/// One quantum of hardware activity, consumed by one poll of a busy flag.
#[derive(Clone, Copy, Debug, PartialEq, Eq, Structural)]
pub enum HwEvent {
    /// The hardware did nothing observable.
    Idle,
    /// The unit consumed the oldest word of its transmit FIFO.
    TxTake(Slot),
    /// The unit pushed a word into its receive FIFO.
    RxGive(Slot, u32),
}

/// Abstract state of one unit's registers.
#[verifier::ext_equal]
pub ghost struct UnitView {
    pub clkdiv: u32,
    pub execctrl: u32,
    pub shiftctrl: u32,
    pub pinctrl: u32,
    pub instr: u16,
    pub addr: u8,
    pub x: u32,
    pub y: u32,
    pub tx: Seq<u32>,
    pub rx: Seq<u32>,
}

/// Abstract state of one whole block.
#[verifier::ext_equal]
pub ghost struct PioView {
    pub ctrl: u32,
    pub fdebug: u32,
    pub irq: u8,
    pub input_sync_bypass: u32,
    pub instr_mem: Seq<u16>,
    pub u0: UnitView,
    pub u1: UnitView,
    pub u2: UnitView,
    pub u3: UnitView,
    pub line0: LineRegs,
    pub line1: LineRegs,
    pub last_restart: u32,
    pub last_clkdiv: u32,
    pub events: Seq<HwEvent>,
}

impl View for UnitRegs {
    type V = UnitView;

    open spec fn view(&self) -> UnitView {
        UnitView {
            clkdiv: self.clkdiv,
            execctrl: self.execctrl,
            shiftctrl: self.shiftctrl,
            pinctrl: self.pinctrl,
            instr: self.instr,
            addr: self.addr,
            x: self.x,
            y: self.y,
            tx: self.tx@,
            rx: self.rx@,
        }
    }
}

/// The registers of one PIO block, as plain data.
pub struct PioRegs {
    /// Unit enable bits (bit `i` enables unit `i`).
    pub ctrl: u32,
    /// Sticky FIFO debug flags; written bits clear.
    pub fdebug: u32,
    /// Latched interrupt flags raised by the units.
    pub irq: u8,
    /// Input synchronizer bypass bits, one per pin.
    pub input_sync_bypass: u32,
    /// The 32-word shared instruction memory.
    pub instr_mem: Vec<u16>,
    pub unit0: UnitRegs,
    pub unit1: UnitRegs,
    pub unit2: UnitRegs,
    pub unit3: UnitRegs,
    pub line0: LineRegs,
    pub line1: LineRegs,
    /// Unit mask carried by the most recent restart pulse.
    pub last_restart: u32,
    /// Unit mask carried by the most recent clock-divisor restart pulse.
    pub last_clkdiv: u32,
    /// Pending hardware activity, oldest first.
    pub events: Vec<HwEvent>,
}

impl View for PioRegs {
    type V = PioView;

    open spec fn view(&self) -> PioView {
        PioView {
            ctrl: self.ctrl,
            fdebug: self.fdebug,
            irq: self.irq,
            input_sync_bypass: self.input_sync_bypass,
            instr_mem: self.instr_mem@,
            u0: self.unit0@,
            u1: self.unit1@,
            u2: self.unit2@,
            u3: self.unit3@,
            line0: self.line0,
            line1: self.line1,
            last_restart: self.last_restart,
            last_clkdiv: self.last_clkdiv,
            events: self.events@,
        }
    }
}

impl UnitView {
    /// Transmit FIFO depth after joining (FJOIN_RX is bit 31, FJOIN_TX
    /// bit 30 of the shift-control register).
    pub open spec fn tx_depth(self) -> int {
        if self.shiftctrl & 0x8000_0000u32 != 0 {
            0int
        } else if self.shiftctrl & 0x4000_0000u32 != 0 {
            8int
        } else {
            4int
        }
    }

    /// Receive FIFO depth after joining.
    pub open spec fn rx_depth(self) -> int {
        if self.shiftctrl & 0x4000_0000u32 != 0 {
            0int
        } else if self.shiftctrl & 0x8000_0000u32 != 0 {
            8int
        } else {
            4int
        }
    }

    /// Whether the transmit FIFO has no free slot.
    pub open spec fn tx_full(self) -> bool {
        self.tx.len() >= self.tx_depth()
    }

    /// Whether the receive FIFO holds no word.
    pub open spec fn rx_empty(self) -> bool {
        self.rx.len() == 0
    }
}

impl PioView {
    /// The abstract register set of unit `i`.
    pub open spec fn unit(self, i: Slot) -> UnitView {
        match i {
            Slot::Index0 => self.u0,
            Slot::Index1 => self.u1,
            Slot::Index2 => self.u2,
            Slot::Index3 => self.u3,
        }
    }

    /// `self` with the abstract register set of unit `i` replaced by `u`.
    pub open spec fn with_unit(self, i: Slot, u: UnitView) -> PioView {
        match i {
            Slot::Index0 => PioView { u0: u, ..self },
            Slot::Index1 => PioView { u1: u, ..self },
            Slot::Index2 => PioView { u2: u, ..self },
            Slot::Index3 => PioView { u3: u, ..self },
        }
    }

    /// `self` with the oldest word of unit `i`'s receive FIFO removed.
    pub open spec fn rx_pop(self, i: Slot) -> PioView {
        self.with_unit(i, UnitView { rx: self.unit(i).rx.drop_first(), ..self.unit(i) })
    }

    /// `self` with `w` appended to unit `i`'s transmit FIFO.
    pub open spec fn tx_push(self, i: Slot, w: u32) -> PioView {
        self.with_unit(i, UnitView { tx: self.unit(i).tx.push(w), ..self.unit(i) })
    }

    /// One poll of a busy flag: the oldest pending event is consumed and
    /// its effect applied.  With no event pending the block is idle.
    pub open spec fn step(self) -> PioView {
        if self.events.len() == 0 {
            self
        } else {
            let rest = PioView { events: self.events.drop_first(), ..self };
            match self.events[0] {
                HwEvent::Idle => rest,
                HwEvent::TxTake(i) => {
                    if self.unit(i).tx.len() > 0 {
                        rest.with_unit(
                            i,
                            UnitView { tx: self.unit(i).tx.drop_first(), ..self.unit(i) },
                        )
                    } else {
                        rest
                    }
                },
                HwEvent::RxGive(i, w) => {
                    if self.unit(i).rx.len() < self.unit(i).rx_depth() {
                        rest.with_unit(
                            i,
                            UnitView { rx: self.unit(i).rx.push(w), ..self.unit(i) },
                        )
                    } else {
                        rest
                    }
                },
            }
        }
    }

    /// The block's abstract state after `k` polls.
    pub open spec fn stepped(self, k: nat) -> PioView
        decreases k,
    {
        if k == 0 {
            self
        } else {
            self.stepped((k - 1) as nat).step()
        }
    }
}

impl PioRegs {
    /// The register set of unit `i`.
    pub open spec fn unit(self, i: Slot) -> UnitRegs {
        match i {
            Slot::Index0 => self.unit0,
            Slot::Index1 => self.unit1,
            Slot::Index2 => self.unit2,
            Slot::Index3 => self.unit3,
        }
    }

    /// `self` with the register set of unit `i` replaced by `u`.
    pub open spec fn with_unit(self, i: Slot, u: UnitRegs) -> PioRegs {
        match i {
            Slot::Index0 => PioRegs { unit0: u, ..self },
            Slot::Index1 => PioRegs { unit1: u, ..self },
            Slot::Index2 => PioRegs { unit2: u, ..self },
            Slot::Index3 => PioRegs { unit3: u, ..self },
        }
    }

    /// The registers of request line `r`.
    pub open spec fn line(self, r: Request) -> LineRegs {
        match r {
            Request::Irq0 => self.line0,
            Request::Irq1 => self.line1,
        }
    }

    /// `self` with the registers of request line `r` replaced by `l`.
    pub open spec fn with_line(self, r: Request, l: LineRegs) -> PioRegs {
        match r {
            Request::Irq0 => PioRegs { line0: l, ..self },
            Request::Irq1 => PioRegs { line1: l, ..self },
        }
    }

    /// The instruction memory always holds exactly 32 words.
    pub open spec fn wf(self) -> bool {
        self.instr_mem@.len() == 32
    }

    /// Transmit FIFO depth of unit `i`, after FIFO joining.
    pub open spec fn spec_tx_depth(self, i: Slot) -> int {
        if self.unit(i).shiftctrl & 0x8000_0000u32 != 0 {
            0int
        } else if self.unit(i).shiftctrl & 0x4000_0000u32 != 0 {
            8int
        } else {
            4int
        }
    }

    /// Receive FIFO depth of unit `i`, after FIFO joining.
    pub open spec fn spec_rx_depth(self, i: Slot) -> int {
        if self.unit(i).shiftctrl & 0x4000_0000u32 != 0 {
            0int
        } else if self.unit(i).shiftctrl & 0x8000_0000u32 != 0 {
            8int
        } else {
            4int
        }
    }

    pub open spec fn spec_tx_full(self, i: Slot) -> bool {
        self.unit(i).tx@.len() >= self.spec_tx_depth(i)
    }

    pub open spec fn spec_rx_empty(self, i: Slot) -> bool {
        self.unit(i).rx@.len() == 0
    }

    /// A reset block: all registers zero, FIFOs and event queue empty,
    /// every clock divisor at one.
    pub fn new() -> (r: PioRegs)
        ensures
            r.wf(),
            forall|i: Slot| #![auto]
                r.unit(i) == (UnitRegs {
                    clkdiv: 0x1_0000u32,
                    execctrl: 0u32,
                    shiftctrl: 0u32,
                    pinctrl: 0u32,
                    instr: 0u16,
                    addr: 0u8,
                    x: 0u32,
                    y: 0u32,
                    tx: r.unit(i).tx,
                    rx: r.unit(i).rx,
                }),
            forall|i: Slot| #![auto] r.unit(i).tx@.len() == 0 && r.unit(i).rx@.len() == 0,
            r.ctrl == 0 && r.fdebug == 0 && r.irq == 0 && r.input_sync_bypass == 0,
            r.line0 == (LineRegs { inte: 0u32, intf: 0u32 }),
            r.line1 == (LineRegs { inte: 0u32, intf: 0u32 }),
            r.last_restart == 0 && r.last_clkdiv == 0,
            r.events@.len() == 0,
            forall|k: int| 0 <= k < 32 ==> r.instr_mem@[k] == 0u16,
    {
        let mut mem: Vec<u16> = Vec::new();
        let mut k: usize = 0;
        while k < 32
            invariant
                k <= 32,
                mem@.len() == k,
                forall|j: int| 0 <= j < k ==> mem@[j] == 0u16,
            decreases 32 - k,
        {
            mem.push(0u16);
            k = k + 1;
        }
        PioRegs {
            ctrl: 0,
            fdebug: 0,
            irq: 0,
            input_sync_bypass: 0,
            instr_mem: mem,
            unit0: UnitRegs::new(),
            unit1: UnitRegs::new(),
            unit2: UnitRegs::new(),
            unit3: UnitRegs::new(),
            line0: LineRegs { inte: 0, intf: 0 },
            line1: LineRegs { inte: 0, intf: 0 },
            last_restart: 0,
            last_clkdiv: 0,
            events: Vec::new(),
        }
    }

    /// Shared reference to the register set of unit `i`.
    pub fn unit_ref(&self, i: Slot) -> (r: &UnitRegs)
        ensures
            *r == self.unit(i),
    {
        match i {
            Slot::Index0 => &self.unit0,
            Slot::Index1 => &self.unit1,
            Slot::Index2 => &self.unit2,
            Slot::Index3 => &self.unit3,
        }
    }

    /// Exclusive reference to the register set of unit `i`; nothing else
    /// in the block changes.
    pub fn unit_mut(&mut self, i: Slot) -> (r: &mut UnitRegs)
        ensures
            *r == old(self).unit(i),
            *final(self) == old(self).with_unit(i, *final(r)),
    {
        match i {
            Slot::Index0 => &mut self.unit0,
            Slot::Index1 => &mut self.unit1,
            Slot::Index2 => &mut self.unit2,
            Slot::Index3 => &mut self.unit3,
        }
    }

    /// Shared reference to the registers of request line `r`.
    pub fn line_ref(&self, i: Request) -> (r: &LineRegs)
        ensures
            *r == self.line(i),
    {
        match i {
            Request::Irq0 => &self.line0,
            Request::Irq1 => &self.line1,
        }
    }

    /// Exclusive reference to the registers of request line `r`; nothing
    /// else in the block changes.
    pub fn line_mut(&mut self, i: Request) -> (r: &mut LineRegs)
        ensures
            *r == old(self).line(i),
            *final(self) == old(self).with_line(i, *final(r)),
    {
        match i {
            Request::Irq0 => &mut self.line0,
            Request::Irq1 => &mut self.line1,
        }
    }

    /// Transmit FIFO depth of unit `i`.
    pub fn tx_depth(&self, i: Slot) -> (r: usize)
        ensures
            r == self.spec_tx_depth(i),
    {
        let s: u32 = self.unit_ref(i).shiftctrl;
        if s & 0x8000_0000u32 != 0 {
            0
        } else if s & 0x4000_0000u32 != 0 {
            8
        } else {
            4
        }
    }

    /// Receive FIFO depth of unit `i`.
    pub fn rx_depth(&self, i: Slot) -> (r: usize)
        ensures
            r == self.spec_rx_depth(i),
    {
        let s: u32 = self.unit_ref(i).shiftctrl;
        if s & 0x4000_0000u32 != 0 {
            0
        } else if s & 0x8000_0000u32 != 0 {
            8
        } else {
            4
        }
    }

    /// Whether the transmit FIFO of unit `i` has no free slot.
    pub fn tx_full(&self, i: Slot) -> (r: bool)
        ensures
            r == self.spec_tx_full(i),
    {
        self.unit_ref(i).tx.len() >= self.tx_depth(i)
    }

    /// Whether the receive FIFO of unit `i` holds no word.
    pub fn rx_empty(&self, i: Slot) -> (r: bool)
        ensures
            r == self.spec_rx_empty(i),
    {
        self.unit_ref(i).rx.len() == 0
    }

    /// Consume the oldest pending hardware event and apply its effect.
    pub fn step(&mut self)
        ensures
            final(self)@ == old(self)@.step(),
    {
        if self.events.len() == 0 {
            return ;
        }
        let e: HwEvent = self.events.remove(0);
        match e {
            HwEvent::Idle => {
                proof {
                    assert(self@ =~~= old(self)@.step());
                }
            },
            HwEvent::TxTake(i) => {
                let u = self.unit_mut(i);
                if u.tx.len() > 0 {
                    u.tx.remove(0);
                }
                proof {
                    assert(self@ =~~= old(self)@.step());
                }
            },
            HwEvent::RxGive(i, w) => {
                let d: usize = self.rx_depth(i);
                let u = self.unit_mut(i);
                if u.rx.len() < d {
                    u.rx.push(w);
                }
                proof {
                    assert(self@ =~~= old(self)@.step());
                }
            },
        }
    }

    /// Queue one hardware event behind the ones already pending.
    pub fn push_event(&mut self, e: HwEvent)
        ensures
            *final(self) == (PioRegs { events: final(self).events, ..*old(self) }),
            final(self).events@ == old(self).events@.push(e),
    {
        self.events.push(e);
    }
}

impl UnitRegs {
    /// A reset unit: divisor one, everything else zero, FIFOs empty.
    pub fn new() -> (r: UnitRegs)
        ensures
            r == (UnitRegs {
                clkdiv: 0x1_0000u32,
                execctrl: 0u32,
                shiftctrl: 0u32,
                pinctrl: 0u32,
                instr: 0u16,
                addr: 0u8,
                x: 0u32,
                y: 0u32,
                tx: r.tx,
                rx: r.rx,
            }),
            r.tx@.len() == 0,
            r.rx@.len() == 0,
    {
        UnitRegs {
            clkdiv: 0x1_0000,
            execctrl: 0,
            shiftctrl: 0,
            pinctrl: 0,
            instr: 0,
            addr: 0,
            x: 0,
            y: 0,
            tx: Vec::new(),
            rx: Vec::new(),
        }
    }
}

} // verus!
