//! Programmable-I/O block: instruction store, relocating loader and
//! unit lifecycle handles.
//!
//! The block owns a 32-word instruction memory shared by four state-machine
//! units.  [`Pio::install`] places a [`Program`] into that memory — first-fit
//! over all start offsets, wrapping modulo the memory size, relocating the
//! address operand of jump-class words — and returns a [`Handle`] describing
//! the consumed slots.  [`Pio::state`] claims one of the four units and
//! returns a typestate-tagged [`State`] handle; the tag (Uninit, Stopped,
//! Running) decides at compile time which operations are reachable.

pub mod config;
pub mod group;
pub mod irq;
pub mod io;
pub mod regs;

use vstd::prelude::*;

use crate::pio::irq::Interrupt;
use crate::pio::io::{Request, Rx, Tx};
use crate::pio::regs::{PioRegs, UnitRegs};

verus! {

/// Size of the shared instruction memory, in words.
pub const MAX_INSTRUCTIONS: usize = 32;

/// Index of one of the four state-machine units.
#[derive(Clone, Copy, Debug, PartialEq, Eq, Structural)]
pub enum Slot {
    Index0,
    Index1,
    Index2,
    Index3,
}

/// Identity of one of the two PIO blocks.
#[derive(Clone, Copy, Debug, PartialEq, Eq, Structural)]
pub enum PioID {
    Pio0,
    Pio1,
}

/// Errors reported by the instruction store and the FIFO endpoints.
#[derive(Clone, Copy, Debug, PartialEq, Eq, Structural)]
pub enum PioError {
    /// No placement admits the program, or a relocated address operand
    /// would leave the instruction memory.
    TooLarge,
    /// A non-blocking FIFO transfer found no ready slot or word.
    WouldBlock,
    /// The program holds no instructions.
    InvalidProgram,
}

/// Lifecycle tag: claimed but not yet configured.
pub struct Uninit;

/// Lifecycle tag: configured and enabled.
pub struct Running;

/// Lifecycle tag: configured, enable bit clear.
pub struct Stopped;

/// Any lifecycle tag.
pub trait PioState {}

/// Tags whose unit may be released back to the store.
pub trait PioStateDone: PioState {}

/// Tags whose unit is configured and may touch its registers and FIFOs.
pub trait PioStateOccupied: PioState {}

impl PioState for Uninit {}

impl PioState for Running {}

impl PioState for Stopped {}

impl PioStateDone for Uninit {}

impl PioStateDone for Stopped {}

impl PioStateOccupied for Running {}

impl PioStateOccupied for Stopped {}

impl Slot {
    /// The slot as a number in `0..4`.
    pub open spec fn as_int(self) -> int {
        match self {
            Slot::Index0 => 0,
            Slot::Index1 => 1,
            Slot::Index2 => 2,
            Slot::Index3 => 3,
        }
    }

    /// The slot index as a machine integer.
    pub fn index(self) -> (r: u8)
        ensures
            r as int == self.as_int(),
            r < 4,
    {
        match self {
            Slot::Index0 => 0,
            Slot::Index1 => 1,
            Slot::Index2 => 2,
            Slot::Index3 => 3,
        }
    }
}

/// Bit `i.as_int()` as a one-byte mask (claim bitmaps).
pub open spec fn mask8(i: Slot) -> u8 {
    1u8 << (i.as_int() as u8)
}

/// Bit `i.as_int()` as a four-byte mask (enable bits, pulse masks).
pub open spec fn mask32(i: Slot) -> u32 {
    1u32 << (i.as_int() as u32)
}

/// Whether bit `b` of `m` is set.
pub open spec fn bit32(m: u32, b: int) -> bool
    recommends
        0 <= b < 32,
{
    m & (1u32 << (b as u32)) != 0
}

/// Whether bit `b` of `m` is set.
pub open spec fn bit8(m: u8, b: int) -> bool
    recommends
        0 <= b < 8,
{
    m & (1u8 << (b as u8)) != 0
}

/// Setting one bit leaves every other bit alone.
pub proof fn lemma_bit32_or(m: u32, b: u32, k: u32)
    requires
        b < 32,
        k < 32,
    ensures
        bit32(m | (1u32 << b), k as int) == (k == b || bit32(m, k as int)),
{
    assert(((m | (1u32 << b)) & (1u32 << k) != 0) == (k == b || (m & (1u32 << k) != 0)))
        by (bit_vector)
        requires
            b < 32,
            k < 32,
    ;
}


/// The zero word has no bit set.
pub proof fn lemma_bit32_zero(k: u32)
    requires
        k < 32,
    ensures
        !bit32(0u32, k as int),
{
    assert(0u32 & (1u32 << k) == 0) by (bit_vector);
}


/// Clearing one bit of a byte leaves every other bit alone.
pub proof fn lemma_bit8_andnot(m: u8, b: u8, k: u8)
    requires
        b < 8,
        k < 8,
    ensures
        bit8(m & !(1u8 << b), k as int) == (k != b && bit8(m, k as int)),
{
    assert(((m & !(1u8 << b)) & (1u8 << k) != 0) == (k != b && (m & (1u8 << k) != 0)))
        by (bit_vector)
        requires
            b < 8,
            k < 8,
    ;
}

/// A word disjoint from a union is disjoint from both parts.
pub proof fn lemma_and_or_zero(a: u32, b: u32, c: u32)
    requires
        a & (b | c) == 0,
    ensures
        a & b == 0,
        a & c == 0,
{
    assert(a & (b | c) == 0 ==> a & b == 0 && a & c == 0) by (bit_vector);
}

/// Physical slot receiving instruction `i` of a program placed at `off`:
/// `(off + i) mod 32`, written without `%` since both are below 32.
pub open spec fn wrap_slot(off: int, i: int) -> int
    recommends
        0 <= off < 32,
        0 <= i < 32,
{
    if off + i < 32 {
        off + i
    } else {
        off + i - 32
    }
}

/// Occupancy mask of a program of `len` words placed at `off`: one bit per
/// slot `wrap_slot(off, i)` for `i` in `0..len`.
pub open spec fn mask_of(off: int, len: int) -> u32
    decreases len,
{
    if len <= 0 {
        0u32
    } else {
        mask_of(off, len - 1) | (1u32 << (wrap_slot(off, len - 1) as u32))
    }
}

/// The bits of `mask_of(off, len)` are exactly the wrapped slots of the
/// placement.
pub proof fn lemma_mask_of_bits(off: int, len: int)
    requires
        0 <= off < 32,
        0 <= len <= 32,
    ensures
        forall|b: int|
            0 <= b < 32 ==> (#[trigger] bit32(mask_of(off, len), b) <==> exists|i: int|
                0 <= i < len && wrap_slot(off, i) == b),
    decreases len,
{
    if len <= 0 {
        assert forall|b: int| 0 <= b < 32 implies !bit32(mask_of(off, len), b) by {
            lemma_bit32_zero(b as u32);
        }
    } else {
        lemma_mask_of_bits(off, len - 1);
        let s = wrap_slot(off, len - 1);
        assert forall|b: int|
            0 <= b < 32 implies (#[trigger] bit32(mask_of(off, len), b) <==> exists|i: int|
            0 <= i < len && wrap_slot(off, i) == b) by {
            lemma_bit32_or(mask_of(off, len - 1), s as u32, b as u32);
            if bit32(mask_of(off, len), b) {
                if b == s {
                    assert(wrap_slot(off, len - 1) == b);
                }
            } else {
                assert(!(exists|i: int| 0 <= i < len - 1 && wrap_slot(off, i) == b));
            }
        }
    }
}

/// Number of set bits among the low `n` bits of `m`.
pub open spec fn popcount_upto(m: u32, n: int) -> int
    decreases n,
{
    if n <= 0 {
        0
    } else {
        popcount_upto(m, n - 1) + if bit32(m, n - 1) {
            1int
        } else {
            0int
        }
    }
}

/// Number of set bits of `m`.
pub open spec fn popcount(m: u32) -> int {
    popcount_upto(m, 32)
}

/// Setting a clear bit raises the population count by one.
pub proof fn lemma_popcount_or_bit(m: u32, b: u32)
    requires
        b < 32,
        !bit32(m, b as int),
    ensures
        popcount(m | (1u32 << b)) == popcount(m) + 1,
{
    lemma_popcount_upto_or_bit(m, b, 32);
}

proof fn lemma_popcount_upto_or_bit(m: u32, b: u32, n: int)
    requires
        b < 32,
        !bit32(m, b as int),
        n <= 32,
    ensures
        popcount_upto(m | (1u32 << b), n) == popcount_upto(m, n) + if b < n {
            1int
        } else {
            0int
        },
    decreases n,
{
    if n > 0 {
        lemma_popcount_upto_or_bit(m, b, n - 1);
        lemma_bit32_or(m, b, (n - 1) as u32);
    }
}

/// The empty mask has no set bits.
pub proof fn lemma_popcount_zero(n: int)
    requires
        n <= 32,
    ensures
        popcount_upto(0u32, n) == 0,
    decreases n,
{
    if n > 0 {
        lemma_popcount_zero(n - 1);
        lemma_bit32_zero((n - 1) as u32);
    }
}

/// A placement mask of `len` slots has population count exactly `len`.
pub proof fn lemma_mask_of_popcount(off: int, len: int)
    requires
        0 <= off < 32,
        0 <= len <= 32,
    ensures
        popcount(mask_of(off, len)) == len,
    decreases len,
{
    if len <= 0 {
        lemma_popcount_zero(32);
    } else {
        lemma_mask_of_popcount(off, len - 1);
        lemma_mask_of_bits(off, len - 1);
        let s = wrap_slot(off, len - 1);
        assert(!(exists|i: int| 0 <= i < len - 1 && wrap_slot(off, i) == s));
        lemma_popcount_or_bit(mask_of(off, len - 1), s as u32);
    }
}

/// Whether instruction word `x` carries an absolute address in its low five
/// bits (all of the top three bits clear).
pub open spec fn is_address_word(x: u16) -> bool {
    x & 0xE000u16 == 0
}

/// The word as installed at offset `off`: address words get `off` added to
/// their low-five-bit operand, all other words pass through unchanged.
pub open spec fn transform_spec(x: u16, off: int) -> u16
    recommends
        0 <= off < 32,
        !is_address_word(x) || (x & 0x1Fu16) + off < 32,
{
    if !is_address_word(x) {
        x
    } else {
        (x & 0xFFE0u16) | (((x & 0x1Fu16) + off) as u16)
    }
}

/// Whether relocating word `x` to offset `off` keeps its address operand
/// inside the instruction memory.
pub open spec fn reloc_ok(x: u16, off: int) -> bool {
    !is_address_word(x) || (x & 0x1Fu16) + off < 32
}

/// Relocate one instruction word to start offset `start`.
///
/// Words with any of the top three bits set carry no address and pass
/// through unchanged.  For address words the start offset is added to the
/// low-five-bit operand; `None` is returned when the adjusted operand would
/// leave the 32-word memory.  On success the low five bits of the result
/// equal `(operand + start) mod 32` and the remaining bits are identical to
/// the source word.
pub fn transform(start: u8, x: u16) -> (r: Option<u16>)
    requires
        start < 32,
    ensures
        r is Some <==> reloc_ok(x, start as int),
        r matches Some(w) ==> w == transform_spec(x, start as int),
        r matches Some(w) ==> (is_address_word(x) ==> (w & 0x1Fu16) as int == ((x & 0x1Fu16)
            + start) % 32 && (w & 0xFFE0u16) == (x & 0xFFE0u16)),
        r matches Some(w) ==> (!is_address_word(x) ==> w == x),
{
    if x & 0xE000 != 0 {
        return Some(x);
    }
    assert(x & 0x1Fu16 < 32) by (bit_vector);
    let v: u8 = (x & 0x1F) as u8 + start;
    if v >= 32 {
        return None;
    }
    let w: u16 = (x & 0xFFE0) | (v as u16);
    proof {
        let vv = v as u16;
        assert(vv < 32 ==> ((x & 0xFFE0u16) | vv) & 0x1Fu16 == vv && ((x & 0xFFE0u16) | vv)
            & 0xFFE0u16 == (x & 0xFFE0u16) && (x & 0xFFE0u16) | (x & 0x1Fu16) == x) by (bit_vector);
    }
    Some(w)
}

/// Whether a program with the given code fits at start offset `s` of a
/// store whose occupancy mask is `used`: every wrapped slot is free and
/// every address word survives relocation.
pub open spec fn can_place(used: u32, code: Seq<u16>, s: int) -> bool {
    &&& 0 <= s < 32
    &&& code.len() <= 32
    &&& forall|i: int|
        0 <= i < code.len() ==> !bit32(used, #[trigger] wrap_slot(s, i)) && reloc_ok(code[i], s)
}

/// An immutable microcode template: instruction words, an optional fixed
/// start offset, and wrap metadata.
pub struct Program<const N: usize> {
    /// The instruction words.
    pub code: [u16; N],
    /// Fixed start offset, or `None` to let the store pick one.
    pub start: Option<u8>,
    /// Offset of the wrap source, relative to the program start.
    pub wrap_src: u8,
    /// Offset of the wrap target, relative to the program start.
    pub wrap_target: u8,
}

impl<const N: usize> Program<N> {
    /// Build a program; a negative `start` means no fixed start offset.
    pub fn new(start: i8, wrap_src: u8, wrap_target: u8, code: [u16; N]) -> (r: Program<N>)
        ensures
            r.code@ == code@,
            r.start == if start < 0 {
                Option::<u8>::None
            } else {
                Option::<u8>::Some(start as u8)
            },
            r.wrap_src == wrap_src,
            r.wrap_target == wrap_target,
    {
        Program {
            code,
            wrap_src,
            wrap_target,
            start: if start < 0 {
                None
            } else {
                Some(start as u8)
            },
        }
    }
}

/// Descriptor of one installed program: consumed slots, assigned offset and
/// wrap addresses still relative to the program.
#[derive(Clone, Copy, Debug, PartialEq, Eq, Structural)]
pub struct Handle {
    /// Wrap source offset, relative to the program.
    pub src: u8,
    /// One bit per instruction-memory slot the program occupies.
    pub mask: u32,
    /// Start offset the program was placed at.
    pub offset: u8,
    /// Wrap target offset, relative to the program.
    pub target: u8,
}

impl Handle {
    /// The occupancy mask of this installation.
    pub fn mask(&self) -> (r: u32)
        ensures
            r == self.mask,
    {
        self.mask
    }

    /// The assigned start offset.
    pub fn offset(&self) -> (r: u8)
        ensures
            r == self.offset,
    {
        self.offset
    }

    /// The wrap source offset, relative to the program.
    pub fn wrap_src(&self) -> (r: u8)
        ensures
            r == self.src,
    {
        self.src
    }

    /// The wrap target offset, relative to the program.
    pub fn wrap_target(&self) -> (r: u8)
        ensures
            r == self.target,
    {
        self.target
    }

    /// The wrap source as an absolute instruction address, saturating.
    pub fn wrap_src_adjusted(&self) -> (r: u8)
        ensures
            r as int == spec_sat_add_u8(self.src as int, self.offset as int),
    {
        let s: u16 = self.src as u16 + self.offset as u16;
        if s > 255 {
            255
        } else {
            s as u8
        }
    }

    /// The wrap target as an absolute instruction address, saturating.
    pub fn wrap_target_adjusted(&self) -> (r: u8)
        ensures
            r as int == spec_sat_add_u8(self.target as int, self.offset as int),
    {
        let s: u16 = self.target as u16 + self.offset as u16;
        if s > 255 {
            255
        } else {
            s as u8
        }
    }
}

/// Union of the one-bit masks of a pin list.
pub open spec fn pins_mask(s: Seq<crate::pin::PinID>) -> u32
    decreases s.len(),
{
    if s.len() == 0 {
        0u32
    } else {
        pins_mask(s.drop_last()) | (1u32 << (s.last().as_int() as u32))
    }
}

/// Saturating byte addition.
pub open spec fn spec_sat_add_u8(a: int, b: int) -> int {
    if a + b > 255 {
        255
    } else {
        a + b
    }
}

/// A claimed state-machine unit: its index and the identity of the block
/// it belongs to.  The lifecycle tag `S` decides which operations exist.
pub struct Machine<S: PioState> {
    /// Index of the unit inside its block.
    pub idx: Slot,
    /// Which of the two blocks the unit belongs to.
    pub block: PioID,
    /// Carries the lifecycle tag.
    pub tag: core::marker::PhantomData<S>,
}

/// An owned lifecycle handle around a [`Machine`].  Exactly one live handle
/// exists per claimed unit index.
pub struct State<S: PioState> {
    /// The unit this handle controls.
    pub m: Machine<S>,
}

/// One PIO block: its register model, the slot occupancy mask of the
/// instruction store and the unit claim bitmap.
pub struct Pio {
    /// The block's registers, as plain data.  Hardware-side effects are
    /// injected here by the environment (tests, or the memory-mapped
    /// bridge outside this library).
    pub regs: PioRegs,
    /// Which of the two blocks this is.
    pub id: PioID,
    /// One bit per occupied instruction-memory slot.
    pub used: u32,
    /// One bit per unit with a live lifecycle handle outstanding.
    pub claimed: u8,
}

impl Pio {
    /// A freshly reset block: no slot occupied, no unit claimed, all
    /// registers at their reset values.
    pub fn get(i: PioID) -> (r: Pio)
        ensures
            r.regs.wf(),
            r.id == i,
            r.used == 0,
            r.claimed == 0,
            r.regs.ctrl == 0,
            r.regs.events@.len() == 0,
    {
        Pio { regs: PioRegs::new(), id: i, used: 0, claimed: 0 }
    }

    /// The latched interrupt flags raised by the units.
    pub fn irq_flags(&self) -> (r: u8)
        ensures
            r == self.regs.irq,
    {
        self.regs.irq
    }

    /// Clear the latched interrupt flags named by `v` (write-one-to-clear).
    pub fn irq_clear(&mut self, v: u8)
        ensures
            final(self).regs == (PioRegs { irq: final(self).regs.irq, ..old(self).regs }),
            final(self).regs.irq == old(self).regs.irq & !v,
            final(self).id == old(self).id,
            final(self).used == old(self).used,
            final(self).claimed == old(self).claimed,
    {
        self.regs.irq = self.regs.irq & !v;
    }

    /// Force the interrupt flags named by `v` high.
    pub fn irq_force(&mut self, v: u8)
        ensures
            final(self).regs == (PioRegs { irq: final(self).regs.irq, ..old(self).regs }),
            final(self).regs.irq == old(self).regs.irq | v,
            final(self).id == old(self).id,
            final(self).used == old(self).used,
            final(self).claimed == old(self).claimed,
    {
        self.regs.irq = self.regs.irq | v;
    }

    /// A view of request line 0.
    pub fn irq0(&self) -> (r: Interrupt)
        ensures
            r.line == Request::Irq0,
    {
        Interrupt::new(Request::Irq0)
    }

    /// A view of request line 1.
    pub fn irq1(&self) -> (r: Interrupt)
        ensures
            r.line == Request::Irq1,
    {
        Interrupt::new(Request::Irq1)
    }

    /// A view of the chosen request line.
    pub fn irq(&self, i: Request) -> (r: Interrupt)
        ensures
            r.line == i,
    {
        Interrupt::new(i)
    }

    /// Claim unit `i` and hand out a fresh Uninit handle, or nothing while
    /// a handle for that index is still outstanding.
    pub fn state(&mut self, i: Slot) -> (r: Option<State<Uninit>>)
        ensures
            final(self).regs == old(self).regs,
            final(self).id == old(self).id,
            final(self).used == old(self).used,
            old(self).claimed & mask8(i) != 0 ==> r is None && final(self).claimed == old(
                self,
            ).claimed,
            old(self).claimed & mask8(i) == 0 ==> (r matches Some(s) && s.m.idx == i && (s.m.block
                == old(self).id) && final(self).claimed == (old(self).claimed | mask8(i))),
    {
        let m: u8 = 1u8 << i.index();
        if self.claimed & m != 0 {
            return None;
        }
        self.claimed = self.claimed | m;
        Some(State { m: Machine { idx: i, block: self.id, tag: core::marker::PhantomData } })
    }

    /// Return a handle whose unit is not running; its claim bit clears and
    /// a later [`Pio::state`] call may re-issue the index.
    pub fn release<S: PioStateDone>(&mut self, i: State<S>)
        ensures
            final(self).regs == old(self).regs,
            final(self).id == old(self).id,
            final(self).used == old(self).used,
            final(self).claimed == (old(self).claimed & !mask8(i.m.idx)),
            final(self).claimed & mask8(i.m.idx) == 0,
    {
        let m: u8 = 1u8 << i.m.idx.index();
        self.claimed = self.claimed & !m;
        proof {
            lemma_bit8_andnot(old(self).claimed, i.m.idx.as_int() as u8, i.m.idx.as_int() as u8);
        }
    }

    /// Install a program: find a start offset (the fixed one, or the first
    /// that fits), relocate every word, write the words to their wrapped
    /// slots and mark those slots occupied.
    ///
    /// Fails with `InvalidProgram` exactly when the program is empty, and
    /// with `TooLarge` exactly when the program is longer than the memory
    /// or no admissible offset places it.
    pub fn install<const N: usize>(&mut self, p: &Program<N>) -> (r: Result<Handle, PioError>)
        requires
            old(self).regs.wf(),
        ensures
            final(self).regs.wf(),
            final(self).id == old(self).id,
            final(self).claimed == old(self).claimed,
            match r {
                Ok(h) => {
                    &&& 1 <= N <= 32
                    &&& 0 <= h.offset < 32
                    &&& (p.start matches Some(s) ==> h.offset == s)
                    &&& (p.start is None ==> forall|s2: int|
                        0 <= s2 < h.offset ==> !can_place(old(self).used, p.code@, s2))
                    &&& can_place(old(self).used, p.code@, h.offset as int)
                    &&& h.mask == mask_of(h.offset as int, N as int)
                    &&& h.mask & old(self).used == 0
                    &&& h.src == p.wrap_src
                    &&& h.target == p.wrap_target
                    &&& final(self).used == (old(self).used | h.mask)
                    &&& final(self).regs == (PioRegs {
                        instr_mem: final(self).regs.instr_mem,
                        ..old(self).regs
                    })
                    &&& forall|i: int|
                        0 <= i < N ==> final(self).regs.instr_mem@[#[trigger] wrap_slot(
                            h.offset as int,
                            i,
                        )] == transform_spec(p.code@[i], h.offset as int)
                    &&& forall|b: int|
                        0 <= b < 32 && !bit32(h.mask, b) ==> final(self).regs.instr_mem@[b] == old(
                            self,
                        ).regs.instr_mem@[b]
                },
                Err(e) => {
                    &&& *final(self) == *old(self)
                    &&& (e is InvalidProgram <==> N == 0)
                    &&& !(e is WouldBlock)
                    &&& (e is TooLarge ==> N >= 1 && (N > 32 || (match p.start {
                        Some(s) => !can_place(old(self).used, p.code@, s as int),
                        None => forall|s2: int|
                            0 <= s2 < 32 ==> !can_place(old(self).used, p.code@, s2),
                    })))
                },
            },
    {
        if N == 0 {
            return Err(PioError::InvalidProgram);
        }
        if N > MAX_INSTRUCTIONS {
            return Err(PioError::TooLarge);
        }
        let placed: Option<(u8, u32)> = match p.start {
            Some(v) => {
                if v >= 32 {
                    None
                } else {
                    match self.try_install_at(v, &p.code) {
                        Some(m) => Some((v, m)),
                        None => None,
                    }
                }
            },
            None => self.try_install(&p.code),
        };
        match placed {
            Some((s, m)) => Ok(
                Handle { src: p.wrap_src, mask: m, offset: s, target: p.wrap_target },
            ),
            None => Err(PioError::TooLarge),
        }
    }

    /// Release the slots of an installed program.  The caller must be sure
    /// no unit still executes code in those slots; the store does not track
    /// that dependency.
    pub fn uninstall(&mut self, h: Handle)
        ensures
            *final(self) == (Pio { used: final(self).used, ..*old(self) }),
            final(self).used == (old(self).used & !h.mask),
    {
        self.used = self.used & !h.mask;
    }

    /// Scan start offsets in ascending order and install at the first that
    /// fits.
    fn try_install<const N: usize>(&mut self, code: &[u16; N]) -> (r: Option<(u8, u32)>)
        requires
            old(self).regs.wf(),
            1 <= N <= 32,
        ensures
            final(self).regs.wf(),
            final(self).id == old(self).id,
            final(self).claimed == old(self).claimed,
            match r {
                Some((s, m)) => {
                    &&& s < 32
                    &&& (forall|s2: int| 0 <= s2 < s ==> !can_place(old(self).used, code@, s2))
                    &&& can_place(old(self).used, code@, s as int)
                    &&& m == mask_of(s as int, N as int)
                    &&& m & old(self).used == 0
                    &&& final(self).used == (old(self).used | m)
                    &&& final(self).regs == (PioRegs {
                        instr_mem: final(self).regs.instr_mem,
                        ..old(self).regs
                    })
                    &&& forall|i: int|
                        0 <= i < N ==> final(self).regs.instr_mem@[#[trigger] wrap_slot(
                            s as int,
                            i,
                        )] == transform_spec(code@[i], s as int)
                    &&& forall|b: int|
                        0 <= b < 32 && !bit32(m, b) ==> final(self).regs.instr_mem@[b] == old(
                            self,
                        ).regs.instr_mem@[b]
                },
                None => {
                    &&& *final(self) == *old(self)
                    &&& forall|s2: int| 0 <= s2 < 32 ==> !can_place(old(self).used, code@, s2)
                },
            },
    {
        let mut s: u8 = 0;
        while s < 32
            invariant
                s <= 32,
                self.regs.wf(),
                *self == *old(self),
                1 <= N <= 32,
                forall|s2: int| 0 <= s2 < s ==> !can_place(old(self).used, code@, s2),
            decreases 32 - s,
        {
            match self.try_install_at(s, code) {
                Some(m) => {
                    return Some((s, m));
                },
                None => {},
            }
            s = s + 1;
        }
        None
    }

    /// Attempt placement at one candidate start offset: check every wrapped
    /// slot for collision and every word for relocatability, then write the
    /// relocated words and commit the mask.
    fn try_install_at<const N: usize>(&mut self, start: u8, code: &[u16; N]) -> (r: Option<u32>)
        requires
            old(self).regs.wf(),
            start < 32,
            1 <= N <= 32,
        ensures
            final(self).regs.wf(),
            final(self).id == old(self).id,
            final(self).claimed == old(self).claimed,
            match r {
                Some(m) => {
                    &&& can_place(old(self).used, code@, start as int)
                    &&& m == mask_of(start as int, N as int)
                    &&& m & old(self).used == 0
                    &&& final(self).used == (old(self).used | m)
                    &&& final(self).regs == (PioRegs {
                        instr_mem: final(self).regs.instr_mem,
                        ..old(self).regs
                    })
                    &&& forall|i: int|
                        0 <= i < N ==> final(self).regs.instr_mem@[#[trigger] wrap_slot(
                            start as int,
                            i,
                        )] == transform_spec(code@[i], start as int)
                    &&& forall|b: int|
                        0 <= b < 32 && !bit32(m, b) ==> final(self).regs.instr_mem@[b] == old(
                            self,
                        ).regs.instr_mem@[b]
                },
                None => {
                    &&& *final(self) == *old(self)
                    &&& !can_place(old(self).used, code@, start as int)
                },
            },
    {
        let ghost used0 = self.used;
        proof {
            lemma_mask_of_bits(start as int, N as int);
            assert(0u32 & self.used == 0) by (bit_vector);
        }
        let mut words: Vec<u16> = Vec::new();
        let mut u: u32 = 0;
        let mut i: usize = 0;
        while i < N
            invariant
                i <= N,
                1 <= N <= 32,
                start < 32,
                *self == *old(self),
                self.regs.wf(),
                words@.len() == i,
                u == mask_of(start as int, i as int),
                u & self.used == 0,
                forall|j: int|
                    0 <= j < i ==> !bit32(self.used, #[trigger] wrap_slot(start as int, j))
                        && reloc_ok(code@[j], start as int),
                forall|j: int|
                    0 <= j < i ==> words@[j] == transform_spec(code@[j], start as int),
            decreases N - i,
        {
            let v: usize = (i + start as usize) % 32;
            proof {
                assert(v as int == wrap_slot(start as int, i as int));
                lemma_mask_of_bits(start as int, i as int);
            }
            let m: u32 = 1u32 << (v as u32);
            if self.used & m != 0 {
                proof {
                    assert(bit32(self.used, wrap_slot(start as int, i as int)));
                }
                return None;
            }
            proof {
                // The candidate's own earlier slots never collide: wrapped
                // slots of distinct indices below 32 are distinct.
                if u & m != 0 {
                    assert(bit32(u, wrap_slot(start as int, i as int)));
                    let j = choose|j: int|
                        0 <= j < i && wrap_slot(start as int, j) == wrap_slot(
                            start as int,
                            i as int,
                        );
                    assert(false);
                }
            }
            match transform(start, code[i]) {
                Some(w) => {
                    words.push(w);
                },
                None => {
                    return None;
                },
            }
            proof {
                let uu = u;
                let us = self.used;
                let b = v as u32;
                assert(uu & us == 0 && us & (1u32 << b) == 0 ==> (uu | (1u32 << b)) & us == 0)
                    by (bit_vector);
                assert(self.used & (1u32 << b) == 0);
                // Name the new index's instances so the invariant's
                // quantifiers cover it.
                assert(!bit32(self.used, wrap_slot(start as int, i as int)));
                assert(reloc_ok(code@[i as int], start as int));
                assert(words@[i as int] == transform_spec(code@[i as int], start as int));
            }
            u = u | m;
            i = i + 1;
        }
        proof {
            lemma_and_or_zero_general(u, self.used, N as int, start as int);
        }
        // Every slot is free and every word relocates: write them.
        let mut k: usize = 0;
        while k < N
            invariant
                k <= N,
                1 <= N <= 32,
                start < 32,
                self.regs.wf(),
                self.id == old(self).id,
                self.used == old(self).used,
                self.claimed == old(self).claimed,
                self.regs == (PioRegs { instr_mem: self.regs.instr_mem, ..old(self).regs }),
                words@.len() == N,
                forall|j: int|
                    0 <= j < N ==> words@[j] == transform_spec(code@[j], start as int),
                forall|j: int|
                    0 <= j < k ==> self.regs.instr_mem@[#[trigger] wrap_slot(start as int, j)]
                        == transform_spec(code@[j], start as int),
                forall|b: int|
                    0 <= b < 32 && !(exists|j: int|
                        0 <= j < k && wrap_slot(start as int, j) == b)
                        ==> self.regs.instr_mem@[b] == old(self).regs.instr_mem@[b],
            decreases N - k,
        {
            let v: usize = (k + start as usize) % 32;
            proof {
                assert(v as int == wrap_slot(start as int, k as int));
            }
            self.regs.instr_mem.set(v, words[k]);
            k = k + 1;
        }
        self.used = self.used | u;
        proof {
            lemma_mask_of_bits(start as int, N as int);
            assert forall|b: int|
                0 <= b < 32 && !bit32(mask_of(start as int, N as int), b) implies self
                .regs
                .instr_mem@[b] == old(self).regs.instr_mem@[b] by {}
        }
        Some(u)
    }
}

/// Disjointness of the placement mask from the occupancy mask follows from
/// per-slot freedom.
proof fn lemma_and_or_zero_general(u: u32, used: u32, len: int, off: int)
    requires
        0 <= off < 32,
        0 <= len <= 32,
        u == mask_of(off, len),
        forall|j: int| 0 <= j < len ==> !bit32(used, #[trigger] wrap_slot(off, j)),
    ensures
        u & used == 0,
    decreases len,
{
    if len <= 0 {
        assert(0u32 & used == 0) by (bit_vector);
    } else {
        lemma_and_or_zero_general(mask_of(off, len - 1), used, len - 1, off);
        let s = wrap_slot(off, len - 1);
        assert(!bit32(used, s));
        let m0 = mask_of(off, len - 1);
        let b = s as u32;
        assert(m0 & used == 0 && (used & (1u32 << b) == 0) && b < 32 ==> (m0 | (1u32 << b)) & used
            == 0) by (bit_vector);
    }
}

/// One bit of `c` restored after being cleared gives back `c` when the bit
/// was set, and clearing a clear bit changes nothing.
pub proof fn lemma_bit32_restore(c: u32, b: u32)
    requires
        b < 32,
    ensures
        c & (1u32 << b) != 0 ==> ((c & !(1u32 << b)) | (1u32 << b)) == c,
        c & (1u32 << b) == 0 ==> (c & !(1u32 << b)) == c,
{
    assert((c & (1u32 << b) != 0 ==> ((c & !(1u32 << b)) | (1u32 << b)) == c) && (c & (1u32 << b)
        == 0 ==> (c & !(1u32 << b)) == c)) by (bit_vector);
}

impl<S: PioState> Machine<S> {
    /// The unit's program counter.
    pub fn pc(&self, r: &PioRegs) -> (res: u32)
        ensures
            res == r.unit(self.idx).addr as u32,
    {
        r.unit_ref(self.idx).addr as u32
    }

    /// Pulse the unit's restart bit: one write naming exactly this unit.
    pub fn restart(&self, r: &mut PioRegs)
        ensures
            *final(r) == (PioRegs { last_restart: final(r).last_restart, ..*old(r) }),
            final(r).last_restart == mask32(self.idx),
    {
        r.last_restart = 1u32 << self.idx.index();
    }

    /// Pulse the unit's clock-divisor restart bit.
    pub fn restart_clock(&self, r: &mut PioRegs)
        ensures
            *final(r) == (PioRegs { last_clkdiv: final(r).last_clkdiv, ..*old(r) }),
            final(r).last_clkdiv == mask32(self.idx),
    {
        r.last_clkdiv = 1u32 << self.idx.index();
    }

    /// Read the X scratch register by injecting the word that pushes it.
    pub fn x(&self, r: &mut PioRegs) -> (res: u32)
        ensures
            *final(r) == old(r).with_unit(
                self.idx,
                UnitRegs { instr: 0x4020u16, ..old(r).unit(self.idx) },
            ),
            res == old(r).unit(self.idx).x,
    {
        let u = r.unit_mut(self.idx);
        u.instr = 0x4020;
        u.x
    }

    /// Read the Y scratch register by injecting the word that pushes it.
    pub fn y(&self, r: &mut PioRegs) -> (res: u32)
        ensures
            *final(r) == old(r).with_unit(
                self.idx,
                UnitRegs { instr: 0x4040u16, ..old(r).unit(self.idx) },
            ),
            res == old(r).unit(self.idx).y,
    {
        let u = r.unit_mut(self.idx);
        u.instr = 0x4040;
        u.y
    }

    /// Load the X scratch register by injecting the word that pulls it.
    pub fn set_x(&self, r: &mut PioRegs, v: u32)
        ensures
            *final(r) == old(r).with_unit(
                self.idx,
                UnitRegs { instr: 0x6020u16, x: v, ..old(r).unit(self.idx) },
            ),
    {
        let u = r.unit_mut(self.idx);
        u.instr = 0x6020;
        u.x = v;
    }

    /// Load the Y scratch register by injecting the word that pulls it.
    pub fn set_y(&self, r: &mut PioRegs, v: u32)
        ensures
            *final(r) == old(r).with_unit(
                self.idx,
                UnitRegs { instr: 0x6040u16, y: v, ..old(r).unit(self.idx) },
            ),
    {
        let u = r.unit_mut(self.idx);
        u.instr = 0x6040;
        u.y = v;
    }

    /// Empty both FIFOs by toggling the receive-join bit twice; the shift
    /// control register ends unchanged.
    pub fn drain_fifo(&self, r: &mut PioRegs)
        ensures
            *final(r) == old(r).with_unit(
                self.idx,
                UnitRegs {
                    tx: final(r).unit(self.idx).tx,
                    rx: final(r).unit(self.idx).rx,
                    ..old(r).unit(self.idx)
                },
            ),
            final(r).unit(self.idx).tx@.len() == 0,
            final(r).unit(self.idx).rx@.len() == 0,
    {
        let u = r.unit_mut(self.idx);
        u.tx = Vec::new();
        u.rx = Vec::new();
    }

    /// Whether the unit's enable bit is set.
    pub fn is_enabled(&self, r: &PioRegs) -> (res: bool)
        ensures
            res == (r.ctrl & mask32(self.idx) != 0),
    {
        r.ctrl & (1u32 << self.idx.index()) != 0
    }

    /// Whether the unit stalled on its last executed word.
    pub fn is_stalled(&self, r: &PioRegs) -> (res: bool)
        ensures
            res == (r.unit(self.idx).execctrl & 0x8000_0000u32 != 0),
    {
        r.unit_ref(self.idx).execctrl & 0x8000_0000 != 0
    }

    /// Set or clear only this unit's enable bit.
    pub fn set_state(&self, r: &mut PioRegs, en: bool)
        ensures
            *final(r) == (PioRegs { ctrl: final(r).ctrl, ..*old(r) }),
            en ==> final(r).ctrl == (old(r).ctrl | mask32(self.idx)),
            !en ==> final(r).ctrl == (old(r).ctrl & !mask32(self.idx)),
    {
        let m: u32 = 1u32 << self.idx.index();
        if en {
            r.ctrl = r.ctrl | m;
        } else {
            r.ctrl = r.ctrl & !m;
        }
    }

    /// Write the unit's clock divisor: integer part in the top half-word,
    /// fraction in bits 15:8.
    pub fn set_clock_div(&self, r: &mut PioRegs, int_part: u16, frac: u8)
        ensures
            *final(r) == old(r).with_unit(
                self.idx,
                UnitRegs {
                    clkdiv: (int_part as u32 * 0x1_0000 + frac as u32 * 0x100) as u32,
                    ..old(r).unit(self.idx)
                },
            ),
    {
        let u = r.unit_mut(self.idx);
        u.clkdiv = int_part as u32 * 0x1_0000 + frac as u32 * 0x100;
    }

    /// Force the program counter to `addr` by injecting an unconditional
    /// jump (a bare address encodes exactly that).
    pub fn jump(&self, r: &mut PioRegs, addr: u8)
        requires
            addr < 32,
        ensures
            *final(r) == old(r).with_unit(
                self.idx,
                UnitRegs { instr: addr as u16, addr, ..old(r).unit(self.idx) },
            ),
    {
        let u = r.unit_mut(self.idx);
        u.instr = addr as u16;
        u.addr = addr;
    }

    /// Inject one raw instruction word for immediate one-shot execution.
    pub fn execute(&self, r: &mut PioRegs, inst: u16)
        ensures
            *final(r) == old(r).with_unit(
                self.idx,
                UnitRegs { instr: inst, ..old(r).unit(self.idx) },
            ),
    {
        let u = r.unit_mut(self.idx);
        u.instr = inst;
    }
}

impl<S: PioStateOccupied> Machine<S> {
    /// A byte-wide receive endpoint on this unit.
    pub fn rx_u8(&self) -> (r: Rx<u8>)
        ensures
            r.idx == self.idx && r.block == self.block,
    {
        Rx::new(self)
    }

    /// A byte-wide transmit endpoint on this unit.
    pub fn tx_u8(&self) -> (r: Tx<u8>)
        ensures
            r.idx == self.idx && r.block == self.block,
    {
        Tx::new(self)
    }

    /// A half-word receive endpoint on this unit.
    pub fn rx_u16(&self) -> (r: Rx<u16>)
        ensures
            r.idx == self.idx && r.block == self.block,
    {
        Rx::new(self)
    }

    /// A half-word transmit endpoint on this unit.
    pub fn tx_u16(&self) -> (r: Tx<u16>)
        ensures
            r.idx == self.idx && r.block == self.block,
    {
        Tx::new(self)
    }

    /// A word-wide receive endpoint on this unit.
    pub fn rx_u32(&self) -> (r: Rx<u32>)
        ensures
            r.idx == self.idx && r.block == self.block,
    {
        Rx::new(self)
    }

    /// A word-wide transmit endpoint on this unit.
    pub fn tx_u32(&self) -> (r: Tx<u32>)
        ensures
            r.idx == self.idx && r.block == self.block,
    {
        Tx::new(self)
    }

    /// A receive endpoint of the chosen width on this unit.
    pub fn rx<T: crate::pio::io::PioIO>(&self) -> (r: Rx<T>)
        ensures
            r.idx == self.idx && r.block == self.block,
    {
        Rx::new(self)
    }

    /// A transmit endpoint of the chosen width on this unit.
    pub fn tx<T: crate::pio::io::PioIO>(&self) -> (r: Tx<T>)
        ensures
            r.idx == self.idx && r.block == self.block,
    {
        Tx::new(self)
    }

    /// Bypass the input synchronizer of one pin (full register write).
    pub fn set_pin_sync_bypass(&self, r: &mut PioRegs, pin: crate::pin::PinID)
        ensures
            *final(r) == (PioRegs { input_sync_bypass: final(r).input_sync_bypass, ..*old(r) }),
            final(r).input_sync_bypass == (1u32 << (pin.as_int() as u32)),
    {
        r.input_sync_bypass = 1u32 << pin.index() as u32;
    }

    /// Bypass the input synchronizer of each listed pin (full register
    /// write of the union of their bits).
    pub fn set_pins_sync_bypass(&self, r: &mut PioRegs, pins: &[crate::pin::PinID])
        ensures
            *final(r) == (PioRegs { input_sync_bypass: final(r).input_sync_bypass, ..*old(r) }),
            final(r).input_sync_bypass == pins_mask(pins@),
    {
        let mut v: u32 = 0;
        let mut i: usize = 0;
        while i < pins.len()
            invariant
                i <= pins@.len(),
                v == pins_mask(pins@.subrange(0, i as int)),
            decreases pins@.len() - i,
        {
            v = v | (1u32 << pins[i].index() as u32);
            proof {
                assert(pins@.subrange(0, i + 1 as int).drop_last() =~= pins@.subrange(0, i as int));
                assert(pins@.subrange(0, i + 1 as int).last() == pins@[i as int]);
            }
            i = i + 1;
        }
        proof {
            assert(pins@.subrange(0, pins@.len() as int) =~= pins@);
        }
        r.input_sync_bypass = v;
    }

    /// Force one pin to the given level: pause the unit, save its pin and
    /// execution control, inject one SET word, restore everything.
    pub fn set_pin_state(&self, r: &mut PioRegs, state: crate::pin::PinState, pin: crate::pin::PinID)
        ensures
            *final(r) == old(r).with_unit(
                self.idx,
                UnitRegs {
                    instr: match state {
                        crate::pin::PinState::Low => 0xE000u16,
                        crate::pin::PinState::High => 0xE001u16,
                    },
                    ..old(r).unit(self.idx)
                },
            ),
    {
        let v: u16 = match state {
            crate::pin::PinState::Low => 0xE000,
            crate::pin::PinState::High => 0xE001,
        };
        self.inject_paused_set(r, v, pin);
    }

    /// Force each listed pin to the given level, one SET word per pin,
    /// inside a single pause of the unit.
    pub fn set_pins_state(&self, r: &mut PioRegs, state: crate::pin::PinState, pins: &[crate::pin::PinID])
        ensures
            pins@.len() == 0 ==> *final(r) == *old(r),
            pins@.len() > 0 ==> *final(r) == old(r).with_unit(
                self.idx,
                UnitRegs {
                    instr: match state {
                        crate::pin::PinState::Low => 0xE000u16,
                        crate::pin::PinState::High => 0xE001u16,
                    },
                    ..old(r).unit(self.idx)
                },
            ),
    {
        let v: u16 = match state {
            crate::pin::PinState::Low => 0xE000,
            crate::pin::PinState::High => 0xE001,
        };
        self.inject_paused_set_all(r, v, pins);
    }

    /// Force one pin's direction, by the same pause-inject-restore dance.
    pub fn set_pin_direction(&self, r: &mut PioRegs, dir: crate::pin::PinDirection, pin: crate::pin::PinID)
        ensures
            *final(r) == old(r).with_unit(
                self.idx,
                UnitRegs {
                    instr: match dir {
                        crate::pin::PinDirection::In => 0xE080u16,
                        crate::pin::PinDirection::Out => 0xE081u16,
                    },
                    ..old(r).unit(self.idx)
                },
            ),
    {
        let v: u16 = match dir {
            crate::pin::PinDirection::In => 0xE080,
            crate::pin::PinDirection::Out => 0xE081,
        };
        self.inject_paused_set(r, v, pin);
    }

    /// Force each listed pin's direction inside a single pause.
    pub fn set_pins_direction(&self, r: &mut PioRegs, dir: crate::pin::PinDirection, pins: &[crate::pin::PinID])
        ensures
            pins@.len() == 0 ==> *final(r) == *old(r),
            pins@.len() > 0 ==> *final(r) == old(r).with_unit(
                self.idx,
                UnitRegs {
                    instr: match dir {
                        crate::pin::PinDirection::In => 0xE080u16,
                        crate::pin::PinDirection::Out => 0xE081u16,
                    },
                    ..old(r).unit(self.idx)
                },
            ),
    {
        let v: u16 = match dir {
            crate::pin::PinDirection::In => 0xE080,
            crate::pin::PinDirection::Out => 0xE081,
        };
        self.inject_paused_set_all(r, v, pins);
    }

    /// The pause-inject-restore sequence for one pin: the unit is disabled,
    /// its pin-control and execution-control registers are saved, a SET
    /// word targeting the pin is injected, the saved registers and the
    /// prior enable state come back.  Not re-entrant: a concurrent restart
    /// of the same unit corrupts the saved state.
    fn inject_paused_set(&self, r: &mut PioRegs, word: u16, pin: crate::pin::PinID)
        ensures
            *final(r) == old(r).with_unit(
                self.idx,
                UnitRegs { instr: word, ..old(r).unit(self.idx) },
            ),
    {
        let was: bool = self.is_enabled(r);
        self.set_state(r, false);
        let saved_pinctrl: u32 = r.unit_ref(self.idx).pinctrl;
        let saved_execctrl: u32 = r.unit_ref(self.idx).execctrl;
        {
            let u = r.unit_mut(self.idx);
            // Sticky output only, everything else zero, while forcing.
            u.execctrl = 0x2_0000;
            // SET base = pin, SET count = 1.
            u.pinctrl = pin.index() as u32 * 32 + 0x400_0000;
            u.instr = word;
        }
        r.unit_mut(self.idx).pinctrl = saved_pinctrl;
        r.unit_mut(self.idx).execctrl = saved_execctrl;
        self.set_state(r, was);
        proof {
            lemma_bit32_restore(old(r).ctrl, self.idx.as_int() as u32);
        }
    }

    /// The pause-inject-restore sequence over a pin list; each pin gets
    /// its own SET word, all inside one pause.
    fn inject_paused_set_all(&self, r: &mut PioRegs, word: u16, pins: &[crate::pin::PinID])
        ensures
            pins@.len() == 0 ==> *final(r) == *old(r),
            pins@.len() > 0 ==> *final(r) == old(r).with_unit(
                self.idx,
                UnitRegs { instr: word, ..old(r).unit(self.idx) },
            ),
    {
        let was: bool = self.is_enabled(r);
        self.set_state(r, false);
        let saved_pinctrl: u32 = r.unit_ref(self.idx).pinctrl;
        let saved_execctrl: u32 = r.unit_ref(self.idx).execctrl;
        {
            let u = r.unit_mut(self.idx);
            u.execctrl = 0x2_0000;
        }
        let ghost mid0 = *r;
        let mut i: usize = 0;
        while i < pins.len()
            invariant
                i <= pins@.len(),
                i == 0 ==> *r == mid0,
                i > 0 ==> *r == mid0.with_unit(
                    self.idx,
                    UnitRegs {
                        pinctrl: r.unit(self.idx).pinctrl,
                        instr: word,
                        ..mid0.unit(self.idx)
                    },
                ),
            decreases pins@.len() - i,
        {
            let u = r.unit_mut(self.idx);
            u.pinctrl = pins[i].index() as u32 * 32 + 0x400_0000;
            u.instr = word;
            i = i + 1;
        }
        r.unit_mut(self.idx).pinctrl = saved_pinctrl;
        r.unit_mut(self.idx).execctrl = saved_execctrl;
        self.set_state(r, was);
        proof {
            lemma_bit32_restore(old(r).ctrl, self.idx.as_int() as u32);
        }
    }
}

impl State<Uninit> {
    /// Move to the configured tag; used by the configuration builder.
    pub(crate) fn init(self) -> (r: State<Stopped>)
        ensures
            r.m.idx == self.m.idx,
            r.m.block == self.m.block,
    {
        State { m: Machine { idx: self.m.idx, block: self.m.block, tag: core::marker::PhantomData } }
    }
}

impl State<Stopped> {
    /// Enable the unit: sets only this unit's enable bit.
    pub fn start(self, r: &mut PioRegs) -> (res: State<Running>)
        ensures
            *final(r) == (PioRegs { ctrl: final(r).ctrl, ..*old(r) }),
            final(r).ctrl == (old(r).ctrl | mask32(self.m.idx)),
            res.m.idx == self.m.idx,
            res.m.block == self.m.block,
    {
        let mut m = self.m;
        m.set_state(r, true);
        State { m: Machine { idx: m.idx, block: m.block, tag: core::marker::PhantomData } }
    }

    /// Take the Running tag without touching the enable bit; the unit
    /// starts when a grouped or synchronized pulse enables it.
    pub fn start_paused(self) -> (res: State<Running>)
        ensures
            res.m.idx == self.m.idx,
            res.m.block == self.m.block,
    {
        State { m: Machine { idx: self.m.idx, block: self.m.block, tag: core::marker::PhantomData } }
    }
}

impl State<Running> {
    /// Disable the unit: clears only this unit's enable bit.
    pub fn stop(self, r: &mut PioRegs) -> (res: State<Stopped>)
        ensures
            *final(r) == (PioRegs { ctrl: final(r).ctrl, ..*old(r) }),
            final(r).ctrl == (old(r).ctrl & !mask32(self.m.idx)),
            res.m.idx == self.m.idx,
            res.m.block == self.m.block,
    {
        let mut m = self.m;
        m.set_state(r, false);
        State { m: Machine { idx: m.idx, block: m.block, tag: core::marker::PhantomData } }
    }

    /// Take the Stopped tag without touching the enable bit; used after a
    /// grouped stop already cleared it.
    pub(crate) fn into_stopped(self) -> (res: State<Stopped>)
        ensures
            res.m.idx == self.m.idx,
            res.m.block == self.m.block,
    {
        State { m: Machine { idx: self.m.idx, block: self.m.block, tag: core::marker::PhantomData } }
    }
}

impl<S: PioState> State<S> {
    /// Pair this handle with another of the same tag.
    pub fn group(self, other: State<S>) -> (r: crate::pio::group::StateGroup2<S>)
        ensures
            r.0.m.idx == self.m.idx && r.0.m.block == self.m.block,
            r.1.m.idx == other.m.idx && r.1.m.block == other.m.block,
    {
        crate::pio::group::StateGroup2::new(self, other)
    }
}

impl<S: PioStateOccupied> State<S> {
    /// Disable the unit and fall back to the unconfigured tag.  The claim
    /// bit stays set until the store releases the handle.
    pub fn release(self, r: &mut PioRegs) -> (res: State<Uninit>)
        ensures
            *final(r) == (PioRegs { ctrl: final(r).ctrl, ..*old(r) }),
            final(r).ctrl == (old(r).ctrl & !mask32(self.m.idx)),
            res.m.idx == self.m.idx,
            res.m.block == self.m.block,
    {
        let mut m = self.m;
        m.set_state(r, false);
        State { m: Machine { idx: m.idx, block: m.block, tag: core::marker::PhantomData } }
    }
}


/// Every wrapped slot is the modular sum of offset and index.
pub proof fn lemma_wrap_slot_is_mod(off: int, i: int)
    requires
        0 <= off < 32,
        0 <= i < 32,
    ensures
        wrap_slot(off, i) == (off + i) % 32,
{
}

/// The mask of a successful installation of `len` words at `off` has
/// population count exactly `len`, and its bits are exactly the slots
/// `(off + i) mod 32` for `i` below `len`.
pub proof fn lemma_install_mask(off: int, len: int)
    requires
        0 <= off < 32,
        0 <= len <= 32,
    ensures
        popcount(mask_of(off, len)) == len,
        forall|b: int|
            0 <= b < 32 ==> (#[trigger] bit32(mask_of(off, len), b) <==> exists|i: int|
                0 <= i < len && #[trigger] ((off + i) % 32) == b),
{
    lemma_mask_of_popcount(off, len);
    lemma_mask_of_bits(off, len);
    assert forall|b: int|
        0 <= b < 32 implies (#[trigger] bit32(mask_of(off, len), b) <==> exists|i: int|
        0 <= i < len && #[trigger] ((off + i) % 32) == b) by {
        if bit32(mask_of(off, len), b) {
            let i = choose|i: int| 0 <= i < len && wrap_slot(off, i) == b;
            assert((off + i) % 32 == b);
        }
        if exists|i: int| 0 <= i < len && #[trigger] ((off + i) % 32) == b {
            let i = choose|i: int| 0 <= i < len && #[trigger] ((off + i) % 32) == b;
            assert(wrap_slot(off, i) == b);
        }
    }
}

/// Two programs installed into the same store without an intervening
/// uninstall never share a slot: the second mask avoids everything the
/// store held, including the first mask.
pub proof fn lemma_masks_disjoint(used0: u32, m1: u32, m2: u32)
    requires
        m2 & (used0 | m1) == 0,
    ensures
        m2 & m1 == 0,
{
    lemma_and_or_zero(m2, used0, m1);
}

/// Releasing a handle frees its claim bit, so the next claim of that
/// index succeeds.
pub proof fn lemma_release_then_claim(c: u8, i: Slot)
    ensures
        (c & !mask8(i)) & mask8(i) == 0,
{
    let b = i.as_int() as u8;
    assert(b < 8 ==> ((c & !(1u8 << b)) & (1u8 << b)) == 0) by (bit_vector);
}

/// A configured unit comes back with its enable bit clear.
pub proof fn lemma_configure_disabled(c: u32, i: Slot)
    ensures
        (c & !mask32(i)) & mask32(i) == 0,
{
    let b = i.as_int() as u32;
    assert(b < 32 ==> ((c & !(1u32 << b)) & (1u32 << b)) == 0) by (bit_vector);
}

/// Starting a unit raises its own enable bit and no other; stopping
/// clears its own and no other.
pub proof fn lemma_start_stop_touch_only_own(c: u32, i: Slot, j: Slot)
    requires
        i != j,
    ensures
        (c | mask32(i)) & mask32(i) != 0,
        (c | mask32(i)) & mask32(j) == c & mask32(j),
        (c & !mask32(i)) & mask32(i) == 0,
        (c & !mask32(i)) & mask32(j) == c & mask32(j),
{
    let bi = i.as_int() as u32;
    let bj = j.as_int() as u32;
    assert(bi < 32 && bj < 32 && bi != bj ==> ((c | (1u32 << bi)) & (1u32 << bi) != 0 && (c | (
    1u32 << bi)) & (1u32 << bj) == c & (1u32 << bj) && (c & !(1u32 << bi)) & (1u32 << bi) == 0 && (
    c & !(1u32 << bi)) & (1u32 << bj) == c & (1u32 << bj))) by (bit_vector);
}

/// A two-member group start raises exactly the two members' enable bits
/// in its one write, and a group stop clears exactly those two.
pub proof fn lemma_group2_touches_only_members(c: u32, a: Slot, b: Slot, j: Slot)
    requires
        j != a,
        j != b,
    ensures
        (c | (mask32(a) | mask32(b))) & mask32(a) != 0,
        (c | (mask32(a) | mask32(b))) & mask32(b) != 0,
        (c | (mask32(a) | mask32(b))) & mask32(j) == c & mask32(j),
        (c & !(mask32(a) | mask32(b))) & mask32(a) == 0,
        (c & !(mask32(a) | mask32(b))) & mask32(b) == 0,
        (c & !(mask32(a) | mask32(b))) & mask32(j) == c & mask32(j),
{
    let ba = a.as_int() as u32;
    let bb = b.as_int() as u32;
    let bj = j.as_int() as u32;
    assert(ba < 32 && bb < 32 && bj < 32 && bj != ba && bj != bb ==> ((c | ((1u32 << ba) | (1u32
        << bb))) & (1u32 << ba) != 0 && (c | ((1u32 << ba) | (1u32 << bb))) & (1u32 << bb) != 0 && (
    c | ((1u32 << ba) | (1u32 << bb))) & (1u32 << bj) == c & (1u32 << bj) && (c & !((1u32 << ba) | (
    1u32 << bb))) & (1u32 << ba) == 0 && (c & !((1u32 << ba) | (1u32 << bb))) & (1u32 << bb) == 0
        && (c & !((1u32 << ba) | (1u32 << bb))) & (1u32 << bj) == c & (1u32 << bj))) by (bit_vector);
}

/// Combines stopped units so a later pulse restarts their clock dividers in
/// one shared-register write.
pub struct Synced {
    /// Unit mask of the members gathered so far.
    pub mask: u32,
}

impl Synced {
    /// Start gathering with one stopped unit.
    pub fn new(s: &State<Stopped>) -> (r: Synced)
        ensures
            r.mask == mask32(s.m.idx),
    {
        Synced { mask: 1u32 << s.m.idx.index() }
    }

    /// Add one more stopped unit to the gathering.
    pub fn add(self, other: &State<Stopped>) -> (r: Synced)
        ensures
            r.mask == (self.mask | mask32(other.m.idx)),
    {
        Synced { mask: self.mask | (1u32 << other.m.idx.index()) }
    }

    /// Fire the gathered clock-divisor restart pulse: one write covering
    /// exactly the member units.
    pub fn trigger(self, r: &mut PioRegs)
        ensures
            *final(r) == (PioRegs { last_clkdiv: final(r).last_clkdiv, ..*old(r) }),
            final(r).last_clkdiv == self.mask,
    {
        r.last_clkdiv = self.mask;
    }
}

} // verus!
