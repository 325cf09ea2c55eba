//! Small multiply-xor pseudo-random generator.
//!
//! The generator's whole state is one 32-bit word.  Each draw adds a fixed
//! odd constant, multiplies the state with a mask of itself and folds the
//! high half back onto the low half.  The silicon's ring-oscillator
//! entropy source is not part of the model, so fresh generators start from
//! zero and reseeding stirs the current state; seed explicitly for
//! reproducible streams.

use vstd::prelude::*;

verus! {

/// The per-draw state update: add the stirring constant, wrapping.
pub open spec fn spec_rand_step(s: u32) -> u32 {
    (((s as int) + 0x78BD642F) % 0x1_0000_0000) as u32
}

/// The output drawn from a fresh state `s`.
pub open spec fn spec_rand_out(s: u32) -> u32 {
    (((spec_rand_mul(s) / 0x1_0000_0000) as u64) ^ (spec_rand_mul(s) as u64)) as u32
}

/// The wrapped 64-bit product of the state with a mask of itself.
pub open spec fn spec_rand_mul(s: u32) -> int {
    ((s as int) * ((s ^ 0xA0B428DBu32) as int)) % 0x1_0000_0000_0000_0000
}

/// A pseudo-random generator owning its one-word state.
pub struct Rand(pub u32);

/// A pseudo-random generator intended to be shared; the model keeps it a
/// plain owner.
pub struct RandMut(pub Rand);

impl Rand {
    /// A generator at state zero.
    pub fn empty() -> (r: Rand)
        ensures
            r.0 == 0,
    {
        Rand(0)
    }

    /// A generator at the given state.
    pub fn with_seed(seed: u32) -> (r: Rand)
        ensures
            r.0 == seed,
    {
        Rand(seed)
    }

    /// A fresh generator; without the oscillator the model starts at
    /// zero.
    pub fn new() -> (r: Rand)
        ensures
            r.0 == 0,
    {
        Rand(0)
    }

    /// Stir the state; without the oscillator the model advances it one
    /// step.
    pub fn reseed(&mut self)
        ensures
            final(self).0 == spec_rand_step(old(self).0),
    {
        self.0 = step(self.0);
    }

    /// Draw one word.
    pub fn rand_u32(&mut self) -> (r: u32)
        ensures
            final(self).0 == spec_rand_step(old(self).0),
            r == spec_rand_out(final(self).0),
    {
        self.0 = step(self.0);
        let a: u64 = self.0 as u64;
        let b: u64 = (self.0 ^ 0xA0B428DBu32) as u64;
        proof {
            lemma_mul_u32_bound(a, b);
        }
        let v: u64 = ((a as u128 * b as u128) % 0x1_0000_0000_0000_0000) as u64;
        #[verifier::truncate] (((v / 0x1_0000_0000) ^ v) as u32)
    }

    /// Draw four bytes, big-endian.
    pub fn rand(&mut self) -> (r: [u8; 4])
        ensures
            final(self).0 == spec_rand_step(old(self).0),
            r@[0] == (spec_rand_out(final(self).0) / 0x100_0000) as u8,
            r@[1] == ((spec_rand_out(final(self).0) / 0x1_0000) % 0x100) as u8,
            r@[2] == ((spec_rand_out(final(self).0) / 0x100) % 0x100) as u8,
            r@[3] == (spec_rand_out(final(self).0) % 0x100) as u8,
    {
        let v: u32 = self.rand_u32();
        [(v / 0x100_0000) as u8, ((v / 0x1_0000) % 0x100) as u8, ((v / 0x100) % 0x100) as u8, (
        v % 0x100) as u8]
    }

    /// Force the state.
    pub fn set_seed(&mut self, v: u32)
        ensures
            final(self).0 == v,
    {
        self.0 = v
    }
}

/// The product of two below-2^32 factors stays below 2^64.
proof fn lemma_mul_u32_bound(a: u64, b: u64)
    requires
        a < 0x1_0000_0000,
        b < 0x1_0000_0000,
    ensures
        (a as int) * (b as int) < 0x1_0000_0000_0000_0000,
        (a as int) * (b as int) >= 0,
{
    assert((a as int) * (b as int) < 0x1_0000_0000_0000_0000 && (a as int) * (b as int) >= 0)
        by (nonlinear_arith)
        requires
            a < 0x1_0000_0000,
            b < 0x1_0000_0000,
    ;
}

/// The per-draw state update, computed.
fn step(s: u32) -> (r: u32)
    ensures
        r == spec_rand_step(s),
{
    ((s as u64 + 0x78BD642Fu64) % 0x1_0000_0000) as u32
}

impl RandMut {
    /// A shared generator at state zero.
    pub fn empty() -> (r: RandMut)
        ensures
            r.0.0 == 0,
    {
        RandMut(Rand(0))
    }

    /// A shared generator at the given state.
    pub fn with_seed(seed: u32) -> (r: RandMut)
        ensures
            r.0.0 == seed,
    {
        RandMut(Rand(seed))
    }

    /// A fresh shared generator, starting at zero.
    pub fn new() -> (r: RandMut)
        ensures
            r.0.0 == 0,
    {
        RandMut(Rand(0))
    }

    /// Stir the state.
    pub fn reseed(&mut self)
        ensures
            final(self).0.0 == spec_rand_step(old(self).0.0),
    {
        self.0.reseed()
    }

    /// Draw one word.
    pub fn rand_u32(&mut self) -> (r: u32)
        ensures
            final(self).0.0 == spec_rand_step(old(self).0.0),
            r == spec_rand_out(final(self).0.0),
    {
        self.0.rand_u32()
    }

    /// Draw four bytes, big-endian.
    pub fn rand(&mut self) -> (r: [u8; 4])
        ensures
            final(self).0.0 == spec_rand_step(old(self).0.0),
    {
        self.0.rand()
    }

    /// Force the state.
    pub fn set_seed(&mut self, v: u32)
        ensures
            final(self).0.0 == v,
    {
        self.0.set_seed(v);
    }
}

} // verus!
