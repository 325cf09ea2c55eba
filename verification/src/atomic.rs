//! Mutual exclusion for data shared between cores and interrupt contexts.
//!
//! A [`Section`] witnesses that the caller holds the one cross-core claim;
//! [`with`] hands a section to a closure.  On the silicon the claim is a
//! hardware spinlock taken with interrupts masked; taking and freeing it
//! moves no data, so the model's sections carry nothing and a [`Mutex`] is
//! a plain owner whose access rules are the borrow checker's.

use vstd::prelude::*;

verus! {

/// The claim token the locking primitive hands around: the prior
/// interrupt state, or the sentinel for a claim already held.
#[derive(Clone, Copy, Debug, PartialEq, Eq, Structural)]
pub struct Lock(pub u8);

/// Witness of a held cross-core claim.
#[derive(Clone, Copy, Debug, PartialEq, Eq, Structural)]
pub struct Section;

/// Data guarded by the cross-core claim.
pub struct Mutex<T> {
    /// The guarded value.
    pub v: T,
}

impl<T> Mutex<T> {
    /// Guard a value.
    pub fn new(v: T) -> (r: Mutex<T>)
        ensures
            r.v == v,
    {
        Mutex { v }
    }

    /// Take the value back out.
    pub fn into_inner(self) -> (r: T)
        ensures
            r == self.v,
    {
        self.v
    }

    /// Exclusive access without a section: exclusivity is already proven
    /// by the exclusive reference.
    pub fn get_mut(&mut self) -> (r: &mut T)
        ensures
            *r == old(self).v,
            final(self).v == *final(r),
    {
        &mut self.v
    }

    /// Shared access under a held section.
    pub fn borrow(&self, _s: Section) -> (r: &T)
        ensures
            *r == self.v,
    {
        &self.v
    }

    /// Swap the guarded value under a held section.
    pub fn replace(&mut self, _s: Section, t: T) -> (r: T)
        ensures
            r == old(self).v,
            final(self).v == t,
    {
        let mut t = t;
        core::mem::swap(&mut self.v, &mut t);
        t
    }

    /// Shared access under a held section.
    pub fn borrow_ref(&self, _s: Section) -> (r: &T)
        ensures
            *r == self.v,
    {
        &self.v
    }

    /// Exclusive access under a held section.
    pub fn borrow_ref_mut(&mut self, _s: Section) -> (r: &mut T)
        ensures
            *r == old(self).v,
            final(self).v == *final(r),
    {
        &mut self.v
    }

    /// Rebuild the guarded value from the old one, returning the old one.
    pub fn replace_with<F: FnOnce(&T) -> T>(&mut self, _s: Section, f: F) -> (r: T)
        requires
            forall|t: &T| f.requires((t,)),
        ensures
            r == old(self).v,
            f.ensures((&old(self).v,), final(self).v),
    {
        let mut t: T = f(&self.v);
        core::mem::swap(&mut self.v, &mut t);
        t
    }
}

impl<T: Default> Mutex<T> {
    /// Take the guarded value, leaving a default one.
    pub fn take(&mut self, _s: Section) -> (r: T)
        ensures
            r == old(self).v,
    {
        let mut t: T = T::default();
        core::mem::swap(&mut self.v, &mut t);
        t
    }
}

/// Run a closure while holding the cross-core claim.
pub fn with<T, F: FnOnce(Section) -> T>(func: F) -> (r: T)
    requires
        forall|s: Section| func.requires((s,)),
    ensures
        exists|s: Section| func.ensures((s,), r),
{
    func(Section)
}

} // verus!
