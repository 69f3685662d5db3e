//! Branded slots and the proofs that unlock them.
use crate::container::{Container, Raw};
use std::marker::PhantomData;
use vstd::prelude::*;

verus! {

/// A zero-size marker that makes `'id` invariant, so that one brand can be neither widened
/// nor narrowed into another.
struct Brand<'id> {
    marker: PhantomData<&'id mut &'id ()>,
}

/// A cell, branded with `'id`, that a callback fills and its caller later unlocks.
///
/// Slots are only made by [`Slot::with`], which gives each one a fresh brand.
pub struct Slot<'id, T, C> where C: Container<T> {
    contents: C,
    value: PhantomData<T>,
    brand: Brand<'id>,
}

/// Evidence, branded like the slot it came from, that the slot was filled.
///
/// Only [`Slot::unlock`] of a slot with the same brand accepts it.
pub struct Proof<'id> {
    brand: Brand<'id>,
}

impl<'id> Brand<'id> {
    fn new() -> (r: Brand<'id>) {
        Brand { marker: PhantomData }
    }
}

impl<'id, T, C> View for Slot<'id, T, C> where C: Container<T> {
    type V = Option<T>;

    /// The value the slot holds: `None` until it is filled.
    closed spec fn view(&self) -> Option<T> {
        self.contents.stored()
    }
}

impl<T, C> Slot<'_, T, C> where C: Container<T> {
    /// Makes an empty slot under a fresh brand and passes it to `f`, returning what `f`
    /// returns.
    ///
    /// `f` must accept every empty slot, whatever its brand: it cannot choose the brand, and
    /// nothing outside this call shares it.
    pub fn with<R, F>(f: F) -> (r: R) where F: for <'id> FnOnce(Slot<'id, T, C>) -> R
        requires
            forall|s: Slot<T, C>| s@ is None ==> f.requires((s,)),
        ensures
            exists|s: Slot<T, C>| s@ is None && f.ensures((s,), r),
    {
        let slot = Slot { contents: C::empty(), value: PhantomData, brand: Brand::new() };
        let ghost made = slot;
        assert(slot@ is None);
        let r = f(slot);
        assert(f.ensures((made,), r));
        r
    }
}

impl<'id, T, C> Slot<'id, T, C> where C: Container<T> {
    /// Stores `val`, returning a proof for this slot's brand. Whatever the slot held before
    /// is replaced according to the storage strategy `C`.
    pub fn fill(&mut self, val: T) -> (p: Proof<'id>)
        ensures
            final(self)@ == Some(val),
    {
        self.contents.fill(val);
        Proof { brand: Brand::new() }
    }

    /// Consumes a filled slot and returns the value stored last.
    ///
    /// The proof must come from a `fill` on this very slot: one from any other slot has
    /// another brand and is refused by the type checker.
    pub fn unlock(self, _proof: Proof<'id>) -> (r: T)
        requires
            self@ is Some,
        ensures
            r == self@->0,
    {
        self.contents.unpack()
    }
}

/// A slot with the checked strategy: presence is tagged at run time, and a replaced or
/// abandoned value is dropped.
pub type SafeSlot<'id, T> = Slot<'id, T, Option<T>>;

/// A slot with the unchecked strategy: no larger than `T`, but a replaced or abandoned value
/// is leaked.
pub type LeakySlot<'id, T> = Slot<'id, T, Raw<T>>;

/// Round trip: whatever the storage strategy, a slot that a `fill` with `v` left behind
/// unlocks to exactly `v`.
pub proof fn lemma_fill_then_unlock<T, C: Container<T>>(filled: Slot<T, C>, v: T, r: T)
    requires
        filled@ == Some(v),
        r == filled@->0,
    ensures
        r == v,
{
}

/// The last fill wins: a checked slot filled with `v1` and then with `v2` unlocks to `v2`.
pub proof fn lemma_refill_then_unlock<T>(once: SafeSlot<T>, twice: SafeSlot<T>, v1: T, v2: T, r: T)
    requires
        once@ == Some(v1),
        twice@ == Some(v2),
        r == twice@->0,
    ensures
        r == v2,
{
}

} // verus!
