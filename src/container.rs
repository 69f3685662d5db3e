//! Storage strategies: how a slot physically holds its single value.
use std::mem::ManuallyDrop;
use vstd::prelude::*;

verus! {

/// Storage for at most one value of type `T`.
///
/// A container starts empty; `fill` stores a value, replacing whatever was there according to
/// the strategy's own policy; `unpack` consumes a filled container and hands back the value
/// stored last.
pub trait Container<T>: Sized {
    /// The value the container currently holds, if any.
    spec fn stored(&self) -> Option<T>;

    /// A container holding nothing.
    fn empty() -> (r: Self)
        ensures
            r.stored() is None,
    ;

    /// Stores `val`, so that the container holds exactly `val`.
    fn fill(&mut self, val: T)
        ensures
            final(self).stored() == Some(val),
    ;

    /// Takes the stored value out of a filled container.
    fn unpack(self) -> (r: T)
        requires
            self.stored() is Some,
        ensures
            r == self.stored()->0,
    ;
}

/// The checked strategy: presence is tracked by the `Option` tag at run time.
///
/// Filling a filled container drops the previous value, and dropping a filled container
/// drops its value, so nothing leaks.
impl<T> Container<T> for Option<T> {
    open spec fn stored(&self) -> Option<T> {
        *self
    }

    fn empty() -> (r: Self) {
        None
    }

    fn fill(&mut self, val: T) {
        *self = Some(val);
    }

    fn unpack(self) -> (r: T) {
        self.unwrap()
    }
}

/// The unchecked strategy: exactly the size of `T`, with no run-time tag.
///
/// Whether a value was stored is tracked in ghost state only, which the verifier uses to
/// reject an `unpack` before a `fill`; at run time nothing is checked. An empty container
/// holds `T::default()` as a placeholder. The value is never dropped by the container: a
/// second `fill`, or dropping a filled container without unpacking it, leaks the value
/// (its destructor does not run).
pub struct Raw<T> {
    cell: ManuallyDrop<T>,
    filled: Ghost<bool>,
}

impl<T: Default> Container<T> for Raw<T> {
    closed spec fn stored(&self) -> Option<T> {
        if self.filled@ {
            Some(self.cell@)
        } else {
            None
        }
    }

    fn empty() -> (r: Self) {
        Raw { cell: ManuallyDrop::new(T::default()), filled: Ghost(false) }
    }

    fn fill(&mut self, val: T) {
        self.cell = ManuallyDrop::new(val);
        self.filled = Ghost(true);
    }

    fn unpack(self) -> (r: T) {
        ManuallyDrop::into_inner(self.cell)
    }
}

} // verus!
