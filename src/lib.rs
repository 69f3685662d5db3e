//! Returning a value of a caller-chosen type through an object-safe interface.
//!
//! A [`Slot`] is a single-value cell handed to a callback. The callback fills it and returns
//! the [`Proof`] that the fill produced; the caller presents that proof to
//! [`Slot::unlock`] to take the value out. Each slot is branded with an invariant lifetime
//! introduced by [`Slot::with`], so a proof minted by one slot is a type error at any other
//! slot. On top of that, the contracts below let the verifier check that a slot is only
//! unlocked once it has been filled.
mod container;
mod slot;

pub use container::{Container, Raw};
pub use slot::{
    lemma_fill_then_unlock, lemma_refill_then_unlock, LeakySlot, Proof, SafeSlot, Slot,
};
