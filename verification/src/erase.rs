//! Erasure: a slot stored in a fixed shape that names no span.
//!
//! The storage holds the slot as it is: what is taken out, or seen behind a reference,
//! is what was stored. A slot whose views are instances of a family at some span is
//! cast to the span that the storage is declared with before it is stored
//! ([`lengthen_slot`](crate::slot::lengthen_slot)), and to the span at hand after it
//! is taken out ([`shorten_slot`](crate::slot::shorten_slot)). Dropping the storage
//! drops the slot, and with it what the slot holds in the state that it is in.
use crate::slot::SelfRefSlot;
use vstd::prelude::*;

verus! {

/// A default choice for [`EraseSelfRef`]: the slot is stored inline.
pub type DefaultErase<N, S, E> = LifetimeErase<N, S, E>;

/// A storage for slots that names no span.
pub trait EraseSelfRef<N, S, E>: Sized {
    /// The slot that is stored.
    spec fn stored(&self) -> SelfRefSlot<N, S, E>;

    /// Two storages that hold the same slot are the same.
    proof fn stored_is_all(a: &Self, b: &Self)
        requires
            a.stored() == b.stored(),
        ensures
            a == b,
    ;

    /// Stores the slot.
    fn erase(slot: SelfRefSlot<N, S, E>) -> (erased: Self)
        ensures
            erased.stored() == slot,
    ;

    /// Takes the slot out.
    fn unerase(slot: Self) -> (unerased: SelfRefSlot<N, S, E>)
        ensures
            unerased == slot.stored(),
    ;

    /// The stored slot, to read.
    fn unerase_ref(slot: &Self) -> (unerased: &SelfRefSlot<N, S, E>)
        ensures
            *unerased == slot.stored(),
    ;

    /// The stored slot, to read and to write.
    fn unerase_mut(slot: &mut Self) -> (unerased: &mut SelfRefSlot<N, S, E>)
        ensures
            *unerased == old(slot).stored(),
            *final(unerased) == final(slot).stored(),
    ;
}

/// A slot stored inline, in a type that names no span.
pub struct LifetimeErase<N, S, E> {
    slot: SelfRefSlot<N, S, E>,
}

impl<N, S, E> EraseSelfRef<N, S, E> for LifetimeErase<N, S, E> {
    closed spec fn stored(&self) -> SelfRefSlot<N, S, E> {
        self.slot
    }

    proof fn stored_is_all(a: &Self, b: &Self) {
    }

    fn erase(slot: SelfRefSlot<N, S, E>) -> (erased: Self) {
        LifetimeErase { slot }
    }

    fn unerase(slot: Self) -> (unerased: SelfRefSlot<N, S, E>) {
        slot.slot
    }

    fn unerase_ref(slot: &Self) -> (unerased: &SelfRefSlot<N, S, E>) {
        &slot.slot
    }

    fn unerase_mut(slot: &mut Self) -> (unerased: &mut SelfRefSlot<N, S, E>) {
        &mut slot.slot
    }
}

/// Taking out what was stored gives the slot that was stored.
pub proof fn unerase_undoes_erase<N, S, E, X: EraseSelfRef<N, S, E>>(
    slot: SelfRefSlot<N, S, E>,
    erased: X,
    unerased: SelfRefSlot<N, S, E>,
)
    requires
        call_ensures(X::erase, (slot,), erased),
        call_ensures(X::unerase, (erased,), unerased),
    ensures
        unerased == slot,
{
}

/// Storing what was taken out gives the storage that it was taken out of.
pub proof fn erase_undoes_unerase<N, S, E, X: EraseSelfRef<N, S, E>>(
    erased: X,
    unerased: SelfRefSlot<N, S, E>,
    again: X,
)
    requires
        call_ensures(X::unerase, (erased,), unerased),
        call_ensures(X::erase, (unerased,), again),
    ensures
        again == erased,
{
    X::stored_is_all(&again, &erased);
}

/// What is read behind a reference is what taking the slot out would give.
pub proof fn unerase_ref_agrees_with_unerase<N, S, E, X: EraseSelfRef<N, S, E>>(
    erased: X,
    seen: &SelfRefSlot<N, S, E>,
    unerased: SelfRefSlot<N, S, E>,
)
    requires
        call_ensures(X::unerase_ref, (&erased,), seen),
        call_ensures(X::unerase, (erased,), unerased),
    ensures
        *seen == unerased,
{
}

} // verus!
