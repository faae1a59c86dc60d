//! The borrow slot: what a container holds of its owned data at one moment.
//!
//! A slot is in exactly one of three states. It starts without a view; a shared or an
//! exclusive view is packaged from there, and giving the view up leads back there.
//! No step leads from a shared view to an exclusive one or back.
//!
//! The span for which a view is good is named in the type of what the slot holds with
//! that view: where that type is the instance of a family, [`shorten_slot`] and
//! [`lengthen_slot`] cast the slot to another span.
use crate::family::{ContravariantFamily, CovariantFamily, Varying};
use vstd::prelude::*;

verus! {

/// The borrow state of a container, with what it holds in that state.
#[derive(Debug)]
pub enum SelfRefSlot<N, S, E> {
    /// The owned data, with no view of it.
    NoRef(N),
    /// A read-only view of the owned data.
    SharedRef(S),
    /// A read/write view of the owned data.
    ExclusiveRef(E),
}

/// The three states of a slot, without what it holds.
#[derive(Clone, Copy, Debug, PartialEq, Eq, Structural)]
pub enum SlotState {
    /// No view.
    NoRef,
    /// A read-only view.
    SharedRef,
    /// A read/write view.
    ExclusiveRef,
}

impl SlotState {
    /// Whether one step leads from this state to `next`: a view is taken where there
    /// is none, or the view that there is is given up.
    pub open spec fn steps_to(self, next: SlotState) -> bool {
        (self == SlotState::NoRef) != (next == SlotState::NoRef)
    }
}

impl<N, S, E> SelfRefSlot<N, S, E> {
    /// The state that the slot is in.
    pub open spec fn spec_state(&self) -> SlotState {
        match self {
            SelfRefSlot::NoRef(_) => SlotState::NoRef,
            SelfRefSlot::SharedRef(_) => SlotState::SharedRef,
            SelfRefSlot::ExclusiveRef(_) => SlotState::ExclusiveRef,
        }
    }

    /// The state that the slot is in.
    #[verifier::when_used_as_spec(spec_state)]
    pub fn state(&self) -> (state: SlotState)
        ensures
            state == self.spec_state(),
    {
        match self {
            SelfRefSlot::NoRef(_) => SlotState::NoRef,
            SelfRefSlot::SharedRef(_) => SlotState::SharedRef,
            SelfRefSlot::ExclusiveRef(_) => SlotState::ExclusiveRef,
        }
    }

    /// Packages a read-only view: `package` gets what the slot held without a view
    /// and gives what it holds with one.
    pub fn share<F: FnOnce(N) -> S>(self, package: F) -> (next: Self)
        requires
            self is NoRef,
            package.requires((self->NoRef_0,)),
        ensures
            next is SharedRef,
            package.ensures((self->NoRef_0,), next->SharedRef_0),
            self.state().steps_to(next.state()),
    {
        match self {
            SelfRefSlot::NoRef(owned) => SelfRefSlot::SharedRef(package(owned)),
            other => other,
        }
    }

    /// Packages a read/write view: `package` gets what the slot held without a view
    /// and gives what it holds with one.
    pub fn borrow_exclusively<F: FnOnce(N) -> E>(self, package: F) -> (next: Self)
        requires
            self is NoRef,
            package.requires((self->NoRef_0,)),
        ensures
            next is ExclusiveRef,
            package.ensures((self->NoRef_0,), next->ExclusiveRef_0),
            self.state().steps_to(next.state()),
    {
        match self {
            SelfRefSlot::NoRef(owned) => SelfRefSlot::ExclusiveRef(package(owned)),
            other => other,
        }
    }

    /// Gives up the read-only view: `end` gets what the slot held with the view and
    /// gives what it holds without one.
    pub fn release_shared<F: FnOnce(S) -> N>(self, end: F) -> (next: Self)
        requires
            self is SharedRef,
            end.requires((self->SharedRef_0,)),
        ensures
            next is NoRef,
            end.ensures((self->SharedRef_0,), next->NoRef_0),
            self.state().steps_to(next.state()),
    {
        match self {
            SelfRefSlot::SharedRef(view) => SelfRefSlot::NoRef(end(view)),
            other => other,
        }
    }

    /// Gives up the read/write view: `end` gets what the slot held with the view and
    /// gives what it holds without one.
    pub fn release_exclusive<F: FnOnce(E) -> N>(self, end: F) -> (next: Self)
        requires
            self is ExclusiveRef,
            end.requires((self->ExclusiveRef_0,)),
        ensures
            next is NoRef,
            end.ensures((self->ExclusiveRef_0,), next->NoRef_0),
            self.state().steps_to(next.state()),
    {
        match self {
            SelfRefSlot::ExclusiveRef(view) => SelfRefSlot::NoRef(end(view)),
            other => other,
        }
    }
}

/// A slot is in exactly one of its three states: it holds a shared view, or an
/// exclusive view, or none, and never two of them.
pub proof fn slot_is_in_one_state<N, S, E>(slot: SelfRefSlot<N, S, E>)
    ensures
        slot is NoRef || slot is SharedRef || slot is ExclusiveRef,
        !(slot is NoRef && slot is SharedRef),
        !(slot is NoRef && slot is ExclusiveRef),
        !(slot is SharedRef && slot is ExclusiveRef),
        slot is NoRef <==> slot.state() == SlotState::NoRef,
        slot is SharedRef <==> slot.state() == SlotState::SharedRef,
        slot is ExclusiveRef <==> slot.state() == SlotState::ExclusiveRef,
{
}

/// The steps of a slot are four: from no view to either view, and from either view
/// to none. A shared view never becomes an exclusive one in one step, nor the other
/// way round.
pub proof fn steps_are_four(from: SlotState, to: SlotState)
    ensures
        from.steps_to(to) <==> {
            ||| (from == SlotState::NoRef && to == SlotState::SharedRef)
            ||| (from == SlotState::NoRef && to == SlotState::ExclusiveRef)
            ||| (from == SlotState::SharedRef && to == SlotState::NoRef)
            ||| (from == SlotState::ExclusiveRef && to == SlotState::NoRef)
        },
        !SlotState::SharedRef.steps_to(SlotState::ExclusiveRef),
        !SlotState::ExclusiveRef.steps_to(SlotState::SharedRef),
{
}

impl<N: Clone, S: Clone, E: Clone> Clone for SelfRefSlot<N, S, E> {
    /// The clone is in the same state and holds a clone of what the slot holds.
    fn clone(&self) -> (res: Self)
        ensures
            match (*self, res) {
                (SelfRefSlot::NoRef(a), SelfRefSlot::NoRef(b)) => cloned::<N>(a, b),
                (SelfRefSlot::SharedRef(a), SelfRefSlot::SharedRef(b)) => cloned::<S>(a, b),
                (SelfRefSlot::ExclusiveRef(a), SelfRefSlot::ExclusiveRef(b)) => cloned::<E>(a, b),
                _ => false,
            },
    {
        match self {
            SelfRefSlot::NoRef(no_ref) => SelfRefSlot::NoRef(no_ref.clone()),
            SelfRefSlot::SharedRef(shared_ref) => SelfRefSlot::SharedRef(shared_ref.clone()),
            SelfRefSlot::ExclusiveRef(exclusive_ref) => SelfRefSlot::ExclusiveRef(
                exclusive_ref.clone(),
            ),
        }
    }
}

impl<N: Copy, S: Copy, E: Copy> Copy for SelfRefSlot<N, S, E> {

}

/// Casts the views that a slot may hold to a shorter span. The slot is in the same
/// state and holds the same values as before.
pub fn shorten_slot<'l, 's, 'lower, 'upper, N, S, E>(
    long: SelfRefSlot<N, Varying<'l, 'lower, 'upper, S>, Varying<'l, 'lower, 'upper, E>>,
) -> (short: SelfRefSlot<N, Varying<'s, 'lower, 'upper, S>, Varying<'s, 'lower, 'upper, E>>) where
    S: CovariantFamily<'lower, 'upper>,
    E: CovariantFamily<'lower, 'upper>,
    'upper: 'l,
    'l: 's,
    's: 'lower,
    for <'varying>Varying<'varying, 'lower, 'upper, S>: Sized,
    for <'varying>Varying<'varying, 'lower, 'upper, E>: Sized,

    ensures
        short == long,
{
    match long {
        SelfRefSlot::NoRef(owned) => SelfRefSlot::NoRef(owned),
        SelfRefSlot::SharedRef(view) => SelfRefSlot::SharedRef(S::shorten(view)),
        SelfRefSlot::ExclusiveRef(view) => SelfRefSlot::ExclusiveRef(E::shorten(view)),
    }
}

/// Casts the views that a slot may hold to a longer span. The slot is in the same
/// state and holds the same values as before.
pub fn lengthen_slot<'s, 'l, 'lower, 'upper, N, S, E>(
    short: SelfRefSlot<N, Varying<'s, 'lower, 'upper, S>, Varying<'s, 'lower, 'upper, E>>,
) -> (long: SelfRefSlot<N, Varying<'l, 'lower, 'upper, S>, Varying<'l, 'lower, 'upper, E>>) where
    S: ContravariantFamily<'lower, 'upper>,
    E: ContravariantFamily<'lower, 'upper>,
    'upper: 'l,
    'l: 's,
    's: 'lower,
    for <'varying>Varying<'varying, 'lower, 'upper, S>: Sized,
    for <'varying>Varying<'varying, 'lower, 'upper, E>: Sized,

    ensures
        long == short,
{
    match short {
        SelfRefSlot::NoRef(owned) => SelfRefSlot::NoRef(owned),
        SelfRefSlot::SharedRef(view) => SelfRefSlot::SharedRef(S::lengthen(view)),
        SelfRefSlot::ExclusiveRef(view) => SelfRefSlot::ExclusiveRef(E::lengthen(view)),
    }
}

} // verus!
