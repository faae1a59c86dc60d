//! Payloads for slots that never get into one of their states.
use crate::family::{ContravariantFamily, CovariantFamily, Varying, WithLifetime};
use std::convert::Infallible;
use vstd::prelude::*;

verus! {

/// What a slot holds without a view, where it never is without one. It has no value.
#[derive(Debug, Clone, Copy, PartialEq, Eq, PartialOrd, Ord, Hash)]
pub enum NeverNoRef {
    /// Holds what has no value.
    Never(Infallible),
}

/// The family of shared views of a slot that never shares. Its instances have no
/// value.
#[derive(Debug, Clone, Copy, PartialEq, Eq, PartialOrd, Ord, Hash)]
pub enum NeverSharedRef {
    /// Holds what has no value.
    Never(Infallible),
}

/// The family of exclusive views of a slot that never lends exclusively. Its
/// instances have no value.
#[derive(Debug, Clone, Copy, PartialEq, Eq, PartialOrd, Ord, Hash)]
pub enum NeverExclusiveRef {
    /// Holds what has no value.
    Never(Infallible),
}

impl<'varying, 'lower, 'upper> WithLifetime<'varying, 'lower, 'upper> for NeverSharedRef {
    type Is = Infallible;
}

impl<'lower, 'upper> CovariantFamily<'lower, 'upper> for NeverSharedRef {
    fn covariant_assertions() {
    }

    fn shorten<'l, 's>(long: Varying<'l, 'lower, 'upper, Self>) -> (short: Varying<
        's,
        'lower,
        'upper,
        Self,
    >) where
        'upper: 'l,
        'l: 's,
        's: 'lower,
        for <'varying>Varying<'varying, 'lower, 'upper, Self>: Sized,
     {
        long
    }

    fn shorten_ref<'l, 's, 'r>(long: &'r Varying<'l, 'lower, 'upper, Self>) -> (short: &'r Varying<
        's,
        'lower,
        'upper,
        Self,
    >) where
        'upper: 'l,
        'l: 's,
        's: 'lower,
        Varying<'l, 'lower, 'upper, Self>: 'r,
        Varying<'s, 'lower, 'upper, Self>: 'r,
     {
        long
    }
}

impl<'lower, 'upper> ContravariantFamily<'lower, 'upper> for NeverSharedRef {
    fn contravariant_assertions() {
    }

    fn lengthen<'s, 'l>(short: Varying<'s, 'lower, 'upper, Self>) -> (long: Varying<
        'l,
        'lower,
        'upper,
        Self,
    >) where
        'upper: 'l,
        'l: 's,
        's: 'lower,
        for <'varying>Varying<'varying, 'lower, 'upper, Self>: Sized,
     {
        short
    }

    fn lengthen_ref<'s, 'l, 'r>(short: &'r Varying<'s, 'lower, 'upper, Self>) -> (long: &'r Varying<
        'l,
        'lower,
        'upper,
        Self,
    >) where
        'upper: 'l,
        'l: 's,
        's: 'lower,
        Varying<'s, 'lower, 'upper, Self>: 'r,
        Varying<'l, 'lower, 'upper, Self>: 'r,
     {
        short
    }
}

impl<'varying, 'lower, 'upper> WithLifetime<'varying, 'lower, 'upper> for NeverExclusiveRef {
    type Is = Infallible;
}

impl<'lower, 'upper> CovariantFamily<'lower, 'upper> for NeverExclusiveRef {
    fn covariant_assertions() {
    }

    fn shorten<'l, 's>(long: Varying<'l, 'lower, 'upper, Self>) -> (short: Varying<
        's,
        'lower,
        'upper,
        Self,
    >) where
        'upper: 'l,
        'l: 's,
        's: 'lower,
        for <'varying>Varying<'varying, 'lower, 'upper, Self>: Sized,
     {
        long
    }

    fn shorten_ref<'l, 's, 'r>(long: &'r Varying<'l, 'lower, 'upper, Self>) -> (short: &'r Varying<
        's,
        'lower,
        'upper,
        Self,
    >) where
        'upper: 'l,
        'l: 's,
        's: 'lower,
        Varying<'l, 'lower, 'upper, Self>: 'r,
        Varying<'s, 'lower, 'upper, Self>: 'r,
     {
        long
    }
}

impl<'lower, 'upper> ContravariantFamily<'lower, 'upper> for NeverExclusiveRef {
    fn contravariant_assertions() {
    }

    fn lengthen<'s, 'l>(short: Varying<'s, 'lower, 'upper, Self>) -> (long: Varying<
        'l,
        'lower,
        'upper,
        Self,
    >) where
        'upper: 'l,
        'l: 's,
        's: 'lower,
        for <'varying>Varying<'varying, 'lower, 'upper, Self>: Sized,
     {
        short
    }

    fn lengthen_ref<'s, 'l, 'r>(short: &'r Varying<'s, 'lower, 'upper, Self>) -> (long: &'r Varying<
        'l,
        'lower,
        'upper,
        Self,
    >) where
        'upper: 'l,
        'l: 's,
        's: 'lower,
        Varying<'s, 'lower, 'upper, Self>: 'r,
        Varying<'l, 'lower, 'upper, Self>: 'r,
     {
        short
    }
}

} // verus!
