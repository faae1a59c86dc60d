//! Lifetime families and the casts that change the span of their instances.
//!
//! A family is a type that stands for one type at each lifetime; the lifetime is the
//! span for which an instance is good. A covariant family casts an instance to a
//! shorter span, a contravariant one to a longer span. A cast never changes the
//! value: the contracts say that what comes out is what went in.
use vstd::prelude::*;

verus! {

trait Sealed {

}

/// The pair of reference types whose well-formedness says that `'varying` lies
/// between the lower and the upper bound of a family.
#[allow(private_bounds)]
pub trait ImplyBound: Sealed {

}

impl<'varying, 'lower, 'upper> Sealed for (&'varying &'upper (), &'lower &'varying ()) {

}

impl<'varying, 'lower, 'upper> ImplyBound for (&'varying &'upper (), &'lower &'varying ()) {

}

/// A family of types indexed by a lifetime, instantiated at `'varying`.
pub trait WithLifetime<
    'varying,
    'lower,
    'upper,
    __ImplyBound: ImplyBound = (&'varying &'upper (), &'lower &'varying ()),
> {
    /// The instance of the family at `'varying`.
    type Is: ?Sized;
}

/// The instance of the family `T` at `'varying`.
pub type Varying<'varying, 'lower, 'upper, T> = <T as WithLifetime<'varying, 'lower, 'upper>>::Is;

/// A family that has an instance at every lifetime between `'lower` and `'upper`.
pub trait LifetimeFamily<'lower, 'upper>: for <'varying>WithLifetime<'varying, 'lower, 'upper> {

}

impl<'lower, 'upper, T> LifetimeFamily<'lower, 'upper> for T where
    T: ?Sized + for <'varying>WithLifetime<'varying, 'lower, 'upper>,
 {

}

/// A family whose instances can be cast to a shorter span.
pub trait CovariantFamily<'lower, 'upper>: LifetimeFamily<'lower, 'upper> {
    /// Checks, where a family has something to check, that the casts are in order.
    fn covariant_assertions() {
    }

    /// The same value at a shorter span.
    fn shorten<'l, 's>(long: Varying<'l, 'lower, 'upper, Self>) -> (short: Varying<
        's,
        'lower,
        'upper,
        Self,
    >) where
        'upper: 'l,
        'l: 's,
        's: 'lower,
        for <'varying>Varying<'varying, 'lower, 'upper, Self>: Sized,

        ensures
            short == long,
    ;

    /// The same value behind a reference, at a shorter span.
    fn shorten_ref<'l, 's, 'r>(long: &'r Varying<'l, 'lower, 'upper, Self>) -> (short: &'r Varying<
        's,
        'lower,
        'upper,
        Self,
    >) where
        'upper: 'l,
        'l: 's,
        's: 'lower,
        Varying<'l, 'lower, 'upper, Self>: 'r,
        Varying<'s, 'lower, 'upper, Self>: 'r,

        ensures
            short == long,
    ;
}

/// A family whose instances can be cast to a longer span.
pub trait ContravariantFamily<'lower, 'upper>: LifetimeFamily<'lower, 'upper> {
    /// Checks, where a family has something to check, that the casts are in order.
    fn contravariant_assertions() {
    }

    /// The same value at a longer span.
    fn lengthen<'s, 'l>(short: Varying<'s, 'lower, 'upper, Self>) -> (long: Varying<
        'l,
        'lower,
        'upper,
        Self,
    >) where
        'upper: 'l,
        'l: 's,
        's: 'lower,
        for <'varying>Varying<'varying, 'lower, 'upper, Self>: Sized,

        ensures
            long == short,
    ;

    /// The same value behind a reference, at a longer span.
    fn lengthen_ref<'s, 'l, 'r>(short: &'r Varying<'s, 'lower, 'upper, Self>) -> (long: &'r Varying<
        'l,
        'lower,
        'upper,
        Self,
    >) where
        'upper: 'l,
        'l: 's,
        's: 'lower,
        Varying<'s, 'lower, 'upper, Self>: 'r,
        Varying<'l, 'lower, 'upper, Self>: 'r,

        ensures
            long == short,
    ;
}

/// A family whose instances can be cast both ways: the span is not used.
pub trait BivariantFamily<'lower, 'upper>: CovariantFamily<'lower, 'upper> + ContravariantFamily<
    'lower,
    'upper,
> {

}

impl<'lower, 'upper, T> BivariantFamily<'lower, 'upper> for T where
    T: ?Sized + CovariantFamily<'lower, 'upper> + ContravariantFamily<'lower, 'upper>,
 {

}

impl<'varying, 'lower, 'upper> WithLifetime<'varying, 'lower, 'upper> for u8 {
    type Is = u8;
}

impl<'lower, 'upper> CovariantFamily<'lower, 'upper> for u8 {
    fn shorten<'l, 's>(long: Varying<'l, 'lower, 'upper, Self>) -> (short: Varying<
        's,
        'lower,
        'upper,
        Self,
    >) where
        'upper: 'l,
        'l: 's,
        's: 'lower,
        for <'varying>Varying<'varying, 'lower, 'upper, Self>: Sized,
     {
        long
    }

    fn shorten_ref<'l, 's, 'r>(long: &'r Varying<'l, 'lower, 'upper, Self>) -> (short: &'r Varying<
        's,
        'lower,
        'upper,
        Self,
    >) where
        'upper: 'l,
        'l: 's,
        's: 'lower,
        Varying<'l, 'lower, 'upper, Self>: 'r,
        Varying<'s, 'lower, 'upper, Self>: 'r,
     {
        long
    }
}

impl<'lower, 'upper> ContravariantFamily<'lower, 'upper> for u8 {
    fn lengthen<'s, 'l>(short: Varying<'s, 'lower, 'upper, Self>) -> (long: Varying<
        'l,
        'lower,
        'upper,
        Self,
    >) where
        'upper: 'l,
        'l: 's,
        's: 'lower,
        for <'varying>Varying<'varying, 'lower, 'upper, Self>: Sized,
     {
        short
    }

    fn lengthen_ref<'s, 'l, 'r>(short: &'r Varying<'s, 'lower, 'upper, Self>) -> (long: &'r Varying<
        'l,
        'lower,
        'upper,
        Self,
    >) where
        'upper: 'l,
        'l: 's,
        's: 'lower,
        Varying<'s, 'lower, 'upper, Self>: 'r,
        Varying<'l, 'lower, 'upper, Self>: 'r,
     {
        short
    }
}

impl<'a, 'varying, 'lower, 'upper, T> WithLifetime<'varying, 'lower, 'upper> for &'a T where
    T: ?Sized + WithLifetime<'varying, 'lower, 'upper>,
    T::Is: 'a,
 {
    type Is = &'a T::Is;
}

/// Takes a value whose type is a family between `'lower` and `'upper`. The call
/// is accepted for no other type; the value is dropped.
pub fn test<'lower, 'upper, T: LifetimeFamily<'lower, 'upper>>(_t: T) {
}

/// Shows that a byte, and a reference to a byte, are values of families.
pub fn test_driver() {
    test::<u8>(0);
    let foo: &'static u8 = &0;
    test::<&'static u8>(foo);
}

} // verus!
