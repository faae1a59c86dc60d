//! Families whose instances can be the views of a self-referential container.
use crate::family::{CovariantFamily, Varying};
use vstd::prelude::*;

verus! {

/// A family whose instance at `'varying` can be held as a view: it has a size, and
/// it can be cast to any shorter span.
pub trait SelfRef<'varying, 'upper> where
    Self: Sized + for <'lower>CovariantFamily<'lower, 'upper>,
    for <'lower>Varying<'varying, 'lower, 'upper, Self>: Sized,
 {

}

impl<'varying, 'upper, T> SelfRef<'varying, 'upper> for T where
    T: for <'lower>CovariantFamily<'lower, 'upper>,
    for <'lower>Varying<'varying, 'lower, 'upper, Self>: Sized,
 {

}

} // verus!
