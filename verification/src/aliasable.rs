//! Stable views: what a container shows of itself that outlasts its moves.
use crate::family::{Varying, WithLifetime};
use vstd::prelude::*;

verus! {

/// The view of `T` at `'a`.
pub type View<'a, T> = Varying<'a, 'a, 'a, <T as AliasableView>::View>;

/// The mutable view of `T` at `'a`.
pub type ViewMut<'a, T> = Varying<'a, 'a, 'a, <T as AliasableViewMut>::ViewMut>;

/// A type with a read-only view that stays good while the value is moved or read.
pub trait AliasableView {
    /// The family of the views.
    type View: ?Sized + for <'a>WithLifetime<'a, 'a, 'a, Is: Sized>;

    /// A view of the value.
    fn view(&self) -> View<'_, Self>;
}

/// A type with a read/write view that stays good while the value is moved.
pub trait AliasableViewMut: AliasableView {
    /// The family of the views.
    type ViewMut: ?Sized + for <'a>WithLifetime<'a, 'a, 'a, Is: Sized>;

    /// A mutable view of the value.
    fn view_mut(&mut self) -> ViewMut<'_, Self>;
}

/// A type whose views stay good when a clone of the value is dropped.
pub trait AliasableClone: AliasableView + Clone {

}

/// A type that can be made into one with stable views.
pub trait IntoAliasable {
    /// The type with stable views.
    type IntoAliasable: AliasableView;

    /// The value, with stable views.
    fn into_aliasable(self) -> Self::IntoAliasable;
}

impl<T: AliasableView> IntoAliasable for T {
    type IntoAliasable = Self;

    fn into_aliasable(self) -> (aliasable: Self)
        ensures
            aliasable == self,
    {
        self
    }
}

/// A type that can be made into one with stable mutable views.
pub trait IntoAliasableMut: IntoAliasable where Self::IntoAliasable: AliasableViewMut {

}

impl<T: IntoAliasable> IntoAliasableMut for T where T::IntoAliasable: AliasableViewMut {

}

/// An exclusive reference that is moved without a new claim on its pointee.
pub struct AliasableRefMut<'a, T: ?Sized> {
    ptr: &'a mut T,
}

impl<'a, T: ?Sized> AliasableRefMut<'a, T> {
    /// The reference that is wrapped.
    pub closed spec fn reference(self) -> &'a mut T {
        self.ptr
    }

    /// Wraps the reference.
    pub fn from_mut(ptr: &'a mut T) -> (aliasable: Self)
        ensures
            &*aliasable.reference() == &*old(ptr),
            &*final(aliasable.reference()) == &*final(ptr),
    {
        AliasableRefMut { ptr }
    }

    /// The reference that was wrapped.
    pub fn into_mut(self) -> (ptr: &'a mut T)
        ensures
            &*ptr == &*old(self.reference()),
            &*final(ptr) == &*final(self.reference()),
    {
        self.ptr
    }

    /// The pointee, to read.
    pub fn as_ref(&self) -> (pointee: &T)
        ensures
            pointee == &*self.reference(),
    {
        &*self.ptr
    }

    /// The pointee, to read and to write.
    pub fn as_mut(&mut self) -> (pointee: &mut T)
        ensures
            &*pointee == &*old(self).reference(),
            &*final(pointee) == &*final(self).reference(),
            &*final(final(self).reference()) == &*final(old(self).reference()),
    {
        &mut *self.ptr
    }
}

impl<'a, T: ?Sized> std::ops::Deref for AliasableRefMut<'a, T> {
    type Target = T;

    fn deref(&self) -> (pointee: &T)
        ensures
            pointee == &*self.reference(),
    {
        &*self.ptr
    }
}

impl<'a, T: ?Sized> std::ops::DerefMut for AliasableRefMut<'a, T> {
    fn deref_mut(&mut self) -> (pointee: &mut T)
        ensures
            &*pointee == &*old(self).reference(),
            &*final(pointee) == &*final(self).reference(),
            &*final(final(self).reference()) == &*final(old(self).reference()),
    {
        &mut *self.ptr
    }
}

impl<'a, T: ?Sized> From<&'a mut T> for AliasableRefMut<'a, T> {
    fn from(ptr: &'a mut T) -> (aliasable: Self)
        ensures
            &*aliasable.reference() == &*old(ptr),
            &*final(aliasable.reference()) == &*final(ptr),
    {
        Self::from_mut(ptr)
    }
}

/// What `from` gives is stated on `from` itself: it speaks of what the reference
/// points to when it is given up, which a value made from the reference alone does
/// not hold.
impl<'a, T: ?Sized> vstd::std_specs::convert::FromSpecImpl<&'a mut T> for AliasableRefMut<'a, T> {
    open spec fn obeys_from_spec() -> bool {
        false
    }

    open spec fn from_spec(ptr: &'a mut T) -> Self {
        arbitrary()
    }
}

} // verus!
