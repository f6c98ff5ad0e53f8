//! Exclusive peripheral access: the capability contract and the handle type.

use core::marker::PhantomData;
use vstd::prelude::*;

verus! {

/// An exclusive reference to a peripheral.
///
/// This is functionally the same as a `&'a mut T`. The reason for having a
/// dedicated struct is memory efficiency: peripheral singletons are typically
/// either zero-sized or very small, while a mutable reference is always
/// pointer-sized. `PeripheralRef` stores a copy of `T` instead, so it is the
/// same size as `T` itself.
pub struct PeripheralRef<'a, T> {
    inner: T,
    _lifetime: PhantomData<&'a mut T>,
}

impl<'a, T> PeripheralRef<'a, T> {
    /// The identity value this handle wraps.
    pub closed spec fn value(self) -> T {
        self.inner
    }

    /// Create a new exclusive reference to a peripheral.
    ///
    /// No validation is performed: construction cannot fail.
    pub fn new(inner: T) -> (r: Self)
        ensures
            r.value() == inner,
    {
        Self { inner, _lifetime: PhantomData }
    }

    /// Duplicate a peripheral singleton without any uniqueness tracking.
    ///
    /// The caller takes on the obligation that at most one of the duplicates
    /// is in use at a time; nothing here checks it. Strongly prefer
    /// [`Self::reborrow`], which lets the borrow checker enforce the
    /// obligation at compile time.
    pub fn clone_unchecked(&mut self) -> (r: PeripheralRef<'a, T>) where T: Peripheral<P = T>
        ensures
            r.value().id() == old(self).value().id(),
            (*final(self)).value().id() == old(self).value().id(),
    {
        PeripheralRef::new(self.inner.clone_unchecked())
    }

    /// Reborrow into a "child" `PeripheralRef`.
    ///
    /// `self` stays borrowed until the child `PeripheralRef` is dropped, so
    /// the parent and the child can never be used at the same time.
    pub fn reborrow(&mut self) -> (r: PeripheralRef<'_, T>) where T: Peripheral<P = T>
        ensures
            r.value().id() == old(self).value().id(),
            (*final(self)).value().id() == old(self).value().id(),
    {
        // The duplicate is bound to the borrow of `self`, so the parent's own
        // exclusivity guarantee rules out concurrent use of the two.
        PeripheralRef::new(self.inner.clone_unchecked())
    }

    /// Read access to the wrapped identity's own operations, as if the
    /// handle were the identity itself.
    pub fn inner(&self) -> (r: &T)
        ensures
            *r == self.value(),
    {
        &self.inner
    }

    /// Write access to the wrapped identity's own operations, as if the
    /// handle were the identity itself.
    pub fn inner_mut(&mut self) -> (r: &mut T)
        ensures
            *r == old(self).value(),
            (*final(self)).value() == *final(r),
    {
        &mut self.inner
    }
}

/// A value that stands for one configured peripheral.
///
/// `id` gives the identity of the physical (or virtual) peripheral: two
/// values with the same identity denote the same hardware resource. The
/// exclusivity contracts of this crate are stated over it.
pub trait Identified {
    /// The identity of the peripheral this value stands for.
    spec fn id(&self) -> int;
}

impl<T: Identified> Identified for &mut T {
    open spec fn id(&self) -> int {
        (**self).id()
    }
}

/// Trait for any type that can be used as a peripheral of type `P`.
///
/// This is used in driver constructors, to allow passing either owned
/// peripherals or mutably borrowed ones: `into_ref()` on an owned `T` yields
/// a `PeripheralRef<'static, T>`, and on an `&'a mut T` a
/// `PeripheralRef<'a, T>`, so one constructor serves both.
pub trait Peripheral: Sized + Identified + crate::private::Sealed {
    /// Peripheral singleton type.
    type P: Identified;

    /// Duplicate a peripheral singleton without any uniqueness tracking.
    ///
    /// The caller takes on the obligation that at most one of the duplicates
    /// is in use at a time; nothing here checks it. Strongly prefer
    /// [`Self::into_ref`], which lets the borrow checker enforce the
    /// obligation at compile time.
    fn clone_unchecked(&mut self) -> (r: Self::P)
        ensures
            r.id() == old(self).id(),
            (*final(self)).id() == old(self).id(),
    ;

    /// Convert a value into a `PeripheralRef` wrapping the same identity.
    fn into_ref<'a>(self) -> (r: PeripheralRef<'a, Self::P>) where Self: 'a
        ensures
            r.value().id() == self.id(),
    ;
}

impl<T, P> Peripheral for &mut T where T: Peripheral<P = P>, P: Identified {
    type P = P;

    fn clone_unchecked(&mut self) -> (r: P) {
        T::clone_unchecked(self)
    }

    fn into_ref<'b>(self) -> (r: PeripheralRef<'b, P>) where Self: 'b {
        let mut this = self;
        PeripheralRef::new(this.clone_unchecked())
    }
}

} // verus!
