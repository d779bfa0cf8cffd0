//! The copy-on-write handle.
//!
//! A `CowArc<T>` is bound to one allocation. Cloning a handle binds the clone
//! to the same allocation. Changing a handle's value never writes to the
//! allocation: it binds the handle to a new one and leaves the old one to
//! whoever else holds it.

use crate::shared::{Allocation, Shared};
use std::ops::Deref;
use vstd::prelude::*;
use vstd::std_specs::cmp::PartialEqSpec;

verus! {

/// A handle to a shared, immutable allocation of a `T`.
#[derive(Debug)]
pub struct CowArc<T: Clone> {
    inner: Shared<T>,
}

impl<T: Clone> View for CowArc<T> {
    type V = T;

    /// The value read through the handle: the content of its allocation.
    open spec fn view(&self) -> T {
        self.allocation().content
    }
}

impl<T: Clone> CowArc<T> {
    /// The allocation the handle is bound to.
    pub closed spec fn allocation(&self) -> Allocation<T> {
        self.inner.allocation()
    }

    /// Identity: both handles are bound to one allocation.
    pub open spec fn shares(&self, other: &Self) -> bool {
        self.allocation() == other.allocation()
    }

    /// Value equality, as `T` itself compares; allocations play no part.
    pub open spec fn value_eq_spec(&self, other: &Self) -> bool where T: PartialEq {
        self@.eq_spec(&other@)
    }

    /// Binds a new handle to a new allocation that holds `val`.
    pub fn new(val: T) -> (r: CowArc<T>)
        ensures
            r@ == val,
    {
        CowArc { inner: Shared::fresh(val, None) }
    }

    /// Binds the handle to a new allocation that holds `val`. The allocation
    /// it was bound to is left untouched for the handles that share it.
    pub fn set_val(&mut self, val: T)
        ensures
            final(self)@ == val,
            !final(self).shares(old(self)),
    {
        self.inner = Shared::fresh(val, Some(&self.inner));
    }

    /// Clones the current value, lets `f` edit the clone, then binds the
    /// handle to a new allocation that holds the edited clone. The handle is
    /// rebound only once `f` has returned.
    pub fn update_val<F: FnOnce(&mut T)>(&mut self, f: F)
        requires
            forall|r: &mut T| cloned::<T>(old(self)@, *r) ==> #[trigger] f.requires((r,)),
        ensures
            exists|r: &mut T|
                cloned::<T>(old(self)@, *r) && #[trigger] f.ensures((r,), ()) && *final(r)
                    == final(self)@,
            !final(self).shares(old(self)),
    {
        let mut v: T = self.inner.get().clone();
        f(&mut v);
        self.inner = Shared::fresh(v, Some(&self.inner));
    }

    /// Whether both handles are bound to one allocation.
    pub fn ptr_eq(this: &Self, other: &Self) -> (r: bool)
        ensures
            r == this.shares(other),
    {
        this.inner.same(&other.inner)
    }

    /// Whether both handles hold equal values, by `T`'s own `==`.
    pub fn value_eq(this: &Self, other: &Self) -> (r: bool) where T: PartialEq
        ensures
            T::obeys_eq_spec() ==> r == this.value_eq_spec(other),
    {
        *this.inner.get() == *other.inner.get()
    }
}

impl<T: Clone> Deref for CowArc<T> {
    type Target = T;

    /// A read-only view of the current value, inside the allocation.
    fn deref(&self) -> (r: &T)
        ensures
            *r == self@,
    {
        self.inner.get()
    }
}

impl<T: Clone> Clone for CowArc<T> {
    /// A second handle bound to the same allocation; the value is not cloned.
    fn clone(&self) -> (r: Self)
        ensures
            r.shares(self),
            r@ == self@,
    {
        CowArc { inner: self.inner.share() }
    }
}

} // verus!
