//! A reference-counted pointer whose allocation is visible to proofs.
//!
//! Verus reads an `Arc<T>` as the `T` it points to, so two pointers with equal
//! contents are indistinguishable in specifications. `Shared<T>` pairs the
//! pointer with a ghost identifier of the block it points to. The pairing is
//! only ever made by the functions below that call into `Arc`, and their
//! contracts are the assumptions this crate rests on.

use std::sync::Arc;
use vstd::prelude::*;

verus! {

/// One block on the heap: which block it is, and the value stored in it.
///
/// A block is never written after it was made, so it is a plain value here.
pub struct Allocation<T> {
    /// Tells blocks apart. Two pointers in use at the same time have the same
    /// `id` exactly when they point to the same block.
    pub id: int,
    /// The value stored in the block.
    pub content: T,
}

/// An `Arc<T>` together with the identifier of the block it points to.
pub(crate) struct Shared<T> {
    ptr: Arc<T>,
    id: Ghost<int>,
}

#[verifier::external_type_specification]
#[verifier::external_body]
pub struct ExFormatter<'a>(core::fmt::Formatter<'a>);

#[verifier::external_type_specification]
#[verifier::external_body]
pub struct ExFmtError(core::fmt::Error);

impl<T> Shared<T> {
    /// The block this pointer refers to.
    pub closed spec fn allocation(&self) -> Allocation<T> {
        Allocation { id: self.id@, content: *self.ptr }
    }

    /// Calls `Arc::new`. Assumed: the result points to a block that holds
    /// `val`, and that block is not the one `live` points to, since `live` is
    /// borrowed, and so keeps its block in use, while the new one is made.
    /// Nothing is claimed about blocks that are not handed in.
    #[verifier::external_body]
    pub(crate) fn fresh(val: T, live: Option<&Shared<T>>) -> (r: Shared<T>)
        ensures
            r.allocation().content == val,
            live matches Some(other) ==> r.allocation().id != other.allocation().id,
    {
        Shared { ptr: Arc::new(val), id: Ghost(arbitrary()) }
    }

    /// Calls `Arc::clone`. Assumed: the result points to the same block as
    /// `self`; nothing is copied but the pointer.
    #[verifier::external_body]
    pub(crate) fn share(&self) -> (r: Shared<T>)
        ensures
            r.allocation() == self.allocation(),
    {
        Shared { ptr: Arc::clone(&self.ptr), id: self.id }
    }

    /// Calls `Arc::ptr_eq`. Assumed: the answer is `true` exactly when both
    /// pointers refer to one block, in which case they also read one value.
    #[verifier::external_body]
    pub(crate) fn same(&self, other: &Shared<T>) -> (r: bool)
        ensures
            r == (self.allocation() == other.allocation()),
    {
        Arc::ptr_eq(&self.ptr, &other.ptr)
    }

    /// A view into the block; the block itself is left as it is.
    pub(crate) fn get(&self) -> (r: &T)
        ensures
            *r == self.allocation().content,
    {
        &*self.ptr
    }
}

impl<T: core::fmt::Debug> core::fmt::Debug for Shared<T> {
    /// Calls `Arc`'s own `Debug::fmt`, which prints the stored value. Nothing
    /// is assumed about what is written.
    #[verifier::external_body]
    fn fmt(&self, f: &mut core::fmt::Formatter<'_>) -> core::fmt::Result {
        core::fmt::Debug::fmt(&self.ptr, f)
    }
}

} // verus!
