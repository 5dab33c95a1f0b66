//! The erased block: a `std::sync::Arc<T>` kept where `T` cannot be written.
//!
//! A block owns one `Arc<T>` inside a `Box<dyn Any + Send + Sync>`. Every typed
//! operation names `T` again; the block tests that it is the `T` it was made for and
//! then hands the `Arc<T>` to the function of `std::sync::Arc` that does the work.
//! Nothing in this module is proved: it is the boundary between the verified handle
//! and the standard library, and each function's comment says what is taken on trust.
//!
//! Two things are said of a block in contracts: the address of the allocation it
//! points to ([`block_addr`]) and what it stores ([`block_content`], a code that
//! [`read`] turns into the payload). The count of owners is said of no block. It
//! belongs to the allocation, other handles and other threads change it, and so no
//! function of one block's value can equal it.
//!
//! A value that goes into a block is promised to be what the block stores only for an
//! [`encodable`] payload type: what a block stores is named by a [`Code`], and codes
//! cannot tell apart the values of a type that has more values than there are codes.

use crate::kind::encodable;
use crate::kind::read;
use crate::kind::Code;
use std::any::Any;
use std::mem::ManuallyDrop;
use std::sync::Arc;
use vstd::prelude::*;

verus! {

/// One owner's share of a reference-counted allocation, with the payload type erased.
///
/// `boxed` always holds an `Arc<T>` for the `T` that the block was made for. It is
/// kept from being dropped with the block: a block gives up its share through
/// [`Block::release`] or a [`Block::try_unwrap`] that succeeds, and not by leaving its
/// scope. The verifier cannot take a `dyn Any` field, so the struct is opaque to it and
/// is known only through the functions below.
#[verifier::external_body]
pub struct Block {
    boxed: ManuallyDrop<Box<dyn Any + Send + Sync>>,
}

/// The address of the payload that the block points to: what `Arc::as_ptr` returns for
/// the pointer inside it. It is read from the block alone, so equal blocks have equal
/// addresses. Which address a new allocation gets is said nowhere.
pub uninterp spec fn block_addr(b: Block) -> usize;

/// The code for what the block stores: read as the block's own `T`, it is the payload.
/// It is read from the block alone. For a `T` other than the block's own nothing is
/// promised of what the code reads as.
pub uninterp spec fn block_content(b: Block) -> Code;

impl Block {
    /// `Arc::new`: a new allocation that holds `v`.
    /// Trusted: the block made from it was made for a `T`, and stores `v` where `T` is
    /// encodable.
    #[verifier::external_body]
    pub(crate) fn new<T: Send + Sync + 'static>(v: T) -> (b: Block)
        ensures
            read::<T>(block_content(b)) is Some,
            encodable::<T>() ==> read::<T>(block_content(b)) == Some(v),
    {
        Block { boxed: ManuallyDrop::new(Box::new(Arc::new(v))) }
    }

    /// `Arc::from` on a `Box<T>`: the boxed value is moved to a new reference-counted
    /// allocation. Trusted: the block made from it was made for a `T`, and stores the
    /// value that was in the box where `T` is encodable.
    #[verifier::external_body]
    pub(crate) fn from_box<T: Send + Sync + 'static>(v: Box<T>) -> (b: Block)
        ensures
            read::<T>(block_content(b)) is Some,
            encodable::<T>() ==> read::<T>(block_content(b)) == Some(*v),
    {
        Block { boxed: ManuallyDrop::new(Box::new(Arc::<T>::from(v))) }
    }

    /// `Arc::as_ptr`: the address of the payload, with the count left as it is.
    /// Trusted: the result is the block's address, and it is not null, the pointer
    /// being valid while the block lives. Must be called with the block's own `T`.
    #[verifier::external_body]
    pub(crate) fn as_ptr<T: Send + Sync + 'static>(&self) -> (a: usize)
        requires
            read::<T>(block_content(*self)) is Some,
        ensures
            a == block_addr(*self),
            a != 0,
    {
        Arc::as_ptr(self.boxed.downcast_ref::<Arc<T>>().unwrap()).addr()
    }

    /// `Arc::as_ref`: a borrow of the payload.
    /// Trusted: it is the value that the block stores. Must be called with the block's
    /// own `T`.
    #[verifier::external_body]
    pub(crate) fn deref<T: Send + Sync + 'static>(&self) -> (r: &T)
        requires
            read::<T>(block_content(*self)) is Some,
        ensures
            read::<T>(block_content(*self)) == Some(*r),
    {
        self.boxed.downcast_ref::<Arc<T>>().unwrap().as_ref()
    }

    /// `Arc::try_unwrap`: the payload by value if this is the only owner, else the same
    /// pointer back. Trusted: a value that comes out is the one that was stored, and a
    /// block that comes back points to the same address and stores the same payload as
    /// the block that went in. Which of the two happens is decided by the count and is
    /// not stated. Must be called with the block's own `T`.
    #[verifier::external_body]
    pub(crate) fn try_unwrap<T: Send + Sync + 'static>(self) -> (r: Result<T, Block>)
        requires
            read::<T>(block_content(self)) is Some,
        ensures
            match r {
                Ok(v) => read::<T>(block_content(self)) == Some(v),
                Err(b) => block_addr(b) == block_addr(self) && block_content(b) == block_content(
                    self,
                ),
            },
    {
        let boxed = ManuallyDrop::into_inner(self.boxed);
        match Arc::try_unwrap(*boxed.downcast::<Arc<T>>().unwrap()) {
            Ok(v) => Ok(v),
            Err(arc) => Err(Block { boxed: ManuallyDrop::new(Box::new(arc)) }),
        }
    }

    /// `Arc::get_mut`: a mutable borrow of the payload if this is the only owner, else
    /// nothing. Trusted: a borrow that comes out starts at the stored value, the block
    /// is still one for a `T` afterwards and, where `T` is encodable, stores what the
    /// borrow ends at, and the allocation stays where it is; without a borrow the block
    /// points and stores as before. Which of the two happens is decided by the count
    /// and is not stated. Must be called with the block's own `T`.
    #[verifier::external_body]
    pub(crate) fn get_mut<T: Send + Sync + 'static>(&mut self) -> (r: Option<&mut T>)
        requires
            read::<T>(block_content(*old(self))) is Some,
        ensures
            match r {
                Some(m) => {
                    &&& read::<T>(block_content(*old(self))) == Some(*m)
                    &&& read::<T>(block_content(*final(self))) is Some
                    &&& encodable::<T>() ==> read::<T>(block_content(*final(self))) == Some(
                        *final(m),
                    )
                    &&& block_addr(*final(self)) == block_addr(*old(self))
                },
                None => {
                    &&& block_addr(*final(self)) == block_addr(*old(self))
                    &&& block_content(*final(self)) == block_content(*old(self))
                },
            },
    {
        Arc::get_mut(self.boxed.downcast_mut::<Arc<T>>().unwrap())
    }

    /// `Arc::make_mut`: a mutable borrow of the payload, which is first cloned into a
    /// new allocation if there are other owners. The borrow comes with the address it
    /// points to. Trusted: the borrow starts at the stored value or at a clone of it;
    /// the block is still one for a `T` afterwards and, where `T` is encodable, stores
    /// what the borrow ends at; and the address is the block's address afterwards, not
    /// null, the borrow being one of the payload that `Arc::as_ptr` points to. Whether
    /// a clone was made, and so whether the address changed, is not stated. Must be
    /// called with the block's own `T`.
    #[verifier::external_body]
    pub(crate) fn make_mut<T: Clone + Send + Sync + 'static>(&mut self) -> (out: (usize, &mut T))
        requires
            read::<T>(block_content(*old(self))) is Some,
        ensures
            cloned::<T>(read::<T>(block_content(*old(self)))->0, *out.1),
            read::<T>(block_content(*final(self))) is Some,
            encodable::<T>() ==> read::<T>(block_content(*final(self))) == Some(*final(out.1)),
            out.0 == block_addr(*final(self)),
            out.0 != 0,
    {
        let r = Arc::make_mut(self.boxed.downcast_mut::<Arc<T>>().unwrap());
        (std::ptr::from_ref::<T>(r).addr(), r)
    }

    /// `Arc::strong_count`: the number of owners of the allocation at some moment of
    /// the call. Trusted: it is at least one, this block being an owner. Must be called
    /// with the block's own `T`.
    #[verifier::external_body]
    pub(crate) fn strong_count<T: Send + Sync + 'static>(&self) -> (n: usize)
        requires
            read::<T>(block_content(*self)) is Some,
        ensures
            n >= 1,
    {
        Arc::strong_count(self.boxed.downcast_ref::<Arc<T>>().unwrap())
    }

    /// `Arc::clone`: one more owner of the same allocation.
    /// Trusted: the new block points to the same address and stores the same payload.
    /// Must be called with the block's own `T`.
    #[verifier::external_body]
    pub(crate) fn duplicate<T: Send + Sync + 'static>(&self) -> (b: Block)
        requires
            read::<T>(block_content(*self)) is Some,
        ensures
            block_content(b) == block_content(*self),
            block_addr(b) == block_addr(*self),
    {
        let arc = Arc::clone(self.boxed.downcast_ref::<Arc<T>>().unwrap());
        Block { boxed: ManuallyDrop::new(Box::new(arc)) }
    }

    /// `drop` of the `Arc<T>`: the block gives up its share, and the allocation is freed
    /// with its last owner. Nothing is left to state: the block is gone. Must be called
    /// with the block's own `T`.
    #[verifier::external_body]
    pub(crate) fn release<T: Send + Sync + 'static>(self)
        requires
            read::<T>(block_content(self)) is Some,
    {
        let boxed = ManuallyDrop::into_inner(self.boxed);
        drop(*boxed.downcast::<Arc<T>>().unwrap())
    }
}

} // verus!
