//! The capability contract: what every kind of reference-counted pointer offers to the
//! data structures that are generic over the kind.
//!
//! A kind is a type of handles. A handle owns one share of an allocation that holds a
//! payload, and the handle's type does not name the payload's type: each operation
//! names it again, and must name the type that the handle was made for. A handle is
//! made by [`SharedPointerKind::new`] or [`SharedPointerKind::from_box`], shared by
//! [`SharedPointerKind::clone`], and gives up its share once, through
//! [`SharedPointerKind::drop`] or a [`SharedPointerKind::try_unwrap`] that succeeds.
//! A handle that merely leaves its scope gives up nothing: its share stays counted.
//!
//! The contracts speak of three things that a handle has: whether it is live, where it
//! points, and what it stores. They do not speak of the number of owners. That number
//! belongs to the allocation: a clone made from another handle, or on another thread,
//! changes it while this handle's value stays what it was, so no function of the
//! handle can equal it. Where an operation depends on the number
//! ([`SharedPointerKind::try_unwrap`], [`SharedPointerKind::get_mut`],
//! [`SharedPointerKind::make_mut`]), its contract says what holds of each outcome.
//!
//! The payload types are `Send + Sync + 'static`: a handle may cross threads whatever
//! it holds, and telling payload types apart needs types without borrowed parts.

use crate::block::Block;
use vstd::prelude::*;

verus! {

/// What a payload is named by in a contract: a number, a text, the block of a handle,
/// or a row of such.
///
/// A handle's type cannot say what the handle stores, so a contract cannot hold the
/// payload itself. It holds a code for it ([`HandleView::content`]), and [`read`] turns
/// the code back into a payload of the type that the operation names.
pub enum Code {
    /// A number.
    Int(int),
    /// A text.
    Text(String),
    /// What a handle points with.
    Shared(Block),
    /// A row of codes, for a value with parts.
    Row(Seq<Code>),
}

/// Whether `code` gives different values of `T` different codes.
pub open spec fn encodes<T>(code: spec_fn(T) -> Code) -> bool {
    forall|a: T, b: T| #[trigger] code(a) == #[trigger] code(b) ==> a == b
}

/// Whether the values of `T` can be told apart by codes: some function gives each of
/// them a code of its own.
///
/// What was put into a handle can be promised to come out again only for such a `T`.
/// A handle has one type for every payload, so it can hold no more payloads than there
/// are handles, while a ghost value may be a set of handles, or of codes, of which
/// there are more. A promise for every `T` would contradict itself on such a payload.
/// Of a payload that is not encodable the contracts say that the handle holds it, and
/// nothing of its value. The module [`crate::encodable`] shows the types that are.
pub open spec fn encodable<T>() -> bool {
    exists|code: spec_fn(T) -> Code| encodes(code)
}

/// What a code stands for, read as a `T`.
///
/// The body picks, for each `T`, one unspecified function from codes to `Option<T>`:
/// nothing is known of it but what the operations of a kind promise.
pub closed spec fn read<T>(content: Code) -> Option<T> {
    (arbitrary::<spec_fn(Code) -> Option<T>>())(content)
}

/// A handle as the contracts see it: whether it is live, where it points and what it
/// stores. Every kind gives its handles this view, written `k@`.
pub struct HandleView {
    /// Whether the handle still owns its share of an allocation.
    pub live: bool,
    /// The address of the payload that a live handle points to.
    pub addr: usize,
    /// The code for what a live handle stores; [`read`] gives the payload for it.
    pub content: Code,
}

impl HandleView {
    /// What the handle stores, read as a `T`: `Some` for a live handle that was made
    /// for a `T`, and `None` for a handle that has given up its share. Where `T` is
    /// [`encodable`], the value is the payload.
    pub open spec fn stored<T>(self) -> Option<T> {
        if self.live {
            read::<T>(self.content)
        } else {
            None
        }
    }

    /// The handle is live and its payload is a `T`: what every typed operation asks.
    pub open spec fn holds<T>(self) -> bool {
        self.stored::<T>() is Some
    }

    /// Which allocation the handle points to: the payload's address while the handle
    /// is live, nothing once it has given up its share.
    pub open spec fn identity(self) -> Option<usize> {
        if self.live {
            Some(self.addr)
        } else {
            None
        }
    }
}

/// A kind of reference-counted pointer: the operations on its handles, with what each
/// of them promises.
pub trait SharedPointerKind: View<V = HandleView> + Sized {
    /// Puts `v` into a new reference-counted allocation and returns its only handle.
    fn new<T: Send + Sync + 'static>(v: T) -> (k: Self)
        ensures
            k@.holds::<T>(),
            encodable::<T>() ==> k@.stored::<T>() == Some(v),
    ;

    /// Moves an already boxed value into a new reference-counted allocation and
    /// returns its only handle. The payload is moved, not cloned.
    fn from_box<T: Send + Sync + 'static>(v: Box<T>) -> (k: Self)
        ensures
            k@.holds::<T>(),
            encodable::<T>() ==> k@.stored::<T>() == Some(*v),
    ;

    /// The address of the payload. The count is not touched, and the address of a live
    /// handle is never null.
    fn as_ptr<T: Send + Sync + 'static>(&self) -> (a: usize)
        requires
            self@.holds::<T>(),
        ensures
            a == self@.addr,
            a != 0,
    ;

    /// Borrows the payload for as long as the handle is borrowed.
    fn deref<T: Send + Sync + 'static>(&self) -> (r: &T)
        requires
            self@.holds::<T>(),
        ensures
            self@.stored::<T>() == Some(*r),
    ;

    /// Takes the payload out if this handle is the only owner; otherwise hands the
    /// handle back as it was, with its sharing intact.
    ///
    /// The allocation decides, in one atomic step, which of the two happens; the
    /// contract says what comes back in either case.
    fn try_unwrap<T: Send + Sync + 'static>(self) -> (r: Result<T, Self>)
        requires
            self@.holds::<T>(),
        ensures
            match r {
                Ok(v) => self@.stored::<T>() == Some(v),
                Err(k) => k@ == self@,
            },
    ;

    /// Borrows the payload mutably if this handle is the only owner; otherwise returns
    /// nothing and leaves the handle as it was. The payload is never copied.
    ///
    /// With a borrow, the handle stays on its allocation and stores at the end
    /// whatever the borrow was left at.
    fn get_mut<T: Send + Sync + 'static>(&mut self) -> (r: Option<&mut T>)
        requires
            old(self)@.holds::<T>(),
        ensures
            match r {
                Some(m) => {
                    &&& old(self)@.stored::<T>() == Some(*m)
                    &&& final(self)@.holds::<T>()
                    &&& encodable::<T>() ==> final(self)@.stored::<T>() == Some(*final(m))
                    &&& final(self)@.addr == old(self)@.addr
                },
                None => final(self)@ == old(self)@,
            },
    ;

    /// Borrows the payload mutably, first cloning it into an allocation of its own if
    /// other handles share it, so that no other handle sees the change.
    ///
    /// The borrow starts at the payload or at a clone of it, and the handle stores at
    /// the end whatever the borrow was left at.
    fn make_mut<T: Clone + Send + Sync + 'static>(&mut self) -> (r: &mut T)
        requires
            old(self)@.holds::<T>(),
        ensures
            cloned::<T>(old(self)@.stored::<T>()->0, *r),
            final(self)@.holds::<T>(),
            encodable::<T>() ==> final(self)@.stored::<T>() == Some(*final(r)),
    ;

    /// The number of handles that own the allocation, this one among them. Where other
    /// threads share the allocation the number may be stale as soon as it is returned.
    fn strong_count<T: Send + Sync + 'static>(&self) -> (n: usize)
        requires
            self@.holds::<T>(),
        ensures
            n >= 1,
    ;

    /// One more handle to the same allocation: it points to the same address and
    /// stores the same payload.
    fn clone<T: Send + Sync + 'static>(&self) -> (k: Self)
        requires
            self@.holds::<T>(),
        ensures
            k@ == self@,
    ;

    /// Gives up this handle's share of the allocation, which is freed with its last
    /// owner. The handle is not live afterwards, and no operation may be called on it.
    fn drop<T: Send + Sync + 'static>(&mut self)
        requires
            old(self)@.holds::<T>(),
        ensures
            !final(self)@.live,
    ;
}

} // verus!
