//! What holds across several operations on handles.
//!
//! Each law speaks of calls by their results: `call_ensures(f, args, r)` reads "`r` is
//! something that `f` may return for `args`". A law therefore holds of every run of the
//! calls it names, whatever the number of owners was when they were made; where an
//! operation has two outcomes, the law says what holds of each. The laws of the first
//! part are proved from the capability contract alone, and so hold of every kind;
//! those of the second part are about the equality of [`ArcK`].
//!
//! A law that follows a value into a handle and out again asks that the payload type
//! be [`encodable`]; the module [`crate::encodable`] shows which types are.

use crate::arc::ArcK;
use crate::kind::encodable;
use crate::kind::SharedPointerKind;
use vstd::prelude::*;
use vstd::std_specs::cmp::PartialEqSpec;

verus! {

/// A handle made from a value dereferences to that value.
pub proof fn new_then_deref<K: SharedPointerKind, T: Send + Sync + 'static>(v: T, k: K, r: &T)
    requires
        encodable::<T>(),
        call_ensures(K::new::<T>, (v,), k),
        call_ensures(K::deref::<T>, (&k,), r),
    ensures
        *r == v,
{
}

/// A handle made from a boxed value dereferences to the value that was in the box.
pub proof fn from_box_then_deref<K: SharedPointerKind, T: Send + Sync + 'static>(
    v: Box<T>,
    k: K,
    r: &T,
)
    requires
        encodable::<T>(),
        call_ensures(K::from_box::<T>, (v,), k),
        call_ensures(K::deref::<T>, (&k,), r),
    ensures
        *r == *v,
{
}

/// A new handle may be used at once, with the type it was made for.
pub proof fn new_handle_holds_its_type<K: SharedPointerKind, T: Send + Sync + 'static>(
    v: T,
    b: Box<T>,
    k: K,
    k2: K,
)
    requires
        call_ensures(K::new::<T>, (v,), k),
        call_ensures(K::from_box::<T>, (b,), k2),
    ensures
        k@.holds::<T>(),
        k2@.holds::<T>(),
{
}

/// What is read from a handle depends on its view alone: two handles of one view
/// dereference to equal values and have equal addresses. So a handle that was handed
/// back with its view unchanged, by an unwrapping that failed or a mutable borrow that
/// was refused, reads as it did before.
pub proof fn reading_depends_on_the_view_alone<K: SharedPointerKind, T: Send + Sync + 'static>(
    h: K,
    h2: K,
    a: usize,
    a2: usize,
    r: &T,
    r2: &T,
)
    requires
        h2@ == h@,
        call_ensures(K::as_ptr::<T>, (&h,), a),
        call_ensures(K::deref::<T>, (&h,), r),
        call_ensures(K::as_ptr::<T>, (&h2,), a2),
        call_ensures(K::deref::<T>, (&h2,), r2),
    ensures
        a2 == a,
        *r2 == *r,
{
}

/// A handle and its clone dereference to equal values and have equal addresses, and
/// the clone may be used as the handle may.
pub proof fn clone_shares_value_and_address<K: SharedPointerKind, T: Send + Sync + 'static>(
    h: K,
    h2: K,
    r: &T,
    r2: &T,
    a: usize,
    a2: usize,
)
    requires
        call_ensures(K::clone::<T>, (&h,), h2),
        call_ensures(K::deref::<T>, (&h,), r),
        call_ensures(K::deref::<T>, (&h2,), r2),
        call_ensures(K::as_ptr::<T>, (&h,), a),
        call_ensures(K::as_ptr::<T>, (&h2,), a2),
    ensures
        h2@.holds::<T>(),
        *r == *r2,
        a == a2,
{
}

/// Unwrapping gives either the value that the handle dereferenced to, or a handle of
/// the same view, which may be used as before and reads as before.
pub proof fn unwrap_gives_the_payload_or_the_handle<K: SharedPointerKind, T: Send + Sync + 'static>(
    h: K,
    before: &T,
    r: Result<T, K>,
)
    requires
        call_ensures(K::deref::<T>, (&h,), before),
        call_ensures(K::try_unwrap::<T>, (h,), r),
    ensures
        match r {
            Ok(v) => v == *before,
            Err(k) => k@ == h@ && k@.holds::<T>(),
        },
{
}

/// Unwrapping a handle made from a value gives either that value or the handle back.
pub proof fn new_then_unwrap<K: SharedPointerKind, T: Send + Sync + 'static>(
    v: T,
    k: K,
    r: Result<T, K>,
)
    requires
        encodable::<T>(),
        call_ensures(K::new::<T>, (v,), k),
        call_ensures(K::try_unwrap::<T>, (k,), r),
    ensures
        match r {
            Ok(w) => w == v,
            Err(k2) => k2@ == k@ && k2@.stored::<T>() == Some(v),
        },
{
}

/// Asking for a mutable borrow gives either a borrow that starts at the value that the
/// handle dereferenced to, with the handle staying where it is and storing at the end
/// what the borrow was left at, or nothing, with the handle's view as it was.
pub proof fn get_mut_gives_a_borrow_or_leaves_the_handle<
    K: SharedPointerKind,
    T: Send + Sync + 'static,
>(h: &mut K, before: &T, r: Option<&mut T>)
    requires
        call_ensures(K::deref::<T>, (&*old(h),), before),
        call_ensures(K::get_mut::<T>, (h,), r),
    ensures
        final(h)@.holds::<T>(),
        final(h)@.addr == old(h)@.addr,
        match r {
            Some(m) => *m == *before && (encodable::<T>() ==> final(h)@.stored::<T>() == Some(
                *final(m),
            )),
            None => final(h)@ == old(h)@,
        },
{
}

/// Writing through `make_mut` is kept from every other handle: the borrow starts at
/// the value that the handle dereferenced to or at a clone of it, the handle stores at
/// the end what the borrow was left at, and a handle that shared the allocation
/// dereferences to the value from before.
pub proof fn make_mut_copies_on_write<K: SharedPointerKind, T: Clone + Send + Sync + 'static>(
    h: &mut K,
    sharer: K,
    before: &T,
    r: &mut T,
    shared: &T,
)
    requires
        call_ensures(K::clone::<T>, (&*old(h),), sharer),
        call_ensures(K::deref::<T>, (&*old(h),), before),
        call_ensures(K::make_mut::<T>, (h,), r),
        call_ensures(K::deref::<T>, (&sharer,), shared),
    ensures
        cloned::<T>(*before, *old(r)),
        final(h)@.holds::<T>(),
        encodable::<T>() ==> final(h)@.stored::<T>() == Some(*final(r)),
        *shared == *before,
{
}

/// Every handle is equal to itself.
pub proof fn eq_is_reflexive(a: ArcK)
    ensures
        a.eq_spec(&a),
{
}

/// Equality does not depend on the order of the two handles.
pub proof fn eq_is_symmetric(a: ArcK, b: ArcK)
    ensures
        a.eq_spec(&b) == b.eq_spec(&a),
{
}

/// Two handles that are equal to a third are equal to each other.
pub proof fn eq_is_transitive(a: ArcK, b: ArcK, c: ArcK)
    requires
        a.eq_spec(&b),
        b.eq_spec(&c),
    ensures
        a.eq_spec(&c),
{
}

/// `==` on handles computes the equality that these laws speak of.
pub proof fn eq_computes_the_equality(a: ArcK, b: ArcK, r: bool)
    requires
        call_ensures(ArcK::eq, (&a, &b), r),
    ensures
        r == a.eq_spec(&b),
{
}

/// Equality is identity of the allocation: two live handles, whatever they hold, are
/// equal exactly where their payloads are at the same address.
pub proof fn eq_is_same_address<T: Send + Sync + 'static, U: Send + Sync + 'static>(
    a: ArcK,
    b: ArcK,
    pa: usize,
    pb: usize,
)
    requires
        a@.holds::<T>(),
        b@.holds::<U>(),
        call_ensures(ArcK::as_ptr::<T>, (&a,), pa),
        call_ensures(ArcK::as_ptr::<U>, (&b,), pb),
    ensures
        a.eq_spec(&b) == (pa == pb),
{
    a.key_is_identity();
    b.key_is_identity();
}

/// Equality is equality of the identities, for handles that are live or dropped.
pub proof fn eq_is_same_identity(a: ArcK, b: ArcK)
    requires
        a@.live || a.key() is None,
        b@.live || b.key() is None,
    ensures
        a.eq_spec(&b) == (a@.identity() == b@.identity()),
{
    a.key_is_identity();
    b.key_is_identity();
}

/// A clone is equal to the handle it was made from.
pub proof fn clone_is_equal_to_its_origin<T: Send + Sync + 'static>(h: ArcK, h2: ArcK)
    requires
        h@.holds::<T>(),
        call_ensures(ArcK::clone::<T>, (&h,), h2),
    ensures
        h2.eq_spec(&h),
{
    h.key_is_identity();
    h2.key_is_identity();
}

/// Two clones of one handle are equal to each other.
pub proof fn clones_of_one_origin_are_equal<T: Send + Sync + 'static>(h: ArcK, b: ArcK, c: ArcK)
    requires
        h@.holds::<T>(),
        call_ensures(ArcK::clone::<T>, (&h,), b),
        call_ensures(ArcK::clone::<T>, (&h,), c),
    ensures
        b.eq_spec(&c),
{
    b.key_is_identity();
    c.key_is_identity();
}

/// A handle that failed to unwrap comes back equal to the handle that went in.
pub proof fn failed_unwrap_is_equal_to_its_origin<T: Send + Sync + 'static>(h: ArcK, k: ArcK)
    requires
        h@.holds::<T>(),
        call_ensures(ArcK::try_unwrap::<T>, (h,), Err::<T, ArcK>(k)),
    ensures
        k.eq_spec(&h),
{
    h.key_is_identity();
    k.key_is_identity();
}

} // verus!
