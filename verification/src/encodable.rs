//! Which payload types are encodable: the types whose values a contract can follow
//! into a handle and out again.
//!
//! The numbers, `bool`, `char`, `()`, `String` and the handles themselves are, and so
//! are pairs, options and boxes of encodable types. For a type of one's own,
//! [`encodable_through`] takes a function that tells its values apart by values of an
//! encodable type, for a struct the tuple of its fields; [`encodable_by`] takes a
//! function that gives each value a code of its own.

use crate::arc::ArcK;
use crate::kind::encodable;
use crate::kind::encodes;
use crate::kind::Code;
use vstd::prelude::*;

verus! {

/// A type is encodable where some function gives different values different codes.
pub proof fn encodable_by<T>(code: spec_fn(T) -> Code)
    requires
        encodes(code),
    ensures
        encodable::<T>(),
{
}

/// A type is encodable where its values can be told apart by values of an encodable
/// type: a struct by the tuple of its fields, say.
pub proof fn encodable_through<T, U>(part: spec_fn(T) -> U)
    requires
        forall|a: T, b: T| #[trigger] part(a) == #[trigger] part(b) ==> a == b,
        encodable::<U>(),
    ensures
        encodable::<T>(),
{
    let inner = choose|c: spec_fn(U) -> Code| encodes(c);
    let code = |x: T| inner(part(x));
    assert forall|a: T, b: T| #[trigger] code(a) == #[trigger] code(b) implies a == b by {
        assert(inner(part(a)) == inner(part(b)));
        assert(part(a) == part(b));
    }
    encodable_by(code);
}

/// Every `u8` is its own number.
pub proof fn u8_is_encodable()
    ensures
        encodable::<u8>(),
{
    encodable_by(|x: u8| Code::Int(x as int));
}

/// Every `u16` is its own number.
pub proof fn u16_is_encodable()
    ensures
        encodable::<u16>(),
{
    encodable_by(|x: u16| Code::Int(x as int));
}

/// Every `u32` is its own number.
pub proof fn u32_is_encodable()
    ensures
        encodable::<u32>(),
{
    encodable_by(|x: u32| Code::Int(x as int));
}

/// Every `u64` is its own number.
pub proof fn u64_is_encodable()
    ensures
        encodable::<u64>(),
{
    encodable_by(|x: u64| Code::Int(x as int));
}

/// Every `u128` is its own number.
pub proof fn u128_is_encodable()
    ensures
        encodable::<u128>(),
{
    encodable_by(|x: u128| Code::Int(x as int));
}

/// Every `usize` is its own number.
pub proof fn usize_is_encodable()
    ensures
        encodable::<usize>(),
{
    encodable_by(|x: usize| Code::Int(x as int));
}

/// Every `i8` is its own number.
pub proof fn i8_is_encodable()
    ensures
        encodable::<i8>(),
{
    encodable_by(|x: i8| Code::Int(x as int));
}

/// Every `i16` is its own number.
pub proof fn i16_is_encodable()
    ensures
        encodable::<i16>(),
{
    encodable_by(|x: i16| Code::Int(x as int));
}

/// Every `i32` is its own number.
pub proof fn i32_is_encodable()
    ensures
        encodable::<i32>(),
{
    encodable_by(|x: i32| Code::Int(x as int));
}

/// Every `i64` is its own number.
pub proof fn i64_is_encodable()
    ensures
        encodable::<i64>(),
{
    encodable_by(|x: i64| Code::Int(x as int));
}

/// Every `i128` is its own number.
pub proof fn i128_is_encodable()
    ensures
        encodable::<i128>(),
{
    encodable_by(|x: i128| Code::Int(x as int));
}

/// Every `isize` is its own number.
pub proof fn isize_is_encodable()
    ensures
        encodable::<isize>(),
{
    encodable_by(|x: isize| Code::Int(x as int));
}

/// `false` is 0 and `true` is 1.
pub proof fn bool_is_encodable()
    ensures
        encodable::<bool>(),
{
    encodable_by(
        |x: bool|
            Code::Int(
                if x {
                    1
                } else {
                    0
                },
            ),
    );
}

/// Every `char` is its own number.
pub proof fn char_is_encodable()
    ensures
        encodable::<char>(),
{
    encodable_by(|x: char| Code::Int(x as int));
}

/// The one value of `()` has the empty row.
pub proof fn unit_is_encodable()
    ensures
        encodable::<()>(),
{
    encodable_by(|x: ()| Code::Row(Seq::empty()));
}

/// Every `String` is its own text.
pub proof fn string_is_encodable()
    ensures
        encodable::<String>(),
{
    encodable_by(|x: String| Code::Text(x));
}

/// Every handle has a code of its own, so a handle may hold handles and its contracts
/// still follow them.
pub proof fn handle_is_encodable()
    ensures
        encodable::<ArcK>(),
{
    let code = |k: ArcK| k.code();
    assert forall|a: ArcK, b: ArcK| #[trigger] code(a) == #[trigger] code(b) implies a == b by {
        ArcK::code_is_its_own(a, b);
    }
    encodable_by(code);
}

/// A box is encoded as what it holds.
pub proof fn box_is_encodable<T>()
    requires
        encodable::<T>(),
    ensures
        encodable::<Box<T>>(),
{
    let inner = choose|c: spec_fn(T) -> Code| encodes(c);
    encodable_by(|x: Box<T>| inner(*x));
}

/// A pair is encoded as the row of its two parts.
pub proof fn pair_is_encodable<A, B>()
    requires
        encodable::<A>(),
        encodable::<B>(),
    ensures
        encodable::<(A, B)>(),
{
    let first = choose|c: spec_fn(A) -> Code| encodes(c);
    let second = choose|c: spec_fn(B) -> Code| encodes(c);
    let code = |p: (A, B)| Code::Row(seq![first(p.0), second(p.1)]);
    assert forall|x: (A, B), y: (A, B)| #[trigger] code(x) == #[trigger] code(y) implies x
        == y by {
        let rx = seq![first(x.0), second(x.1)];
        let ry = seq![first(y.0), second(y.1)];
        assert(rx == ry);
        assert(rx[0] == ry[0]);
        assert(rx[1] == ry[1]);
    }
    encodable_by(code);
}

/// An option is encoded as the empty row, or as the row of what it holds.
pub proof fn option_is_encodable<T>()
    requires
        encodable::<T>(),
    ensures
        encodable::<Option<T>>(),
{
    let inner = choose|c: spec_fn(T) -> Code| encodes(c);
    let code = |o: Option<T>|
        match o {
            Some(x) => Code::Row(seq![inner(x)]),
            None => Code::Row(Seq::empty()),
        };
    assert forall|x: Option<T>, y: Option<T>| #[trigger] code(x) == #[trigger] code(y) implies x
        == y by {
        match (x, y) {
            (Some(a), Some(b)) => {
                let ra = seq![inner(a)];
                let rb = seq![inner(b)];
                assert(ra == rb);
                assert(ra[0] == rb[0]);
            },
            (Some(a), None) => {
                assert(seq![inner(a)].len() == 1);
            },
            (None, Some(b)) => {
                assert(seq![inner(b)].len() == 1);
            },
            (None, None) => {},
        }
    }
    encodable_by(code);
}

} // verus!
