//! Reference-counted pointer kinds whose type does not name the payload.
//!
//! A data structure that is generic over how its nodes are shared wants to hold "a
//! reference-counted pointer to something" without the something appearing in the
//! pointer's type. A kind is such a pointer type: one type, of one size, for every
//! payload. Each operation names the payload type again, and must name the type that
//! the handle was made for.
//!
//! - [`kind`] is the capability contract: the operations of a kind and what each
//!   promises.
//! - [`arc`] is the kind that counts atomically, as `std::sync::Arc` does, proved to
//!   meet the contract.
//! - [`laws`] states what holds across several operations, for every kind.
//! - [`encodable`] shows for which payload types a contract follows the payload into a
//!   handle and out again.
//! - [`marker`] is what a handle answers to a deserializer.
//! - `block` is the boundary to `std::sync::Arc`; what is trusted is written there.

pub mod arc;
mod block;
pub mod encodable;
pub mod kind;
pub mod laws;
pub mod marker;

pub use crate::arc::ArcK;
pub use crate::kind::SharedPointerKind;
pub use crate::marker::NotDeserializable;
