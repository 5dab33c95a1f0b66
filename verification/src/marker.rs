//! What the handle answers to a deserializer.
//!
//! A handle has no state of its own to store: what is written for it is the unit
//! marker, and the payload is the business of whoever owns the handle. Reading data
//! back never makes a handle, because the sharing between handles cannot be rebuilt
//! from a unit. This is meant to stay so.

use crate::arc::ArcK;
use vstd::prelude::*;

verus! {

/// The refusal that every attempt to read a handle from data ends in.
#[derive(Debug, Clone, Copy, PartialEq, Eq)]
pub struct NotDeserializable;

impl NotDeserializable {
    /// The words of the refusal, to be reported as what was expected in place of a
    /// unit. They name the single-threaded kind, whose marker is refused in the same
    /// words.
    pub fn expected(&self) -> (s: String)
        ensures
            s@ == "RcK should not be deserialized"@,
    {
        "RcK should not be deserialized".to_owned()
    }
}

impl ArcK {
    /// Answers what a reader found where a handle was written: the unit marker, or
    /// nothing that reads as one. Neither gives a handle: the result is the refusal,
    /// whatever was found.
    pub fn deserialize(found: Option<()>) -> (r: Result<ArcK, NotDeserializable>)
        ensures
            r == Err::<ArcK, NotDeserializable>(NotDeserializable),
    {
        match found {
            Some(()) => Err(NotDeserializable),
            None => Err(NotDeserializable),
        }
    }
}

} // verus!
