//! The kind whose handles share their allocation through the atomic count of
//! `std::sync::Arc`, and may be cloned and dropped on different threads.
//!
//! The payload's type is kept beside the pointer and tested on every operation, so a
//! handle costs one more allocation than a bare `Arc<T>` and one type test per call.
//! In exchange nothing here reinterprets memory. A verified caller that names the
//! wrong type, or uses a handle after [`SharedPointerKind::drop`], breaks a
//! precondition and is told so by the verifier; a caller that is not verified stops
//! with a panic, and never reads a payload as something it is not.
//!
//! A handle that leaves its scope keeps its share of the allocation counted, as a
//! handle over a bare pointer would: only [`SharedPointerKind::drop`] and an unwrapping
//! that succeeds give the share up.
//!
//! A handle keeps the address of its payload beside the pointer, so that two handles
//! can be compared where no payload type is at hand. A handle counts as live while it
//! has its pointer and the address kept is the pointer's own; every operation that
//! makes a handle makes such a one, and every operation that changes one keeps it so.

use crate::block::block_addr;
use crate::block::block_content;
use crate::block::Block;
use crate::kind::Code;
use crate::kind::HandleView;
use crate::kind::SharedPointerKind;
use vstd::prelude::*;

verus! {

/// A handle to a value behind the atomic reference count of `std::sync::Arc`, in a type
/// that does not name the value's type.
pub struct ArcK {
    /// The pointer, until the handle gives up its share.
    block: Option<Block>,
    /// The address that the pointer points to, while there is one; 0 afterwards.
    addr: usize,
}

impl ArcK {
    /// What equality compares: the address kept beside the pointer while the handle is
    /// live, nothing once it has given up its share.
    pub closed spec fn key(&self) -> Option<usize> {
        match self.block {
            Some(_) => Some(self.addr),
            None => None,
        }
    }

    /// A code of its own for every handle: its block and the address kept beside it.
    pub closed spec fn code(self) -> Code {
        match self.block {
            Some(b) => Code::Row(seq![Code::Shared(b), Code::Int(self.addr as int)]),
            None => Code::Row(seq![Code::Int(self.addr as int)]),
        }
    }

    /// What equality compares is the identity of the allocation: for a live handle the
    /// address of its payload, for a dropped one nothing.
    pub proof fn key_is_identity(self)
        requires
            self@.live || self.key() is None,
        ensures
            self.key() == self@.identity(),
    {
    }

    /// Handles of different values have different codes.
    pub proof fn code_is_its_own(a: ArcK, b: ArcK)
        requires
            a.code() == b.code(),
        ensures
            a == b,
    {
        let ca = a.code()->Row_0;
        let cb = b.code()->Row_0;
        assert(ca == cb);
        assert(ca.len() == cb.len());
        match (a.block, b.block) {
            (Some(x), Some(y)) => {
                assert(ca[0] == cb[0]);
                assert(ca[1] == cb[1]);
            },
            (None, None) => {
                assert(ca[0] == cb[0]);
            },
            _ => {},
        }
    }
}

impl View for ArcK {
    type V = HandleView;

    closed spec fn view(&self) -> HandleView {
        match self.block {
            Some(b) if self.addr == block_addr(b) => HandleView {
                live: true,
                addr: self.addr,
                content: block_content(b),
            },
            _ => HandleView { live: false, addr: 0, content: Code::Int(0) },
        }
    }
}

/// Every operation hands the block to the function of `std::sync::Arc` of the same
/// name, and is proved to keep what the capability contract promises for it. A handle
/// that has been dropped has no block left; the preconditions rule it out.
impl SharedPointerKind for ArcK {
    fn new<T: Send + Sync + 'static>(v: T) -> (k: ArcK) {
        let block = Block::new(v);
        let addr = block.as_ptr::<T>();
        ArcK { block: Some(block), addr }
    }

    fn from_box<T: Send + Sync + 'static>(v: Box<T>) -> (k: ArcK) {
        let block = Block::from_box(v);
        let addr = block.as_ptr::<T>();
        ArcK { block: Some(block), addr }
    }

    fn as_ptr<T: Send + Sync + 'static>(&self) -> (a: usize) {
        match &self.block {
            Some(b) => b.as_ptr::<T>(),
            None => unreached(),
        }
    }

    fn deref<T: Send + Sync + 'static>(&self) -> (r: &T) {
        match &self.block {
            Some(b) => b.deref::<T>(),
            None => unreached(),
        }
    }

    fn try_unwrap<T: Send + Sync + 'static>(self) -> (r: Result<T, ArcK>) {
        let addr = self.addr;
        match self.block {
            Some(b) => match b.try_unwrap::<T>() {
                Ok(v) => Ok(v),
                Err(b) => Err(ArcK { block: Some(b), addr }),
            },
            None => unreached(),
        }
    }

    fn get_mut<T: Send + Sync + 'static>(&mut self) -> (r: Option<&mut T>) {
        match &mut self.block {
            Some(b) => b.get_mut::<T>(),
            None => unreached(),
        }
    }

    fn make_mut<T: Clone + Send + Sync + 'static>(&mut self) -> (r: &mut T) {
        match &mut self.block {
            Some(b) => {
                let out = b.make_mut::<T>();
                self.addr = out.0;
                out.1
            },
            None => unreached(),
        }
    }

    fn strong_count<T: Send + Sync + 'static>(&self) -> (n: usize) {
        match &self.block {
            Some(b) => b.strong_count::<T>(),
            None => unreached(),
        }
    }

    fn clone<T: Send + Sync + 'static>(&self) -> (k: ArcK) {
        match &self.block {
            Some(b) => ArcK { block: Some(b.duplicate::<T>()), addr: self.addr },
            None => unreached(),
        }
    }

    fn drop<T: Send + Sync + 'static>(&mut self) {
        match self.block.take() {
            Some(b) => b.release::<T>(),
            None => unreached(),
        }
        self.addr = 0;
    }
}

impl ArcK {
    /// Whether the handle still owns its share: true from its making until it is
    /// dropped.
    pub fn is_live(&self) -> (r: bool)
        ensures
            r == (self.key() is Some),
            self@.live ==> r,
    {
        self.block.is_some()
    }

    /// What a debug print shows: the name of the kind, and nothing of the payload.
    pub fn fmt(&self) -> (s: String)
        ensures
            s@ == "ArcK"@,
    {
        "ArcK".to_owned()
    }
}

/// Two handles are equal where they point to the same allocation, whatever it holds;
/// handles that have been dropped point nowhere and are equal to each other only.
impl PartialEq for ArcK {
    fn eq(&self, other: &Self) -> (r: bool) {
        match (&self.block, &other.block) {
            (Some(_), Some(_)) => self.addr == other.addr,
            (None, None) => true,
            _ => false,
        }
    }
}

impl vstd::std_specs::cmp::PartialEqSpecImpl for ArcK {
    open spec fn obeys_eq_spec() -> bool {
        true
    }

    open spec fn eq_spec(&self, other: &Self) -> bool {
        self.key() == other.key()
    }
}

impl Eq for ArcK {

}

} // verus!
