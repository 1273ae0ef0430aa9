//! Names of GPU objects.

use vstd::prelude::*;

verus! {

/// Name of a GPU object as the driver hands it out. Zero names no object, so
/// a `Handle` never holds it.
#[derive(Clone, Copy, Debug, PartialEq, Eq, Structural)]
pub struct Handle {
    raw: u32,
}

impl Handle {
    #[verifier::type_invariant]
    spec fn names_an_object(self) -> bool {
        self.raw != 0
    }

    /// The driver's number for the object.
    pub closed spec fn id(self) -> u32 {
        self.raw
    }

    /// Wraps a driver name; `None` for zero.
    pub fn new(raw: u32) -> (r: Option<Handle>)
        ensures
            raw == 0 <==> r is None,
            r matches Some(h) ==> h.id() == raw,
    {
        if raw == 0 {
            None
        } else {
            Some(Handle { raw })
        }
    }

    /// The driver's number for the object, never zero.
    pub fn raw(&self) -> (r: u32)
        ensures
            r == self.id(),
            r != 0,
    {
        proof {
            use_type_invariant(self);
        }
        self.raw
    }
}

} // verus!
