//! Device-assigned object names.

use vstd::prelude::*;

verus! {

/// The name the device gave to one of its objects (a buffer, a texture, a
/// program, a shader stage or a vertex array).
///
/// The device never hands out zero: zero is its way of saying "no object".
/// A `NativeHandle` therefore always holds a non-zero number, and "no object"
/// is written `None` wherever an optional handle is expected.
#[derive(Clone, Copy, Debug, PartialEq, Eq, Hash, Structural)]
pub struct NativeHandle {
    id: u32,
}

impl NativeHandle {
    #[verifier::type_invariant]
    spec fn nonzero(self) -> bool {
        self.id != 0
    }

    /// The number behind the handle.
    pub closed spec fn raw(self) -> u32 {
        self.id
    }

    /// Wraps a number reported by the device. Zero names no object and is
    /// refused.
    pub fn new(id: u32) -> (r: Option<NativeHandle>)
        ensures
            r is Some <==> id != 0,
            r matches Some(h) ==> h.raw() == id,
    {
        if id == 0 {
            None
        } else {
            Some(NativeHandle { id })
        }
    }

    /// The number to pass back to the device; never zero.
    pub fn get(&self) -> (r: u32)
        ensures
            r == self.raw(),
            r != 0,
    {
        proof {
            use_type_invariant(self);
        }
        self.id
    }
}

/// Two handles are the same handle exactly when their numbers agree.
pub proof fn handle_determined_by_raw(a: NativeHandle, b: NativeHandle)
    ensures
        a == b <==> a.raw() == b.raw(),
{
}

} // verus!
