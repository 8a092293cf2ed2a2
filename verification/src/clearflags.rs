//! The set of framebuffer targets a clear touches.

use vstd::prelude::*;
use crate::codes;

verus! {

/// A set drawn from the three clear targets: colour, depth and stencil.
///
/// The set is kept as the device's own bit mask, so `bits` costs nothing.
/// No bit outside the three target bits is ever set.
#[derive(Clone, Copy, Debug, PartialEq, Eq, Hash)]
pub struct ClearFlags {
    bits: u32,
}

/// The union of the three target bits.
pub const CLEAR_ALL_BITS: u32 = 0x0000_4500;

impl ClearFlags {
    #[verifier::type_invariant]
    spec fn only_target_bits(self) -> bool {
        self.bits & !CLEAR_ALL_BITS == 0
    }

    /// The mask as the device reads it.
    pub closed spec fn mask(self) -> u32 {
        self.bits
    }

    /// Whether the colour buffer is in the set.
    pub open spec fn has_color(self) -> bool {
        self.mask() & codes::COLOR_BUFFER_BIT != 0
    }

    /// Whether the depth buffer is in the set.
    pub open spec fn has_depth(self) -> bool {
        self.mask() & codes::DEPTH_BUFFER_BIT != 0
    }

    /// Whether the stencil buffer is in the set.
    pub open spec fn has_stencil(self) -> bool {
        self.mask() & codes::STENCIL_BUFFER_BIT != 0
    }

    /// The colour buffer alone.
    pub fn color() -> (r: ClearFlags)
        ensures
            r.mask() == codes::COLOR_BUFFER_BIT,
    {
        assert(0x4000u32 & !0x4500u32 == 0) by (bit_vector);
        ClearFlags { bits: codes::COLOR_BUFFER_BIT }
    }

    /// The depth buffer alone.
    pub fn depth() -> (r: ClearFlags)
        ensures
            r.mask() == codes::DEPTH_BUFFER_BIT,
    {
        assert(0x0100u32 & !0x4500u32 == 0) by (bit_vector);
        ClearFlags { bits: codes::DEPTH_BUFFER_BIT }
    }

    /// The stencil buffer alone.
    pub fn stencil() -> (r: ClearFlags)
        ensures
            r.mask() == codes::STENCIL_BUFFER_BIT,
    {
        assert(0x0400u32 & !0x4500u32 == 0) by (bit_vector);
        ClearFlags { bits: codes::STENCIL_BUFFER_BIT }
    }

    /// No target at all.
    pub fn empty() -> (r: ClearFlags)
        ensures
            r.mask() == 0,
    {
        assert(0u32 & !0x4500u32 == 0) by (bit_vector);
        ClearFlags { bits: 0 }
    }

    /// All three targets.
    pub fn all() -> (r: ClearFlags)
        ensures
            r.mask() == CLEAR_ALL_BITS,
    {
        assert(0x4500u32 & !0x4500u32 == 0) by (bit_vector);
        ClearFlags { bits: CLEAR_ALL_BITS }
    }

    /// The mask to hand to the device.
    pub fn bits(&self) -> (r: u32)
        ensures
            r == self.mask(),
            r & !CLEAR_ALL_BITS == 0,
    {
        proof {
            use_type_invariant(self);
        }
        self.bits
    }

    /// Reads a mask back; a mask with any other bit set names no set.
    pub fn from_bits(bits: u32) -> (r: Option<ClearFlags>)
        ensures
            r is Some <==> bits & !CLEAR_ALL_BITS == 0,
            r matches Some(f) ==> f.mask() == bits,
    {
        if bits & !CLEAR_ALL_BITS == 0 {
            Some(ClearFlags { bits })
        } else {
            None
        }
    }

    /// Reads a mask back, dropping every bit that is not a target.
    pub fn from_bits_truncate(bits: u32) -> (r: ClearFlags)
        ensures
            r.mask() == bits & CLEAR_ALL_BITS,
    {
        assert((bits & 0x4500u32) & !0x4500u32 == 0) by (bit_vector);
        ClearFlags { bits: bits & CLEAR_ALL_BITS }
    }

    pub fn is_empty(&self) -> (r: bool)
        ensures
            r == (self.mask() == 0),
    {
        self.bits == 0
    }

    /// Whether every target of `other` is also in `self`.
    pub fn contains(&self, other: ClearFlags) -> (r: bool)
        ensures
            r == (self.mask() & other.mask() == other.mask()),
    {
        self.bits & other.bits == other.bits
    }

    /// The targets in either set.
    pub fn union(self, other: ClearFlags) -> (r: ClearFlags)
        ensures
            r.mask() == self.mask() | other.mask(),
    {
        proof {
            use_type_invariant(self);
            use_type_invariant(other);
        }
        let a = self.bits;
        let b = other.bits;
        assert((a | b) & !0x4500u32 == 0) by (bit_vector)
            requires
                a & !0x4500u32 == 0,
                b & !0x4500u32 == 0,
        ;
        ClearFlags { bits: a | b }
    }

    /// The targets in both sets.
    pub fn intersection(self, other: ClearFlags) -> (r: ClearFlags)
        ensures
            r.mask() == self.mask() & other.mask(),
    {
        proof {
            use_type_invariant(self);
        }
        let a = self.bits;
        let b = other.bits;
        assert((a & b) & !0x4500u32 == 0) by (bit_vector)
            requires
                a & !0x4500u32 == 0,
        ;
        ClearFlags { bits: a & b }
    }

    /// The targets of `self` that are not in `other`.
    pub fn difference(self, other: ClearFlags) -> (r: ClearFlags)
        ensures
            r.mask() == self.mask() & !other.mask(),
    {
        proof {
            use_type_invariant(self);
        }
        let a = self.bits;
        let b = other.bits;
        assert((a & !b) & !0x4500u32 == 0) by (bit_vector)
            requires
                a & !0x4500u32 == 0,
        ;
        ClearFlags { bits: a & !b }
    }
}

/// A union holds a target exactly when one of its operands does.
pub proof fn union_holds_either(a: ClearFlags, b: ClearFlags, r: ClearFlags)
    requires
        r.mask() == a.mask() | b.mask(),
    ensures
        r.has_color() == (a.has_color() || b.has_color()),
        r.has_depth() == (a.has_depth() || b.has_depth()),
        r.has_stencil() == (a.has_stencil() || b.has_stencil()),
{
    let x = a.mask();
    let y = b.mask();
    assert(((x | y) & 0x4000u32 != 0) == ((x & 0x4000u32 != 0) || (y & 0x4000u32 != 0)))
        by (bit_vector);
    assert(((x | y) & 0x0100u32 != 0) == ((x & 0x0100u32 != 0) || (y & 0x0100u32 != 0)))
        by (bit_vector);
    assert(((x | y) & 0x0400u32 != 0) == ((x & 0x0400u32 != 0) || (y & 0x0400u32 != 0)))
        by (bit_vector);
}

/// The three single-target sets hold their own target and no other.
pub proof fn single_targets_are_disjoint(c: ClearFlags, d: ClearFlags, s: ClearFlags)
    requires
        c.mask() == codes::COLOR_BUFFER_BIT,
        d.mask() == codes::DEPTH_BUFFER_BIT,
        s.mask() == codes::STENCIL_BUFFER_BIT,
    ensures
        c.has_color() && !c.has_depth() && !c.has_stencil(),
        !d.has_color() && d.has_depth() && !d.has_stencil(),
        !s.has_color() && !s.has_depth() && s.has_stencil(),
{
    assert(0x4000u32 & 0x4000u32 != 0 && 0x4000u32 & 0x0100u32 == 0 && 0x4000u32 & 0x0400u32 == 0)
        by (bit_vector);
    assert(0x0100u32 & 0x4000u32 == 0 && 0x0100u32 & 0x0100u32 != 0 && 0x0100u32 & 0x0400u32 == 0)
        by (bit_vector);
    assert(0x0400u32 & 0x4000u32 == 0 && 0x0400u32 & 0x0100u32 == 0 && 0x0400u32 & 0x0400u32 != 0)
        by (bit_vector);
}

} // verus!
