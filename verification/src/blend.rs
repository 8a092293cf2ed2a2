//! Blend factors.

use vstd::prelude::*;
use crate::codes;

verus! {

/// A weight applied to the source or destination colour when blending.
#[derive(Clone, Copy, Debug, PartialEq, Eq, Structural)]
pub enum BlendFactor {
    ConstantAlpha,
    ConstantColor,
    DestinationAlpha,
    DestinationColor,
    OneMinusConstantAlpha,
    OneMinusConstantColor,
    OneMinusDestinationAlpha,
    OneMinusDestinationColor,
    OneMinusSourceAlpha,
    OneMinusSourceColor,
    SourceAlpha,
    SourceColor,
}

impl BlendFactor {
    /// The device's number for this factor.
    pub open spec fn code(self) -> u32 {
        match self {
            BlendFactor::ConstantAlpha => codes::CONSTANT_ALPHA,
            BlendFactor::ConstantColor => codes::CONSTANT_COLOR,
            BlendFactor::DestinationAlpha => codes::DST_ALPHA,
            BlendFactor::DestinationColor => codes::DST_COLOR,
            BlendFactor::OneMinusConstantAlpha => codes::ONE_MINUS_CONSTANT_ALPHA,
            BlendFactor::OneMinusConstantColor => codes::ONE_MINUS_CONSTANT_COLOR,
            BlendFactor::OneMinusDestinationAlpha => codes::ONE_MINUS_DST_ALPHA,
            BlendFactor::OneMinusDestinationColor => codes::ONE_MINUS_DST_COLOR,
            BlendFactor::OneMinusSourceAlpha => codes::ONE_MINUS_SRC_ALPHA,
            BlendFactor::OneMinusSourceColor => codes::ONE_MINUS_SRC_COLOR,
            BlendFactor::SourceAlpha => codes::SRC_ALPHA,
            BlendFactor::SourceColor => codes::SRC_COLOR,
        }
    }

    pub fn to_gl(&self) -> (r: u32)
        ensures
            r == self.code(),
    {
        match self {
            BlendFactor::ConstantAlpha => codes::CONSTANT_ALPHA,
            BlendFactor::ConstantColor => codes::CONSTANT_COLOR,
            BlendFactor::DestinationAlpha => codes::DST_ALPHA,
            BlendFactor::DestinationColor => codes::DST_COLOR,
            BlendFactor::OneMinusConstantAlpha => codes::ONE_MINUS_CONSTANT_ALPHA,
            BlendFactor::OneMinusConstantColor => codes::ONE_MINUS_CONSTANT_COLOR,
            BlendFactor::OneMinusDestinationAlpha => codes::ONE_MINUS_DST_ALPHA,
            BlendFactor::OneMinusDestinationColor => codes::ONE_MINUS_DST_COLOR,
            BlendFactor::OneMinusSourceAlpha => codes::ONE_MINUS_SRC_ALPHA,
            BlendFactor::OneMinusSourceColor => codes::ONE_MINUS_SRC_COLOR,
            BlendFactor::SourceAlpha => codes::SRC_ALPHA,
            BlendFactor::SourceColor => codes::SRC_COLOR,
        }
    }
}

/// No two blend factors share a number.
pub proof fn blend_factor_codes_distinct(a: BlendFactor, b: BlendFactor)
    ensures
        a.code() == b.code() <==> a == b,
{
}

} // verus!
