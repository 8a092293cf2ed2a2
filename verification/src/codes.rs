//! Numeric codes of the device interface.
//!
//! The device identifies capabilities, binding points, data types, formats and
//! primitive modes by fixed 32-bit numbers. Every number this crate ever hands
//! to the device is named here once; the typed enums elsewhere map onto these
//! names and nothing else.

use vstd::prelude::*;

verus! {

// Capabilities toggled with `Enable` / `Disable`.
pub const BLEND: u32 = 0x0BE2;
pub const DEPTH_TEST: u32 = 0x0B71;
pub const SCISSOR_TEST: u32 = 0x0C11;
pub const STENCIL_TEST: u32 = 0x0B90;

// Polygon faces.
pub const FRONT: u32 = 0x0404;
pub const BACK: u32 = 0x0405;

// Buffer binding points.
pub const ARRAY_BUFFER: u32 = 0x8892;
pub const ELEMENT_ARRAY_BUFFER: u32 = 0x8893;

// Buffer usage hints.
pub const STATIC_DRAW: u32 = 0x88E4;
pub const DYNAMIC_DRAW: u32 = 0x88E8;
pub const STREAM_DRAW: u32 = 0x88E0;

// Element and component types.
pub const BYTE: u32 = 0x1400;
pub const UNSIGNED_BYTE: u32 = 0x1401;
pub const SHORT: u32 = 0x1402;
pub const UNSIGNED_SHORT: u32 = 0x1403;
pub const INT: u32 = 0x1404;
pub const UNSIGNED_INT: u32 = 0x1405;
pub const FLOAT: u32 = 0x1406;
pub const DOUBLE: u32 = 0x140A;
pub const HALF_FLOAT: u32 = 0x140B;
pub const FIXED: u32 = 0x140C;

// Primitive modes.
pub const POINTS: u32 = 0x0000;
pub const LINES: u32 = 0x0001;
pub const TRIANGLES: u32 = 0x0004;
pub const TRIANGLE_STRIP: u32 = 0x0005;
pub const TRIANGLE_FAN: u32 = 0x0006;

// Clear targets.
pub const COLOR_BUFFER_BIT: u32 = 0x0000_4000;
pub const DEPTH_BUFFER_BIT: u32 = 0x0000_0100;
pub const STENCIL_BUFFER_BIT: u32 = 0x0000_0400;

// Blend factors.
pub const BLEND_ZERO: u32 = 0;
pub const BLEND_ONE: u32 = 1;
pub const SRC_COLOR: u32 = 0x0300;
pub const ONE_MINUS_SRC_COLOR: u32 = 0x0301;
pub const SRC_ALPHA: u32 = 0x0302;
pub const ONE_MINUS_SRC_ALPHA: u32 = 0x0303;
pub const DST_ALPHA: u32 = 0x0304;
pub const ONE_MINUS_DST_ALPHA: u32 = 0x0305;
pub const DST_COLOR: u32 = 0x0306;
pub const ONE_MINUS_DST_COLOR: u32 = 0x0307;
pub const CONSTANT_COLOR: u32 = 0x8001;
pub const ONE_MINUS_CONSTANT_COLOR: u32 = 0x8002;
pub const CONSTANT_ALPHA: u32 = 0x8003;
pub const ONE_MINUS_CONSTANT_ALPHA: u32 = 0x8004;

// Stencil comparison functions.
pub const NEVER: u32 = 0x0200;
pub const LESS: u32 = 0x0201;
pub const EQUAL: u32 = 0x0202;
pub const LEQUAL: u32 = 0x0203;
pub const GREATER: u32 = 0x0204;
pub const NOTEQUAL: u32 = 0x0205;
pub const GEQUAL: u32 = 0x0206;
pub const ALWAYS: u32 = 0x0207;

// Stencil operations.
pub const STENCIL_ZERO: u32 = 0;
pub const KEEP: u32 = 0x1E00;
pub const REPLACE: u32 = 0x1E01;
pub const INCR: u32 = 0x1E02;
pub const DECR: u32 = 0x1E03;
pub const INVERT: u32 = 0x150A;
pub const INCR_WRAP: u32 = 0x8507;
pub const DECR_WRAP: u32 = 0x8508;

// Shader stages.
pub const FRAGMENT_SHADER: u32 = 0x8B30;
pub const VERTEX_SHADER: u32 = 0x8B31;

// Texture targets, units and sampler parameters.
pub const TEXTURE_2D: u32 = 0x0DE1;
pub const TEXTURE0: u32 = 0x84C0;
pub const TEXTURE_BORDER_COLOR: u32 = 0x1004;
pub const TEXTURE_MAG_FILTER: u32 = 0x2800;
pub const TEXTURE_MIN_FILTER: u32 = 0x2801;
pub const TEXTURE_WRAP_S: u32 = 0x2802;
pub const TEXTURE_WRAP_T: u32 = 0x2803;

// Texture wrapping and filtering modes.
pub const MIRRORED_REPEAT: u32 = 0x8370;
pub const CLAMP_TO_BORDER: u32 = 0x812D;
pub const NEAREST: u32 = 0x2600;
pub const LINEAR: u32 = 0x2601;
pub const NEAREST_MIPMAP_NEAREST: u32 = 0x2700;

// Pixel formats, sized and unsized.
pub const RED: u32 = 0x1903;
pub const GREEN: u32 = 0x1904;
pub const BLUE: u32 = 0x1905;
pub const ALPHA: u32 = 0x1906;
pub const RGB: u32 = 0x1907;
pub const RGBA: u32 = 0x1908;
pub const LUMINANCE: u32 = 0x1909;
pub const LUMINANCE_ALPHA: u32 = 0x190A;
pub const R3_G3_B2: u32 = 0x2A10;
pub const RGB4: u32 = 0x804F;
pub const RGB5: u32 = 0x8050;
pub const RGB8: u32 = 0x8051;
pub const RGB10: u32 = 0x8052;
pub const RGB12: u32 = 0x8053;
pub const RGB16: u32 = 0x8054;
pub const RGBA2: u32 = 0x8055;
pub const RGBA4: u32 = 0x8056;
pub const RGB5_A1: u32 = 0x8057;
pub const RGBA8: u32 = 0x8058;
pub const RGB10_A2: u32 = 0x8059;
pub const RGBA12: u32 = 0x805A;
pub const RGBA16: u32 = 0x805B;

/// Number of texture units the state shadow tracks.
pub const TEXTURE_UNITS: u32 = 16;

} // verus!
