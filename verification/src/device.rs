//! The vocabulary in which the library speaks to the device.

use vstd::prelude::*;
use crate::handle::NativeHandle;

verus! {

/// The payload of a uniform assignment.
///
/// Floating-point components travel as their IEEE-754 bit patterns: the
/// library never computes with them, it only passes them on.
#[allow(inconsistent_fields)]
#[derive(Clone, Copy, Debug, PartialEq, Eq)]
pub enum UniformValue {
    Float1 { x: u32 },
    Float2 { x: u32, y: u32 },
    Float3 { x: u32, y: u32, z: u32 },
    Float4 { x: u32, y: u32, z: u32, w: u32 },
    Int1 { x: i32 },
    Int2 { x: i32, y: i32 },
    Int3 { x: i32, y: i32, z: i32 },
    Int4 { x: i32, y: i32, z: i32, w: i32 },
    /// A 2 by 2 matrix, four components.
    Matrix2 { transpose: bool, components: [u32; 4] },
    /// A 3 by 3 matrix, nine components.
    Matrix3 { transpose: bool, components: [u32; 9] },
    /// A 4 by 4 matrix, sixteen components.
    Matrix4 { transpose: bool, components: [u32; 16] },
}

/// What the device answered when a uniform was looked up by name.
#[derive(Clone, Copy, Debug, PartialEq, Eq)]
pub struct UniformLookup {
    /// The program the name was looked up in.
    pub program: NativeHandle,
    /// Where the uniform is; `None` when the program has none of that name.
    pub location: Option<u32>,
}

/// One call on the device, with every argument it takes.
///
/// Calls are values: an operation of this library returns the calls it has
/// decided on, and whoever holds the device issues them, at once and in the
/// order given. Byte and text payloads are borrowed from the caller of the
/// operation that produced the call.
#[allow(inconsistent_fields)]
#[derive(Clone, Copy, Debug, PartialEq, Eq)]
pub enum DeviceCall<'a> {
    Enable { capability: u32 },
    Disable { capability: u32 },
    BlendFunc { src: u32, dst: u32 },
    ColorMask { red: bool, green: bool, blue: bool, alpha: bool },
    DepthMask { enabled: bool },
    StencilMaskSeparate { face: u32, mask: u32 },
    StencilFuncSeparate { face: u32, func: u32, reference: i32, mask: u32 },
    StencilOpSeparate { face: u32, stencil_fail: u32, depth_fail: u32, pass: u32 },
    /// Red, green, blue and alpha as IEEE-754 bit patterns.
    ClearColor { red: u32, green: u32, blue: u32, alpha: u32 },
    /// The depth as an IEEE-754 bit pattern.
    ClearDepth { depth: u32 },
    ClearStencil { stencil: i32 },
    Clear { mask: u32 },
    Viewport { x: i32, y: i32, width: i32, height: i32 },
    Scissor { x: i32, y: i32, width: i32, height: i32 },
    UseProgram { program: Option<NativeHandle> },
    Uniform { location: u32, value: UniformValue },
    BindVertexArray { vertex_array: Option<NativeHandle> },
    DeleteVertexArray { vertex_array: NativeHandle },
    EnableVertexAttribArray { index: u32 },
    DisableVertexAttribArray { index: u32 },
    VertexAttribPointer {
        index: u32,
        size: i32,
        data_type: u32,
        normalized: bool,
        stride: i32,
        offset: i32,
    },
    /// How often attribute `index` steps to its next value: once in
    /// `divisor` instances, or, with a divisor of zero, once a vertex.
    VertexAttribDivisor { index: u32, divisor: u32 },
    BindBuffer { target: u32, buffer: Option<NativeHandle> },
    BufferData { target: u32, data: &'a [u8], usage: u32 },
    BufferSubData { target: u32, offset: i32, data: &'a [u8] },
    DeleteBuffer { buffer: NativeHandle },
    DrawArrays { mode: u32, first: i32, count: i32 },
    DrawArraysInstanced { mode: u32, first: i32, count: i32, instance_count: i32 },
    DrawElements { mode: u32, count: i32, element_type: u32, offset: i32 },
    DrawElementsInstanced {
        mode: u32,
        count: i32,
        element_type: u32,
        offset: i32,
        instance_count: i32,
    },
    ActiveTexture { unit: u32 },
    BindTexture { target: u32, texture: Option<NativeHandle> },
    TexParameterI32 { target: u32, parameter: u32, value: i32 },
    /// Four components as IEEE-754 bit patterns.
    TexParameterF32 { target: u32, parameter: u32, values: [u32; 4] },
    TexImage2D {
        target: u32,
        level: i32,
        internal_format: i32,
        width: i32,
        height: i32,
        border: i32,
        format: u32,
        ty: u32,
        pixels: Option<&'a [u8]>,
    },
    TexSubImage2D {
        target: u32,
        level: i32,
        x_offset: i32,
        y_offset: i32,
        width: i32,
        height: i32,
        format: u32,
        ty: u32,
        pixels: &'a [u8],
    },
    GenerateMipmap { target: u32 },
    DeleteTexture { texture: NativeHandle },
    ShaderSource { shader: NativeHandle, source: &'a str },
    CompileShader { shader: NativeHandle },
    AttachShader { program: NativeHandle, shader: NativeHandle },
    DetachShader { program: NativeHandle, shader: NativeHandle },
    DeleteShader { shader: NativeHandle },
    LinkProgram { program: NativeHandle },
    DeleteProgram { program: NativeHandle },
}

/// Appends `more` to `calls`, keeping the order of both.
pub fn extend_calls<'a>(calls: &mut Vec<DeviceCall<'a>>, more: Vec<DeviceCall<'a>>)
    ensures
        final(calls)@ == old(calls)@ + more@,
{
    let mut i: usize = 0;
    while i < more.len()
        invariant
            i <= more.len(),
            calls@ == old(calls)@ + more@.subrange(0, i as int),
        decreases more.len() - i,
    {
        calls.push(more[i]);
        i += 1;
    }
}

/// Whether an operation came out as `expected`: refused with the same
/// error, or done with the same calls.
pub open spec fn agrees<'a, E>(
    r: Result<Vec<DeviceCall<'a>>, E>,
    expected: Result<Seq<DeviceCall<'a>>, E>,
) -> bool {
    match (r, expected) {
        (Ok(calls), Ok(wanted)) => calls@ == wanted,
        (Err(error), Err(wanted)) => error == wanted,
        _ => false,
    }
}

/// The calls of an outcome; none when the operation was refused.
pub open spec fn calls_of<'a, E>(outcome: Result<Seq<DeviceCall<'a>>, E>) -> Seq<DeviceCall<'a>> {
    match outcome {
        Ok(calls) => calls,
        Err(_) => Seq::empty(),
    }
}

/// One call, as the list of calls of an operation.
pub fn single<'a>(call: DeviceCall<'a>) -> (calls: Vec<DeviceCall<'a>>)
    ensures
        calls@ == seq![call],
{
    let mut calls: Vec<DeviceCall<'a>> = Vec::new();
    calls.push(call);
    calls
}

} // verus!
