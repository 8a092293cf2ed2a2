//! What the library refuses to do, and why.
//!
//! All of these but [`ShaderError::OutOfResources`] report a mistake in the
//! calling program. An operation that refuses fires no device call and
//! leaves the state shadow as it was.

use vstd::prelude::*;
use crate::buffer::BufferType;

verus! {

/// A binding that cannot be made.
#[derive(Clone, Copy, Debug, PartialEq, Eq)]
pub enum BindError {
    /// A buffer made for one binding point was offered to the other.
    WrongBindingPoint { asked: BufferType, made_for: BufferType },
    /// A vertex attribute names a buffer slot that was not supplied.
    NoSuchBufferSlot { attribute: usize, slot: usize },
    /// The texture unit does not exist.
    NoSuchTextureUnit { unit: u32 },
}

/// A misuse of the stack of saved states.
#[derive(Clone, Copy, Debug, PartialEq, Eq)]
pub enum StateError {
    /// There is no saved state to go back to.
    StackUnderflow,
}

/// A write that would leave the buffer's store.
#[derive(Clone, Copy, Debug, PartialEq, Eq)]
pub enum BufferError {
    OutOfBounds { offset: i32, len: usize, capacity: usize },
}

/// A write that would leave the texture's image.
#[derive(Clone, Copy, Debug, PartialEq, Eq)]
pub enum TextureError {
    OutOfBounds {
        x_offset: i32,
        y_offset: i32,
        width: i32,
        height: i32,
        image_width: i32,
        image_height: i32,
    },
}

/// A draw or a uniform assignment that cannot be issued.
#[derive(Clone, Copy, Debug, PartialEq, Eq)]
pub enum DrawError {
    /// The uniform was looked up in another program than the one it is to
    /// be set on.
    WrongProgram,
    /// The program has no uniform of the name that was looked up.
    NoSuchUniform,
    /// A count, an offset or an index type that the device would reject.
    InvalidArgument,
}

/// The stage of a program that a shader object implements.
#[derive(Clone, Copy, Debug, PartialEq, Eq, Structural)]
pub enum ShaderStage {
    Vertex,
    Fragment,
}

/// Why a program could not be built.
#[derive(Clone, Debug, PartialEq, Eq)]
pub enum ShaderError {
    /// The device could not create a program or shader object. Unlike the
    /// other two, this is no mistake of the caller, who may well go on.
    OutOfResources { message: String },
    /// A stage did not compile; `log` is that stage's diagnostic log.
    Compile { stage: ShaderStage, log: String },
    /// The stages did not link; `log` is the program's diagnostic log.
    Link { log: String },
}

} // verus!
