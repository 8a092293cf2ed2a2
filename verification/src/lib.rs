//! A thin, state-caching layer over a retained-mode rasterisation device.
//!
//! Nothing in this crate talks to a device. Every operation *decides* which
//! device calls are due and returns them, in order, as [`DeviceCall`] values;
//! the caller issues them at once and in that order. What the library
//! remembers of the device, the state shadow, is kept as if the calls had
//! been issued.
//!
//! The pieces, leaves first:
//!
//! * [`codes`], [`handle`], [`device`]: the numbers, names and calls of the
//!   device;
//! * [`buffer`], [`texture`], [`shader`], [`va`]: the resources, each the
//!   owner of one device object;
//! * [`pipeline`]: a program with the state it is drawn with;
//! * [`state`] and [`ctx`]: the state shadow and the context that owns it,
//!   with the scope in which a pipeline is drawn;
//! * [`model`] and [`scope`]: a model of the device, and the theorems that
//!   hold the shadow and the scopes to it.

pub mod blend;
pub mod buffer;
pub mod clearflags;
pub mod codes;
pub mod ctx;
pub mod device;
pub mod error;
pub mod handle;
pub mod model;
pub mod pipeline;
pub mod scope;
pub mod shader;
pub mod state;
pub mod texture;
pub mod va;

pub use blend::BlendFactor;
pub use buffer::{BindableBuffer, BufferHandle, BufferType, BufferUsage, DataType};
pub use clearflags::ClearFlags;
pub use ctx::{DrawMode, Drawable, ManagedContext};
pub use device::{DeviceCall, UniformLookup, UniformValue};
pub use error::{
    BindError, BufferError, DrawError, ShaderError, ShaderStage, StateError, TextureError,
};
pub use handle::NativeHandle;
pub use pipeline::{
    RenderPipeline, StencilFunc, StencilFuncState, StencilOp, StencilState,
    VertexAttributeDescriptor,
};
pub use shader::{BuildStep, DeviceQuery, DeviceReply, ProgramSource, ShaderBuild, ShaderProgram};
pub use texture::tex_2d::Texture2D;
pub use texture::{
    BindableNativeTexture, BindableTexture, InternalTextureFormat, TextureFilteringMode,
    TextureFormat, TextureHandle, TextureWrap,
};
pub use va::{VertexArrayObject, VertexArraySource};
