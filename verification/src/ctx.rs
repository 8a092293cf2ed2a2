//! The context: owner of the state shadow and of the vertex array that all
//! pipelines share.

use vstd::prelude::*;
use crate::blend::BlendFactor;
use crate::buffer::{bind, BindableBuffer, BufferHandle, BufferType, DataType};
use crate::clearflags::ClearFlags;
use crate::codes;
use crate::device::{agrees, calls_of, single, DeviceCall, UniformLookup, UniformValue};
use crate::error::{BindError, DrawError, StateError};
use crate::handle::NativeHandle;
use crate::pipeline::{PipelineView, RenderPipeline, VertexAttributeDescriptor};
use crate::shader::ProgramSource;
use crate::texture::BindableTexture;
use crate::state::{
    BlendFunc, ColorBits, ColorMask, ContextState, Rect, StateChange, StateValues, StateView,
    TextureBinding, ValuesView,
};

verus! {

/// How the vertices of a draw are assembled into primitives.
#[derive(Clone, Copy, Debug, PartialEq, Eq, Structural)]
pub enum DrawMode {
    /// Every three vertices make a triangle.
    Triangles,
    /// Every two vertices make a line.
    Lines,
    /// Every vertex makes a point.
    Points,
    /// Every vertex makes a triangle with the two before it.
    TriangleStrip,
    /// Every vertex makes a triangle with the one before it and the first.
    TriangleFan,
}

impl DrawMode {
    /// The device's number for this mode.
    pub open spec fn code(self) -> u32 {
        match self {
            DrawMode::Triangles => codes::TRIANGLES,
            DrawMode::Lines => codes::LINES,
            DrawMode::Points => codes::POINTS,
            DrawMode::TriangleStrip => codes::TRIANGLE_STRIP,
            DrawMode::TriangleFan => codes::TRIANGLE_FAN,
        }
    }

    pub fn to_gl(&self) -> (r: u32)
        ensures
            r == self.code(),
    {
        match self {
            DrawMode::Triangles => codes::TRIANGLES,
            DrawMode::Lines => codes::LINES,
            DrawMode::Points => codes::POINTS,
            DrawMode::TriangleStrip => codes::TRIANGLE_STRIP,
            DrawMode::TriangleFan => codes::TRIANGLE_FAN,
        }
    }
}

/// No two draw modes share a number.
pub proof fn draw_mode_codes_distinct(a: DrawMode, b: DrawMode)
    ensures
        a.code() == b.code() <==> a == b,
{
}

/// The mathematical content of a [`ManagedContext`].
pub struct ContextView {
    /// The vertex array every pipeline is applied to.
    pub default_vao: NativeHandle,
    /// The state shadow.
    pub state: StateView,
    /// The saved states, the one saved last at the end.
    pub stack: Seq<ValuesView>,
}

impl ContextView {
    /// The context once the device has taken `calls` from anyone but a
    /// mutator.
    pub open spec fn witnessed_all(self, calls: Seq<DeviceCall>) -> ContextView {
        ContextView { state: self.state.witnessed_all(calls), ..self }
    }

    /// The context once `change` has gone through a mutator.
    pub open spec fn after(self, change: StateChange) -> ContextView {
        ContextView { state: self.state.after(change), ..self }
    }
}

/// The change that binds `texture` to `target` of unit `unit`.
pub open spec fn texture_change(unit: u32, target: u32, texture: Option<NativeHandle>)
    -> StateChange {
    StateChange::Texture { unit, binding: TextureBinding { target, texture } }
}

/// The owner of the state shadow. Every call that changes mirrored device
/// state is decided here.
#[derive(Debug)]
pub struct ManagedContext {
    default_vao: NativeHandle,
    state: ContextState,
    stack: Vec<StateValues>,
}

impl View for ManagedContext {
    type V = ContextView;

    closed spec fn view(&self) -> ContextView {
        ContextView {
            default_vao: self.default_vao,
            state: self.state@,
            stack: self.stack@.map_values(|values: StateValues| values@),
        }
    }
}

impl ManagedContext {
    /// The shadow of a context has a slot for every texture unit, and so
    /// has every state it has saved: what the theorems on the shadow ask of
    /// a shadow holds of any context.
    pub proof fn always_wf(self)
        ensures
            self@.state.wf(),
            forall|i: int| 0 <= i < self@.stack.len() ==> (#[trigger] self@.stack[i]).wf(),
    {
        self.state.always_wf();
        assert forall|i: int| 0 <= i < self@.stack.len() implies (#[trigger] self@.stack[i]).wf() by {
            self.stack@[i].always_wf();
        }
    }

    /// A context on a device nobody has looked at yet.
    ///
    /// `created` is what the device answered when asked for the vertex array
    /// that all pipelines will share. If it could not make one, its message
    /// is handed on.
    pub fn new(created: Result<NativeHandle, String>) -> (r: Result<ManagedContext, String>)
        ensures
            (match created {
                Ok(default_vao) => r matches Ok(ctx) && ctx@ == (ContextView {
                    default_vao,
                    state: crate::state::initial_state(),
                    stack: Seq::empty(),
                }),
                Err(message) => r == Err::<ManagedContext, String>(message),
            }),
    {
        match created {
            Ok(default_vao) => {
                let ctx = ManagedContext {
                    default_vao,
                    state: ContextState::new(),
                    stack: Vec::new(),
                };
                assert(ctx@.stack =~= Seq::<ValuesView>::empty());
                Ok(ctx)
            },
            Err(message) => Err(message),
        }
    }

    /// Follows calls that the device takes from anyone but a mutator of
    /// this context: the known side of the shadow moves with them.
    pub fn witness(&mut self, calls: &Vec<DeviceCall>)
        ensures
            final(self)@ == old(self)@.witnessed_all(calls@),
    {
        self.state.witness_all(calls);
    }

    /// Carries one change through the shadow.
    fn change(&mut self, change: StateChange) -> (calls: Vec<DeviceCall<'static>>)
        requires
            change.valid(),
        ensures
            final(self)@ == old(self)@.after(change),
            calls@ == old(self)@.state.emitted(change),
    {
        self.state.apply(change)
    }

    /// Binds `buffer` to the binding point `asked`, unless it was made for
    /// the other one.
    fn bind_buffer<B: BindableBuffer>(&mut self, asked: BufferType, buffer: &B) -> (r: Result<
        Vec<DeviceCall<'static>>,
        BindError,
    >)
        ensures
            (match buffer.made_for() {
                Some(made_for) if made_for != asked => {
                    &&& r == Err::<Vec<DeviceCall<'static>>, BindError>(
                        BindError::WrongBindingPoint { asked, made_for },
                    )
                    &&& final(self)@ == old(self)@
                },
                _ => {
                    let change = buffer_change(asked, Some(buffer.buffer_name()));
                    &&& r matches Ok(calls)
                    &&& calls@ == old(self)@.state.emitted(change)
                    &&& final(self)@ == old(self)@.after(change)
                },
            }),
    {
        match bind(buffer, asked) {
            Ok(_) => {},
            Err(refusal) => {
                return Err(refusal);
            },
        }
        let name = Some(buffer.native_buffer());
        let change = match asked {
            BufferType::ArrayBuffer => StateChange::ArrayBuffer(name),
            BufferType::ElementArrayBuffer => StateChange::IndexBuffer(name),
        };
        Ok(self.change(change))
    }

    /// Binds `buffer` as the source of vertex data. A buffer made for index
    /// data is refused.
    pub fn bind_array_buffer<B: BindableBuffer>(&mut self, buffer: &B) -> (r: Result<
        Vec<DeviceCall<'static>>,
        BindError,
    >)
        ensures
            (match buffer.made_for() {
                Some(made_for) if made_for != BufferType::ArrayBuffer => {
                    &&& r == Err::<Vec<DeviceCall<'static>>, BindError>(
                        BindError::WrongBindingPoint { asked: BufferType::ArrayBuffer, made_for },
                    )
                    &&& final(self)@ == old(self)@
                },
                _ => {
                    let change = StateChange::ArrayBuffer(Some(buffer.buffer_name()));
                    &&& r matches Ok(calls)
                    &&& calls@ == old(self)@.state.emitted(change)
                    &&& final(self)@ == old(self)@.after(change)
                },
            }),
    {
        self.bind_buffer(BufferType::ArrayBuffer, buffer)
    }

    /// Leaves no buffer bound as the source of vertex data.
    pub fn unbind_array_buffer(&mut self) -> (calls: Vec<DeviceCall<'static>>)
        ensures
            calls@ == old(self)@.state.emitted(StateChange::ArrayBuffer(None)),
            final(self)@ == old(self)@.after(StateChange::ArrayBuffer(None)),
    {
        self.change(StateChange::ArrayBuffer(None))
    }

    /// Binds `buffer` as the source of indices. A buffer made for vertex
    /// data is refused.
    pub fn bind_index_buffer<B: BindableBuffer>(&mut self, buffer: &B) -> (r: Result<
        Vec<DeviceCall<'static>>,
        BindError,
    >)
        ensures
            (match buffer.made_for() {
                Some(made_for) if made_for != BufferType::ElementArrayBuffer => {
                    &&& r == Err::<Vec<DeviceCall<'static>>, BindError>(
                        BindError::WrongBindingPoint {
                            asked: BufferType::ElementArrayBuffer,
                            made_for,
                        },
                    )
                    &&& final(self)@ == old(self)@
                },
                _ => {
                    let change = StateChange::IndexBuffer(Some(buffer.buffer_name()));
                    &&& r matches Ok(calls)
                    &&& calls@ == old(self)@.state.emitted(change)
                    &&& final(self)@ == old(self)@.after(change)
                },
            }),
    {
        self.bind_buffer(BufferType::ElementArrayBuffer, buffer)
    }

    /// Leaves no buffer bound as the source of indices.
    pub fn unbind_index_buffer(&mut self) -> (calls: Vec<DeviceCall<'static>>)
        ensures
            calls@ == old(self)@.state.emitted(StateChange::IndexBuffer(None)),
            final(self)@ == old(self)@.after(StateChange::IndexBuffer(None)),
    {
        self.change(StateChange::IndexBuffer(None))
    }

    /// Binds `buffer` to the binding point it was made for.
    pub fn bind_any_buffer(&mut self, buffer: &BufferHandle) -> (calls: Vec<DeviceCall<'static>>)
        ensures
            calls@ == old(self)@.state.emitted(buffer_change(buffer@.ty, Some(buffer@.buffer))),
            final(self)@ == old(self)@.after(buffer_change(buffer@.ty, Some(buffer@.buffer))),
    {
        let name = Some(buffer.native_buffer());
        match buffer.ty() {
            BufferType::ArrayBuffer => self.change(StateChange::ArrayBuffer(name)),
            BufferType::ElementArrayBuffer => self.change(StateChange::IndexBuffer(name)),
        }
    }

    /// Binds `texture` to `target` of texture unit `unit`, or with `None`
    /// leaves that target of the unit empty.
    fn bind_texture_target(&mut self, unit: u32, target: u32, texture: Option<NativeHandle>) -> (r:
        Result<Vec<DeviceCall<'static>>, BindError>)
        ensures
            (unit < codes::TEXTURE_UNITS ==> {
                &&& r matches Ok(calls)
                &&& calls@ == old(self)@.state.emitted(texture_change(unit, target, texture))
                &&& final(self)@ == old(self)@.after(texture_change(unit, target, texture))
            }),
            (unit >= codes::TEXTURE_UNITS ==> {
                &&& r == Err::<Vec<DeviceCall<'static>>, BindError>(
                    BindError::NoSuchTextureUnit { unit },
                )
                &&& final(self)@ == old(self)@
            }),
    {
        if unit >= codes::TEXTURE_UNITS {
            return Err(BindError::NoSuchTextureUnit { unit });
        }
        Ok(self.change(StateChange::Texture { unit, binding: TextureBinding { target, texture } }))
    }

    /// Binds `texture` to texture unit `unit`, on the target the texture
    /// belongs to. Units count from zero; when the bind fires, the unit is
    /// made the active one first. A unit that does not exist is refused.
    pub fn bind_texture<T: BindableTexture>(&mut self, unit: u32, texture: &T) -> (r: Result<
        Vec<DeviceCall<'static>>,
        BindError,
    >)
        ensures
            (unit < codes::TEXTURE_UNITS ==> {
                let change = texture_change(
                    unit,
                    texture.target_hint(),
                    Some(texture.texture_name()),
                );
                &&& r matches Ok(calls)
                &&& calls@ == old(self)@.state.emitted(change)
                &&& final(self)@ == old(self)@.after(change)
            }),
            (unit >= codes::TEXTURE_UNITS ==> {
                &&& r == Err::<Vec<DeviceCall<'static>>, BindError>(
                    BindError::NoSuchTextureUnit { unit },
                )
                &&& final(self)@ == old(self)@
            }),
    {
        self.bind_texture_target(
            unit,
            texture.texture_target_hint(),
            Some(texture.native_texture()),
        )
    }

    /// Leaves `target` of texture unit `unit` empty. A unit that does not
    /// exist is refused.
    pub fn unbind_texture(&mut self, unit: u32, target: u32) -> (r: Result<
        Vec<DeviceCall<'static>>,
        BindError,
    >)
        ensures
            (unit < codes::TEXTURE_UNITS ==> {
                &&& r matches Ok(calls)
                &&& calls@ == old(self)@.state.emitted(texture_change(unit, target, None))
                &&& final(self)@ == old(self)@.after(texture_change(unit, target, None))
            }),
            (unit >= codes::TEXTURE_UNITS ==> {
                &&& r == Err::<Vec<DeviceCall<'static>>, BindError>(
                    BindError::NoSuchTextureUnit { unit },
                )
                &&& final(self)@ == old(self)@
            }),
    {
        self.bind_texture_target(unit, target, None)
    }

    /// Makes `program` the active program.
    pub fn use_program<P: ProgramSource>(&mut self, program: &P) -> (calls: Vec<
        DeviceCall<'static>,
    >)
        ensures
            calls@ == old(self)@.state.emitted(StateChange::Program(Some(program.program_name()))),
            final(self)@ == old(self)@.after(StateChange::Program(Some(program.program_name()))),
    {
        self.change(StateChange::Program(Some(program.native_program())))
    }

    /// Leaves no program active.
    pub fn unuse_program(&mut self) -> (calls: Vec<DeviceCall<'static>>)
        ensures
            calls@ == old(self)@.state.emitted(StateChange::Program(None)),
            final(self)@ == old(self)@.after(StateChange::Program(None)),
    {
        self.change(StateChange::Program(None))
    }

    /// Switches blending on or off.
    pub fn set_blend(&mut self, enabled: bool) -> (calls: Vec<DeviceCall<'static>>)
        ensures
            calls@ == old(self)@.state.emitted(StateChange::Blend(enabled)),
            final(self)@ == old(self)@.after(StateChange::Blend(enabled)),
    {
        self.change(StateChange::Blend(enabled))
    }

    /// Sets the blend function.
    pub fn set_blend_func(&mut self, src: BlendFactor, dst: BlendFactor) -> (calls: Vec<
        DeviceCall<'static>,
    >)
        ensures
            calls@ == old(self)@.state.emitted(
                StateChange::BlendFunc(BlendFunc { src: src.code(), dst: dst.code() }),
            ),
            final(self)@ == old(self)@.after(
                StateChange::BlendFunc(BlendFunc { src: src.code(), dst: dst.code() }),
            ),
    {
        self.change(StateChange::BlendFunc(BlendFunc { src: src.to_gl(), dst: dst.to_gl() }))
    }

    /// Switches the depth test on or off.
    pub fn set_depth_test(&mut self, enabled: bool) -> (calls: Vec<DeviceCall<'static>>)
        ensures
            calls@ == old(self)@.state.emitted(StateChange::DepthTest(enabled)),
            final(self)@ == old(self)@.after(StateChange::DepthTest(enabled)),
    {
        self.change(StateChange::DepthTest(enabled))
    }

    /// Allows or forbids writes to the depth buffer.
    pub fn set_depth_write(&mut self, enabled: bool) -> (calls: Vec<DeviceCall<'static>>)
        ensures
            calls@ == old(self)@.state.emitted(StateChange::DepthWrite(enabled)),
            final(self)@ == old(self)@.after(StateChange::DepthWrite(enabled)),
    {
        self.change(StateChange::DepthWrite(enabled))
    }

    /// Allows or forbids writes to each colour channel.
    pub fn set_color_write(&mut self, r: bool, g: bool, b: bool, a: bool) -> (calls: Vec<
        DeviceCall<'static>,
    >)
        ensures
            calls@ == old(self)@.state.emitted(
                StateChange::ColorWrite(ColorMask { red: r, green: g, blue: b, alpha: a }),
            ),
            final(self)@ == old(self)@.after(
                StateChange::ColorWrite(ColorMask { red: r, green: g, blue: b, alpha: a }),
            ),
    {
        self.change(StateChange::ColorWrite(ColorMask { red: r, green: g, blue: b, alpha: a }))
    }

    /// Sets the colour a clear fills the colour buffer with: red, green,
    /// blue and alpha, each as the bit pattern of a 32-bit float.
    pub fn set_clear_color(&mut self, color: [u32; 4]) -> (calls: Vec<DeviceCall<'static>>)
        ensures
            calls@ == old(self)@.state.emitted(StateChange::ClearColor(color_of(color))),
            final(self)@ == old(self)@.after(StateChange::ClearColor(color_of(color))),
    {
        let bits = ColorBits { red: color[0], green: color[1], blue: color[2], alpha: color[3] };
        self.change(StateChange::ClearColor(bits))
    }

    /// Sets the depth a clear fills the depth buffer with, as the bit
    /// pattern of a 32-bit float. Not mirrored: the call always fires.
    pub fn set_depth_clear(&self, value: u32) -> (calls: Vec<DeviceCall<'static>>)
        ensures
            (calls@ == seq![DeviceCall::ClearDepth { depth: value }]),
    {
        let mut calls: Vec<DeviceCall<'static>> = Vec::new();
        calls.push(DeviceCall::ClearDepth { depth: value });
        calls
    }

    /// Sets the value a clear fills the stencil buffer with. Not mirrored:
    /// the call always fires.
    pub fn set_stencil_clear(&self, value: i32) -> (calls: Vec<DeviceCall<'static>>)
        ensures
            (calls@ == seq![DeviceCall::ClearStencil { stencil: value }]),
    {
        let mut calls: Vec<DeviceCall<'static>> = Vec::new();
        calls.push(DeviceCall::ClearStencil { stencil: value });
        calls
    }

    /// Sets the viewport.
    pub fn set_viewport(&mut self, x: i32, y: i32, w: i32, h: i32) -> (calls: Vec<
        DeviceCall<'static>,
    >)
        ensures
            calls@ == old(self)@.state.emitted(
                StateChange::Viewport(Rect { x, y, width: w, height: h }),
            ),
            final(self)@ == old(self)@.after(
                StateChange::Viewport(Rect { x, y, width: w, height: h }),
            ),
    {
        self.change(StateChange::Viewport(Rect { x, y, width: w, height: h }))
    }

    /// Clears the targets in `mask`.
    pub fn clear(&self, mask: ClearFlags) -> (calls: Vec<DeviceCall<'static>>)
        ensures
            (calls@ == seq![DeviceCall::Clear { mask: mask.mask() }]),
    {
        let mut calls: Vec<DeviceCall<'static>> = Vec::new();
        calls.push(DeviceCall::Clear { mask: mask.bits() });
        calls
    }

    /// Tells the shadow that something else has rebound the array-buffer
    /// binding point.
    pub fn invalidate_array_buffer(&mut self)
        ensures
            final(self)@ == (ContextView {
                state: old(self)@.state.doubt_array_buffer(),
                ..old(self)@
            }),
    {
        self.state.invalidate_array_buffer();
    }

    /// Tells the shadow that something else has rebound the index-buffer
    /// binding point.
    pub fn invalidate_index_buffer(&mut self)
        ensures
            final(self)@ == (ContextView {
                state: old(self)@.state.doubt_index_buffer(),
                ..old(self)@
            }),
    {
        self.state.invalidate_index_buffer();
    }

    /// Tells the shadow that something else has bound a texture to unit
    /// `unit`. A unit that does not exist has no shadow to tell.
    pub fn invalidate_texture_unit(&mut self, unit: u32) -> (r: Result<(), BindError>)
        ensures
            unit < codes::TEXTURE_UNITS ==> r is Ok && final(self)@ == (ContextView {
                state: old(self)@.state.doubt_texture_unit(unit),
                ..old(self)@
            }),
            unit >= codes::TEXTURE_UNITS ==> r == Err::<(), BindError>(
                BindError::NoSuchTextureUnit { unit },
            ) && final(self)@ == old(self)@,
    {
        if unit >= codes::TEXTURE_UNITS {
            return Err(BindError::NoSuchTextureUnit { unit });
        }
        self.state.invalidate_texture_unit(unit);
        Ok(())
    }

    /// Brings the device to what the mutators were last asked for: fires the
    /// calls for every mirrored field whose device value is in doubt or
    /// differs, and for no other.
    pub fn flush_state(&mut self) -> (calls: Vec<DeviceCall<'static>>)
        ensures
            calls@ == old(self)@.state.flush_calls(),
            final(self)@ == (ContextView { state: old(self)@.state.flushed(), ..old(self)@ }),
    {
        self.state.flush()
    }

    /// Saves what the mutators were last asked for, to be gone back to with
    /// [`ManagedContext::pop_state`].
    pub fn push_state(&mut self)
        ensures
            final(self)@ == (ContextView {
                stack: old(self)@.stack.push(old(self)@.state.asked()),
                ..old(self)@
            }),
    {
        let values = self.state.asked();
        self.stack.push(values);
        assert(self@.stack =~= old(self)@.stack.push(old(self)@.state.asked()));
    }

    /// Goes back to the state saved last: asks again for everything that
    /// was asked for when it was saved, and fires the calls for every field
    /// the device is not known to hold that way. Without a saved state
    /// nothing happens and the underflow is reported.
    pub fn pop_state(&mut self) -> (r: Result<Vec<DeviceCall<'static>>, StateError>)
        ensures
            (old(self)@.stack.len() == 0 ==> {
                &&& r == Err::<Vec<DeviceCall<'static>>, StateError>(StateError::StackUnderflow)
                &&& final(self)@ == old(self)@
            }),
            (old(self)@.stack.len() > 0 ==> {
                let restored = old(self)@.state.asking(old(self)@.stack.last());
                &&& r matches Ok(calls)
                &&& calls@ == restored.flush_calls()
                &&& final(self)@ == (ContextView {
                    state: restored.flushed(),
                    stack: old(self)@.stack.drop_last(),
                    ..old(self)@
                })
            }),
    {
        match self.stack.pop() {
            Some(values) => {
                assert(self@.stack =~= old(self)@.stack.drop_last());
                self.state.ask(&values);
                Ok(self.state.flush())
            },
            None => {
                Err(StateError::StackUnderflow)
            },
        }
    }

    /// The vertex array every pipeline is applied to.
    pub fn default_vertex_array(&self) -> (r: NativeHandle)
        ensures
            r == self@.default_vao,
    {
        self.default_vao
    }

    /// Opens a scope in which `pipeline` is active.
    ///
    /// The whole state of the pipeline is sent, whatever the device held
    /// before. The context goes into the scope and comes back out of
    /// [`Drawable::finish`]; until then it cannot be used for anything else.
    pub fn with_pipeline<'a>(self, pipeline: &'a RenderPipeline) -> (r: (
        Drawable<'a>,
        Vec<DeviceCall<'static>>,
    ))
        ensures
            r.1@ == pipeline@.enter_calls(self@.default_vao),
            r.0@.pipeline == pipeline@,
            r.0@.context == self@.witnessed_all(r.1@),
    {
        let mut ctx = self;
        let calls = pipeline.enter(ctx.default_vao);
        ctx.witness(&calls);
        (Drawable { ctx, pipeline }, calls)
    }
}

/// The four bit patterns of a colour, named.
pub open spec fn color_of(color: [u32; 4]) -> ColorBits {
    ColorBits { red: color@[0], green: color@[1], blue: color@[2], alpha: color@[3] }
}

/// The change that binds `buffer` to the binding point `ty`.
pub open spec fn buffer_change(ty: BufferType, buffer: Option<NativeHandle>) -> StateChange {
    match ty {
        BufferType::ArrayBuffer => StateChange::ArrayBuffer(buffer),
        BufferType::ElementArrayBuffer => StateChange::IndexBuffer(buffer),
    }
}

/// The mathematical content of a [`Drawable`].
pub struct DrawableView {
    /// The context the scope was opened on, as it stands now.
    pub context: ContextView,
    /// The pipeline of the scope.
    pub pipeline: PipelineView,
}

/// An open pipeline scope: the one place from which to bind vertex data,
/// set uniforms and draw while the pipeline is active.
#[derive(Debug)]
pub struct Drawable<'a> {
    ctx: ManagedContext,
    pipeline: &'a RenderPipeline,
}

impl<'a> View for Drawable<'a> {
    type V = DrawableView;

    closed spec fn view(&self) -> DrawableView {
        DrawableView { context: self.ctx@, pipeline: self.pipeline@ }
    }
}

impl<'a> Drawable<'a> {
    /// Closes the scope and gives the context back: every attribute index
    /// of the pipeline is disabled, so that none is left enabled for the
    /// next pipeline.
    pub fn finish(self) -> (r: (ManagedContext, Vec<DeviceCall<'static>>))
        ensures
            r.1@ == self@.pipeline.exit_calls(),
            r.0@ == self@.context,
    {
        let calls = self.pipeline.exit();
        (self.ctx, calls)
    }

    /// The program uniforms are looked up in: that of the pipeline.
    pub fn program(&self) -> (r: NativeHandle)
        ensures
            r == self@.pipeline.program,
    {
        self.pipeline.program().handle()
    }

    /// Sets the scissor rectangle.
    pub fn set_scissor(&self, x: i32, y: i32, w: i32, h: i32) -> (calls: Vec<DeviceCall<'static>>)
        ensures
            (calls@ == seq![DeviceCall::Scissor { x, y, width: w, height: h }]),
    {
        single(DeviceCall::Scissor { x, y, width: w, height: h })
    }

    /// Assigns `value` to the uniform that `lookup` found.
    fn set_uniform(&self, lookup: UniformLookup, value: UniformValue) -> (r: Result<
        Vec<DeviceCall<'static>>,
        DrawError,
    >)
        ensures
            agrees(r, uniform_outcome(self@.pipeline.program, lookup, value)),
    {
        if lookup.program != self.program() {
            return Err(DrawError::WrongProgram);
        }
        match lookup.location {
            Some(location) => Ok(single(DeviceCall::Uniform { location, value })),
            None => Err(DrawError::NoSuchUniform),
        }
    }

    /// Sets a uniform of four floats, given as bit patterns.
    ///
    /// Here and in the other `set_uniform_` methods, `lookup` is what the
    /// device answered when the uniform's name was looked up. Uniforms are
    /// set on the program of the pipeline and on no other: a lookup made in
    /// another program than [`Drawable::program`] is refused, and so is one
    /// that found no uniform of that name.
    pub fn set_uniform_float4(&self, lookup: UniformLookup, value: &[u32; 4]) -> (r: Result<
        Vec<DeviceCall<'static>>,
        DrawError,
    >)
        ensures
            agrees(
                r,
                uniform_outcome(self@.pipeline.program, lookup,
                    UniformValue::Float4 { x: value@[0], y: value@[1], z: value@[2], w: value@[3] },
                ),
            ),
    {
        self.set_uniform(
            lookup,
            UniformValue::Float4 { x: value[0], y: value[1], z: value[2], w: value[3] },
        )
    }

    /// Sets a uniform of three floats, given as bit patterns.
    pub fn set_uniform_float3(&self, lookup: UniformLookup, value: &[u32; 3]) -> (r: Result<
        Vec<DeviceCall<'static>>,
        DrawError,
    >)
        ensures
            agrees(
                r,
                uniform_outcome(self@.pipeline.program, lookup,
                    UniformValue::Float3 { x: value@[0], y: value@[1], z: value@[2] },
                ),
            ),
    {
        self.set_uniform(lookup, UniformValue::Float3 { x: value[0], y: value[1], z: value[2] })
    }

    /// Sets a uniform of two floats, given as bit patterns.
    pub fn set_uniform_float2(&self, lookup: UniformLookup, value: &[u32; 2]) -> (r: Result<
        Vec<DeviceCall<'static>>,
        DrawError,
    >)
        ensures
            agrees(r, uniform_outcome(self@.pipeline.program, lookup, UniformValue::Float2 { x: value@[0], y: value@[1] })),
    {
        self.set_uniform(lookup, UniformValue::Float2 { x: value[0], y: value[1] })
    }

    /// Sets a uniform of one float, given as its bit pattern.
    pub fn set_uniform_float1(&self, lookup: UniformLookup, value: u32) -> (r: Result<
        Vec<DeviceCall<'static>>,
        DrawError,
    >)
        ensures
            agrees(r, uniform_outcome(self@.pipeline.program, lookup, UniformValue::Float1 { x: value })),
    {
        self.set_uniform(lookup, UniformValue::Float1 { x: value })
    }

    /// Sets a uniform of four integers.
    pub fn set_uniform_int4(&self, lookup: UniformLookup, value: &[i32; 4]) -> (r: Result<
        Vec<DeviceCall<'static>>,
        DrawError,
    >)
        ensures
            agrees(
                r,
                uniform_outcome(self@.pipeline.program, lookup,
                    UniformValue::Int4 { x: value@[0], y: value@[1], z: value@[2], w: value@[3] },
                ),
            ),
    {
        self.set_uniform(
            lookup,
            UniformValue::Int4 { x: value[0], y: value[1], z: value[2], w: value[3] },
        )
    }

    /// Sets a uniform of three integers.
    pub fn set_uniform_int3(&self, lookup: UniformLookup, value: &[i32; 3]) -> (r: Result<
        Vec<DeviceCall<'static>>,
        DrawError,
    >)
        ensures
            agrees(
                r,
                uniform_outcome(self@.pipeline.program, lookup,
                    UniformValue::Int3 { x: value@[0], y: value@[1], z: value@[2] },
                ),
            ),
    {
        self.set_uniform(lookup, UniformValue::Int3 { x: value[0], y: value[1], z: value[2] })
    }

    /// Sets a uniform of two integers.
    pub fn set_uniform_int2(&self, lookup: UniformLookup, value: &[i32; 2]) -> (r: Result<
        Vec<DeviceCall<'static>>,
        DrawError,
    >)
        ensures
            agrees(r, uniform_outcome(self@.pipeline.program, lookup, UniformValue::Int2 { x: value@[0], y: value@[1] })),
    {
        self.set_uniform(lookup, UniformValue::Int2 { x: value[0], y: value[1] })
    }

    /// Sets a uniform of one integer.
    pub fn set_uniform_int1(&self, lookup: UniformLookup, value: i32) -> (r: Result<
        Vec<DeviceCall<'static>>,
        DrawError,
    >)
        ensures
            agrees(r, uniform_outcome(self@.pipeline.program, lookup, UniformValue::Int1 { x: value })),
    {
        self.set_uniform(lookup, UniformValue::Int1 { x: value })
    }

    /// Sets a 2 by 2 matrix uniform, components given as bit patterns.
    pub fn set_uniform_mat2(&self, lookup: UniformLookup, value: &[u32; 4], transpose: bool) -> (r:
        Result<Vec<DeviceCall<'static>>, DrawError>)
        ensures
            agrees(
                r,
                uniform_outcome(self@.pipeline.program, lookup, UniformValue::Matrix2 { transpose, components: *value }),
            ),
    {
        self.set_uniform(lookup, UniformValue::Matrix2 { transpose, components: *value })
    }

    /// Sets a 3 by 3 matrix uniform, components given as bit patterns.
    pub fn set_uniform_mat3(&self, lookup: UniformLookup, value: &[u32; 9], transpose: bool) -> (r:
        Result<Vec<DeviceCall<'static>>, DrawError>)
        ensures
            agrees(
                r,
                uniform_outcome(self@.pipeline.program, lookup, UniformValue::Matrix3 { transpose, components: *value }),
            ),
    {
        self.set_uniform(lookup, UniformValue::Matrix3 { transpose, components: *value })
    }

    /// Sets a 4 by 4 matrix uniform, components given as bit patterns.
    pub fn set_uniform_mat4(&self, lookup: UniformLookup, value: &[u32; 16], transpose: bool) -> (r:
        Result<Vec<DeviceCall<'static>>, DrawError>)
        ensures
            agrees(
                r,
                uniform_outcome(self@.pipeline.program, lookup, UniformValue::Matrix4 { transpose, components: *value }),
            ),
    {
        self.set_uniform(lookup, UniformValue::Matrix4 { transpose, components: *value })
    }

    /// Binds vertex data and, if given, index data.
    ///
    /// For each attribute of the pipeline, in order, the buffer in the slot
    /// the attribute names is bound as the source of vertex data, the
    /// attribute is pointed at it, its divisor is set (zero for an attribute
    /// that steps once a vertex, more for one that steps once in so many
    /// instances) and the attribute's index is enabled. Then
    /// the index buffer is bound. If an attribute names a slot that was not
    /// supplied, or a buffer was made for the other binding point, nothing is
    /// bound at all and the first such fault is reported.
    pub fn apply_bindings<B: BindableBuffer, I: BindableBuffer>(
        &mut self,
        vertex_buffers: &[B],
        index_buffer: Option<&I>,
    ) -> (r: Result<Vec<DeviceCall<'static>>, BindError>)
        ensures
            agrees(
                r,
                old(self)@.pipeline.bindings_outcome(
                    buffer_names(vertex_buffers@),
                    buffer_types(vertex_buffers@),
                    index_of(index_buffer),
                ),
            ),
            final(self)@.pipeline == old(self)@.pipeline,
            final(self)@.context == old(self)@.context.witnessed_all(
                calls_of(
                    old(self)@.pipeline.bindings_outcome(
                        buffer_names(vertex_buffers@),
                        buffer_types(vertex_buffers@),
                        index_of(index_buffer),
                    ),
                ),
            ),
    {
        let ghost names = buffer_names(vertex_buffers@);
        let ghost types = buffer_types(vertex_buffers@);
        let ghost pipeline = self@.pipeline;
        let count = self.pipeline.attribute_count();
        let mut calls: Vec<DeviceCall<'static>> = Vec::new();
        let mut index: u32 = 0;
        while index < count
            invariant
                index <= count,
                count == pipeline.vertex_attributes.len(),
                pipeline == self.pipeline@,
                names == buffer_names(vertex_buffers@),
                types == buffer_types(vertex_buffers@),
                pipeline.first_fault(index as int, types) is None,
                calls@ == pipeline.vertex_calls(index as int, names),
                self@ == old(self)@,
            decreases count - index,
        {
            let attribute = self.pipeline.attribute_at(index);
            if attribute.buffer_index >= vertex_buffers.len() {
                proof {
                    assert(pipeline.first_fault(count as int, types) == pipeline.first_fault(
                        index + 1,
                        types,
                    )) by {
                        pipeline.fault_persists(index + 1, count as int, types);
                    }
                }
                return Err(
                    BindError::NoSuchBufferSlot {
                        attribute: index as usize,
                        slot: attribute.buffer_index,
                    },
                );
            }
            match bind(&vertex_buffers[attribute.buffer_index], BufferType::ArrayBuffer) {
                Ok(call) => {
                    calls.push(call);
                },
                Err(refusal) => {
                    proof {
                        assert(pipeline.first_fault(count as int, types) == pipeline.first_fault(
                            index + 1,
                            types,
                        )) by {
                            pipeline.fault_persists(index + 1, count as int, types);
                        }
                    }
                    return Err(refusal);
                },
            }
            calls.push(
                DeviceCall::VertexAttribPointer {
                    index,
                    size: attribute.size,
                    data_type: attribute.ty.to_gl(),
                    normalized: attribute.normalized,
                    stride: attribute.stride,
                    offset: attribute.offset,
                },
            );
            calls.push(DeviceCall::VertexAttribDivisor { index, divisor: attribute.divisor });
            calls.push(DeviceCall::EnableVertexAttribArray { index });
            index += 1;
        }
        match index_buffer {
            Some(buffer) => {
                match bind(buffer, BufferType::ElementArrayBuffer) {
                    Ok(call) => {
                        calls.push(call);
                    },
                    Err(refusal) => {
                        return Err(refusal);
                    },
                }
                assert(calls@ =~= pipeline.vertex_calls(count as int, names) + seq![
                    DeviceCall::BindBuffer {
                        target: codes::ELEMENT_ARRAY_BUFFER,
                        buffer: Some(buffer.buffer_name()),
                    },
                ]);
            },
            None => {},
        }
        self.ctx.witness(&calls);
        Ok(calls)
    }

    /// Draws `count` indexed vertices, the indices read as `ty` from byte
    /// `offset` of the bound index buffer.
    ///
    /// Refused when `count` does not fit the device's signed count, when
    /// `offset` is negative, or when `ty` is no index type.
    pub fn draw_elements(&mut self, mode: DrawMode, count: u32, ty: DataType, offset: i32) -> (r:
        Result<Vec<DeviceCall<'static>>, DrawError>)
        ensures
            agrees(r, elements_outcome(mode, count, ty, offset, None)),
            final(self)@ == old(self)@,
    {
        if count > i32::MAX as u32 || offset < 0 || !ty.is_index_type() {
            return Err(DrawError::InvalidArgument);
        }
        Ok(
            single(
                DeviceCall::DrawElements {
                    mode: mode.to_gl(),
                    count: count as i32,
                    element_type: ty.to_gl(),
                    offset,
                },
            ),
        )
    }

    /// Draws `instances` instances of `count` indexed vertices.
    ///
    /// Refused as [`Drawable::draw_elements`] is, and when `instances` does
    /// not fit the device's signed count.
    pub fn draw_elements_instanced(
        &self,
        mode: DrawMode,
        count: u32,
        ty: DataType,
        offset: i32,
        instances: u32,
    ) -> (r: Result<Vec<DeviceCall<'static>>, DrawError>)
        ensures
            agrees(r, elements_outcome(mode, count, ty, offset, Some(instances))),
    {
        if count > i32::MAX as u32 || offset < 0 || !ty.is_index_type() || instances
            > i32::MAX as u32 {
            return Err(DrawError::InvalidArgument);
        }
        Ok(
            single(
                DeviceCall::DrawElementsInstanced {
                    mode: mode.to_gl(),
                    count: count as i32,
                    element_type: ty.to_gl(),
                    offset,
                    instance_count: instances as i32,
                },
            ),
        )
    }

    /// Draws `count` vertices starting with vertex `first`.
    ///
    /// Refused when `first` or `count` is negative.
    pub fn draw_arrays(&self, mode: DrawMode, first: i32, count: i32) -> (r: Result<
        Vec<DeviceCall<'static>>,
        DrawError,
    >)
        ensures
            agrees(r, arrays_outcome(mode, first, count, None)),
    {
        if first < 0 || count < 0 {
            return Err(DrawError::InvalidArgument);
        }
        Ok(single(DeviceCall::DrawArrays { mode: mode.to_gl(), first, count }))
    }

    /// Draws `instances` instances of `count` vertices starting with vertex
    /// `first`.
    ///
    /// Refused as [`Drawable::draw_arrays`] is, and when `instances` does not
    /// fit the device's signed count.
    pub fn draw_arrays_instanced(&self, mode: DrawMode, first: i32, count: i32, instances: u32) -> (r:
        Result<Vec<DeviceCall<'static>>, DrawError>)
        ensures
            agrees(r, arrays_outcome(mode, first, count, Some(instances))),
    {
        if first < 0 || count < 0 || instances > i32::MAX as u32 {
            return Err(DrawError::InvalidArgument);
        }
        Ok(
            single(
                DeviceCall::DrawArraysInstanced {
                    mode: mode.to_gl(),
                    first,
                    count,
                    instance_count: instances as i32,
                },
            ),
        )
    }
}

/// What assigning `value` to the uniform that `lookup` found comes to,
/// while `program` is the program of the pipeline: one call, or a refusal
/// when the lookup was made in another program or found no uniform.
pub open spec fn uniform_outcome(program: NativeHandle, lookup: UniformLookup, value: UniformValue)
    -> Result<Seq<DeviceCall<'static>>, DrawError> {
    if lookup.program != program {
        Err(DrawError::WrongProgram)
    } else {
        match lookup.location {
            Some(location) => Ok(seq![DeviceCall::Uniform { location, value }]),
            None => Err(DrawError::NoSuchUniform),
        }
    }
}

/// What a draw of vertices comes to.
pub open spec fn arrays_outcome(mode: DrawMode, first: i32, count: i32, instances: Option<u32>)
    -> Result<Seq<DeviceCall<'static>>, DrawError> {
    if first < 0 || count < 0 {
        Err(DrawError::InvalidArgument)
    } else {
        match instances {
            None => Ok(seq![DeviceCall::DrawArrays { mode: mode.code(), first, count }]),
            Some(instances) => if instances > i32::MAX {
                Err(DrawError::InvalidArgument)
            } else {
                Ok(
                    seq![
                        DeviceCall::DrawArraysInstanced {
                            mode: mode.code(),
                            first,
                            count,
                            instance_count: instances as i32,
                        },
                    ],
                )
            },
        }
    }
}

/// What a draw of indexed vertices comes to.
pub open spec fn elements_outcome(
    mode: DrawMode,
    count: u32,
    ty: DataType,
    offset: i32,
    instances: Option<u32>,
) -> Result<Seq<DeviceCall<'static>>, DrawError> {
    if count > i32::MAX || offset < 0 || !ty.indexes() {
        Err(DrawError::InvalidArgument)
    } else {
        match instances {
            None => Ok(
                seq![
                    DeviceCall::DrawElements {
                        mode: mode.code(),
                        count: count as i32,
                        element_type: ty.code(),
                        offset,
                    },
                ],
            ),
            Some(instances) => if instances > i32::MAX {
                Err(DrawError::InvalidArgument)
            } else {
                Ok(
                    seq![
                        DeviceCall::DrawElementsInstanced {
                            mode: mode.code(),
                            count: count as i32,
                            element_type: ty.code(),
                            offset,
                            instance_count: instances as i32,
                        },
                    ],
                )
            },
        }
    }
}

/// The device names of the buffers in `buffers`, slot by slot.
pub open spec fn buffer_names<B: BindableBuffer>(buffers: Seq<B>) -> Seq<NativeHandle> {
    buffers.map_values(|b: B| b.buffer_name())
}

/// The binding points the buffers in `buffers` were made for, slot by slot.
pub open spec fn buffer_types<B: BindableBuffer>(buffers: Seq<B>) -> Seq<Option<BufferType>> {
    buffers.map_values(|b: B| b.made_for())
}

/// The name of an index buffer and the binding point it was made for.
pub open spec fn index_of<I: BindableBuffer>(buffer: Option<&I>) -> Option<
    (NativeHandle, Option<BufferType>),
> {
    match buffer {
        Some(buffer) => Some((buffer.buffer_name(), buffer.made_for())),
        None => None,
    }
}

/// The calls that bind one attribute: its buffer, its layout, its divisor,
/// its index. The divisor is sent whatever it is: the vertex array is
/// shared by all pipelines, and a divisor that an earlier pipeline left on
/// the index would otherwise stay.
pub open spec fn attribute_calls(
    attribute: VertexAttributeDescriptor,
    index: int,
    buffer: NativeHandle,
) -> Seq<DeviceCall<'static>> {
    seq![
        DeviceCall::BindBuffer { target: codes::ARRAY_BUFFER, buffer: Some(buffer) },
        DeviceCall::VertexAttribPointer {
            index: index as u32,
            size: attribute.size,
            data_type: attribute.ty.code(),
            normalized: attribute.normalized,
            stride: attribute.stride,
            offset: attribute.offset,
        },
        DeviceCall::VertexAttribDivisor { index: index as u32, divisor: attribute.divisor },
        DeviceCall::EnableVertexAttribArray { index: index as u32 },
    ]
}

impl PipelineView {
    /// What is wrong with binding attribute `index`, if anything: the slot
    /// it names is missing, or holds a buffer made for indices.
    pub open spec fn attribute_fault(self, index: int, types: Seq<Option<BufferType>>) -> Option<
        BindError,
    > {
        let slot = self.vertex_attributes[index].buffer_index;
        if slot >= types.len() {
            Some(BindError::NoSuchBufferSlot { attribute: index as usize, slot })
        } else {
            match types[slot as int] {
                Some(made_for) if made_for != BufferType::ArrayBuffer => Some(
                    BindError::WrongBindingPoint { asked: BufferType::ArrayBuffer, made_for },
                ),
                _ => None,
            }
        }
    }

    /// The fault of the first faulty attribute below `upto`, if any.
    pub open spec fn first_fault(self, upto: int, types: Seq<Option<BufferType>>) -> Option<
        BindError,
    >
        decreases upto,
    {
        if upto <= 0 {
            None
        } else {
            match self.first_fault(upto - 1, types) {
                Some(fault) => Some(fault),
                None => self.attribute_fault(upto - 1, types),
            }
        }
    }

    /// The calls that bind the attributes below `upto`, attribute zero
    /// first.
    pub open spec fn vertex_calls(self, upto: int, names: Seq<NativeHandle>) -> Seq<
        DeviceCall<'static>,
    >
        decreases upto,
    {
        if upto <= 0 {
            Seq::empty()
        } else {
            let attribute = self.vertex_attributes[upto - 1];
            self.vertex_calls(upto - 1, names) + attribute_calls(
                attribute,
                upto - 1,
                names[attribute.buffer_index as int],
            )
        }
    }

    /// What binding vertex and index data comes to. A faulty attribute is
    /// reported before a faulty index buffer, an earlier attribute before a
    /// later one.
    pub open spec fn bindings_outcome(
        self,
        names: Seq<NativeHandle>,
        types: Seq<Option<BufferType>>,
        index: Option<(NativeHandle, Option<BufferType>)>,
    ) -> Result<Seq<DeviceCall<'static>>, BindError> {
        let count = self.vertex_attributes.len() as int;
        match self.first_fault(count, types) {
            Some(fault) => Err(fault),
            None => match index {
                None => Ok(self.vertex_calls(count, names)),
                Some((name, made_for)) => match made_for {
                    Some(made_for) if made_for != BufferType::ElementArrayBuffer => Err(
                        BindError::WrongBindingPoint {
                            asked: BufferType::ElementArrayBuffer,
                            made_for,
                        },
                    ),
                    _ => Ok(
                        self.vertex_calls(count, names) + seq![
                            DeviceCall::BindBuffer {
                                target: codes::ELEMENT_ARRAY_BUFFER,
                                buffer: Some(name),
                            },
                        ],
                    ),
                },
            },
        }
    }

    /// Once an attribute is at fault, looking at more attributes does not
    /// change which fault comes first.
    pub proof fn fault_persists(self, from: int, upto: int, types: Seq<Option<BufferType>>)
        requires
            0 <= from <= upto,
            self.first_fault(from, types) is Some,
        ensures
            self.first_fault(upto, types) == self.first_fault(from, types),
        decreases upto - from,
    {
        if from < upto {
            self.fault_persists(from, upto - 1, types);
        }
    }
}

} // verus!
