//! Pipelines: a program together with all the fixed-function state and the
//! vertex layout it is drawn with.

use vstd::prelude::*;
use std::sync::Arc;
use crate::blend::BlendFactor;
use crate::buffer::DataType;
use crate::codes;
use crate::device::{extend_calls, DeviceCall};
use crate::handle::NativeHandle;
use crate::shader::ShaderProgram;
use crate::state::{toggle, toggle_call, BlendFunc, ColorMask};

verus! {

/// A stencil comparison.
#[derive(Clone, Copy, Debug, PartialEq, Eq, Structural)]
pub enum StencilFunc {
    Never,
    Less,
    LessThanOrEqual,
    Greater,
    GreaterThanOrEqual,
    Equal,
    NotEqual,
    Always,
}

impl StencilFunc {
    /// The device's number for this comparison.
    pub open spec fn code(self) -> u32 {
        match self {
            StencilFunc::Never => codes::NEVER,
            StencilFunc::Less => codes::LESS,
            StencilFunc::LessThanOrEqual => codes::LEQUAL,
            StencilFunc::Greater => codes::GREATER,
            StencilFunc::GreaterThanOrEqual => codes::GEQUAL,
            StencilFunc::Equal => codes::EQUAL,
            StencilFunc::NotEqual => codes::NOTEQUAL,
            StencilFunc::Always => codes::ALWAYS,
        }
    }

    pub fn to_gl(&self) -> (r: u32)
        ensures
            r == self.code(),
    {
        match self {
            StencilFunc::Never => codes::NEVER,
            StencilFunc::Less => codes::LESS,
            StencilFunc::LessThanOrEqual => codes::LEQUAL,
            StencilFunc::Greater => codes::GREATER,
            StencilFunc::GreaterThanOrEqual => codes::GEQUAL,
            StencilFunc::Equal => codes::EQUAL,
            StencilFunc::NotEqual => codes::NOTEQUAL,
            StencilFunc::Always => codes::ALWAYS,
        }
    }
}

/// What happens to a stored stencil value.
#[derive(Clone, Copy, Debug, PartialEq, Eq, Structural)]
pub enum StencilOp {
    /// The stored value is kept.
    Keep,
    /// The stored value becomes zero.
    Zero,
    /// The stored value becomes the reference value.
    Replace,
    /// The stored value goes up by one, stopping at the maximum.
    Increment,
    /// The stored value goes up by one, and from the maximum back to zero.
    IncrementWrap,
    /// The stored value goes down by one, stopping at zero.
    Decrement,
    /// The stored value goes down by one, and from zero to the maximum.
    DecrementWrap,
    /// Every bit of the stored value is flipped.
    Invert,
}

impl StencilOp {
    /// The device's number for this operation.
    pub open spec fn code(self) -> u32 {
        match self {
            StencilOp::Keep => codes::KEEP,
            StencilOp::Zero => codes::STENCIL_ZERO,
            StencilOp::Replace => codes::REPLACE,
            StencilOp::Increment => codes::INCR,
            StencilOp::IncrementWrap => codes::INCR_WRAP,
            StencilOp::Decrement => codes::DECR,
            StencilOp::DecrementWrap => codes::DECR_WRAP,
            StencilOp::Invert => codes::INVERT,
        }
    }

    pub fn to_gl(&self) -> (r: u32)
        ensures
            r == self.code(),
    {
        match self {
            StencilOp::Keep => codes::KEEP,
            StencilOp::Zero => codes::STENCIL_ZERO,
            StencilOp::Replace => codes::REPLACE,
            StencilOp::Increment => codes::INCR,
            StencilOp::IncrementWrap => codes::INCR_WRAP,
            StencilOp::Decrement => codes::DECR,
            StencilOp::DecrementWrap => codes::DECR_WRAP,
            StencilOp::Invert => codes::INVERT,
        }
    }
}

/// No two stencil comparisons and no two stencil operations share a number.
pub proof fn stencil_codes_distinct(a: StencilFunc, b: StencilFunc, s: StencilOp, t: StencilOp)
    ensures
        a.code() == b.code() <==> a == b,
        s.code() == t.code() <==> s == t,
{
}

/// One vertex attribute: where its data lies and how to read it. The
/// attribute's index is its place in the pipeline's list.
#[derive(Clone, Copy, Debug, PartialEq, Eq)]
pub struct VertexAttributeDescriptor {
    /// Which of the buffers supplied at draw time holds the data.
    pub buffer_index: usize,
    /// Components per vertex.
    pub size: i32,
    pub ty: DataType,
    pub normalized: bool,
    /// Bytes from one vertex to the next.
    pub stride: i32,
    /// Bytes from the start of the buffer to the first vertex.
    pub offset: i32,
    /// How many instances are drawn with one value of the attribute before
    /// it steps to the next; zero for an attribute that steps once a vertex.
    pub divisor: u32,
}

/// The stencil test of one face.
#[derive(Clone, Copy, Debug, PartialEq, Eq)]
pub struct StencilFuncState {
    pub mask: u32,
    pub func: StencilFunc,
    pub sref: i32,
}

impl StencilFuncState {
    /// A test that always passes.
    pub open spec fn always() -> StencilFuncState {
        StencilFuncState { mask: 0xFF, func: StencilFunc::Always, sref: 1 }
    }
}

impl Default for StencilFuncState {
    fn default() -> (r: Self)
        ensures
            r == StencilFuncState::always(),
    {
        StencilFuncState { mask: 0xFF, func: StencilFunc::Always, sref: 1 }
    }
}

/// The stencil state of a pipeline, face by face. The three operations of a
/// face apply, in this order, when the stencil test fails, when it passes and
/// the depth test fails, and when both pass.
#[derive(Clone, Copy, Debug, PartialEq, Eq)]
pub struct StencilState {
    pub front_mask: u32,
    pub back_mask: u32,
    pub front: StencilFuncState,
    pub back: StencilFuncState,
    pub front_stencil_op: [StencilOp; 3],
    pub back_stencil_op: [StencilOp; 3],
}

impl StencilState {
    /// Whether this is the state that leaves the stencil buffer alone.
    pub open spec fn is_inert(self) -> bool {
        &&& self.front_mask == 0xFF
        &&& self.back_mask == 0xFF
        &&& self.front == StencilFuncState::always()
        &&& self.back == StencilFuncState::always()
        &&& forall|i: int| 0 <= i < 3 ==> self.front_stencil_op@[i] == StencilOp::Keep
        &&& forall|i: int| 0 <= i < 3 ==> self.back_stencil_op@[i] == StencilOp::Keep
    }

    /// The calls that configure the stencil test from this state.
    pub open spec fn calls(self) -> Seq<DeviceCall<'static>> {
        seq![
            DeviceCall::Enable { capability: codes::STENCIL_TEST },
            DeviceCall::StencilMaskSeparate { face: codes::FRONT, mask: self.front_mask },
            DeviceCall::StencilMaskSeparate { face: codes::BACK, mask: self.back_mask },
            DeviceCall::StencilFuncSeparate {
                face: codes::FRONT,
                func: self.front.func.code(),
                reference: self.front.sref,
                mask: self.front.mask,
            },
            DeviceCall::StencilFuncSeparate {
                face: codes::BACK,
                func: self.back.func.code(),
                reference: self.back.sref,
                mask: self.back.mask,
            },
            DeviceCall::StencilOpSeparate {
                face: codes::FRONT,
                stencil_fail: self.front_stencil_op@[0].code(),
                depth_fail: self.front_stencil_op@[1].code(),
                pass: self.front_stencil_op@[2].code(),
            },
            DeviceCall::StencilOpSeparate {
                face: codes::BACK,
                stencil_fail: self.back_stencil_op@[0].code(),
                depth_fail: self.back_stencil_op@[1].code(),
                pass: self.back_stencil_op@[2].code(),
            },
        ]
    }
}

impl Default for StencilState {
    fn default() -> (r: Self)
        ensures
            r.is_inert(),
    {
        StencilState {
            front_mask: 0xFF,
            back_mask: 0xFF,
            front: StencilFuncState { mask: 0xFF, func: StencilFunc::Always, sref: 1 },
            back: StencilFuncState { mask: 0xFF, func: StencilFunc::Always, sref: 1 },
            front_stencil_op: [StencilOp::Keep;3],
            back_stencil_op: [StencilOp::Keep;3],
        }
    }
}

/// The mathematical content of a [`RenderPipeline`].
pub struct PipelineView {
    pub blend_enabled: bool,
    pub blend_func: BlendFunc,
    pub scissor_enabled: bool,
    pub stencil_state: Option<StencilState>,
    pub depth_enabled: bool,
    pub depth_write: bool,
    pub color_write: ColorMask,
    /// The device's name for the program.
    pub program: NativeHandle,
    /// The vertex attributes; attribute `i` is the one at place `i`.
    pub vertex_attributes: Seq<VertexAttributeDescriptor>,
}

/// The call that disables attribute `i`.
pub open spec fn disable_attribute(i: int) -> DeviceCall<'static> {
    DeviceCall::DisableVertexAttribArray { index: i as u32 }
}

/// The calls that disable the attributes below `count`, index zero first.
pub open spec fn disable_below(count: nat) -> Seq<DeviceCall<'static>> {
    Seq::new(count, |i: int| disable_attribute(i))
}

impl PipelineView {
    /// The attribute indices fit the device's index type.
    pub open spec fn wf(self) -> bool {
        self.vertex_attributes.len() <= u32::MAX
    }

    /// The pipeline a builder starts from: everything off, every colour
    /// channel writable, no attributes.
    pub open spec fn plain(program: NativeHandle) -> PipelineView {
        PipelineView {
            blend_enabled: false,
            blend_func: BlendFunc { src: 0, dst: 0 },
            scissor_enabled: false,
            stencil_state: None,
            depth_enabled: false,
            depth_write: false,
            color_write: ColorMask { red: true, green: true, blue: true, alpha: true },
            program,
            vertex_attributes: Seq::empty(),
        }
    }

    /// The calls that set up blending.
    pub open spec fn blend_calls(self) -> Seq<DeviceCall<'static>> {
        if self.blend_enabled {
            seq![
                DeviceCall::Enable { capability: codes::BLEND },
                DeviceCall::BlendFunc { src: self.blend_func.src, dst: self.blend_func.dst },
            ]
        } else {
            seq![DeviceCall::Disable { capability: codes::BLEND }]
        }
    }

    /// The calls between blending and stencil: depth test, colour write
    /// mask, depth write mask, program, vertex array and scissor test.
    pub open spec fn fixed_calls(self, vertex_array: NativeHandle) -> Seq<DeviceCall<'static>> {
        seq![
            toggle(codes::DEPTH_TEST, self.depth_enabled),
            DeviceCall::ColorMask {
                red: self.color_write.red,
                green: self.color_write.green,
                blue: self.color_write.blue,
                alpha: self.color_write.alpha,
            },
            DeviceCall::DepthMask { enabled: self.depth_write },
            DeviceCall::UseProgram { program: Some(self.program) },
            DeviceCall::BindVertexArray { vertex_array: Some(vertex_array) },
            toggle(codes::SCISSOR_TEST, self.scissor_enabled),
        ]
    }

    /// The calls that set up the stencil test, or switch it off.
    pub open spec fn stencil_calls(self) -> Seq<DeviceCall<'static>> {
        match self.stencil_state {
            Some(stencil) => stencil.calls(),
            None => seq![DeviceCall::Disable { capability: codes::STENCIL_TEST }],
        }
    }

    /// Everything the device is told when a scope of this pipeline opens,
    /// in order and without regard to what it held before: blending, depth
    /// test, colour write mask, depth write mask, program, the shared vertex
    /// array, scissor test, stencil.
    pub open spec fn enter_calls(self, vertex_array: NativeHandle) -> Seq<DeviceCall<'static>> {
        self.blend_calls() + self.fixed_calls(vertex_array) + self.stencil_calls()
    }

    /// Everything the device is told when a scope of this pipeline closes:
    /// each attribute index of the pipeline is disabled, index zero first.
    pub open spec fn exit_calls(self) -> Seq<DeviceCall<'static>> {
        disable_below(self.vertex_attributes.len())
    }
}

/// A program and the state it is drawn with. Built step by step with the
/// `with_` methods, each of which takes the pipeline and gives it back
/// changed; once built it is only read.
///
/// The program is shared: a clone of a pipeline uses the same program, and
/// the program lives until the last pipeline that uses it is destroyed.
#[derive(Debug)]
pub struct RenderPipeline {
    blend_enabled: bool,
    blend_func: BlendFunc,
    scissor_enabled: bool,
    stencil_state: Option<StencilState>,
    depth_enabled: bool,
    depth_write: bool,
    color_write: ColorMask,
    program: Arc<ShaderProgram>,
    vertex_attributes: Vec<VertexAttributeDescriptor>,
}

impl View for RenderPipeline {
    type V = PipelineView;

    closed spec fn view(&self) -> PipelineView {
        PipelineView {
            blend_enabled: self.blend_enabled,
            blend_func: self.blend_func,
            scissor_enabled: self.scissor_enabled,
            stencil_state: self.stencil_state,
            depth_enabled: self.depth_enabled,
            depth_write: self.depth_write,
            color_write: self.color_write,
            program: self.program.native(),
            vertex_attributes: self.vertex_attributes@,
        }
    }
}

/// Gives up one share of a program. Stands for `Arc::into_inner` of the
/// standard library: the program comes back when this was the last share,
/// and whenever something comes back it is the program that was shared.
#[verifier::external_body]
fn release_program(shared: Arc<ShaderProgram>) -> (last: Option<ShaderProgram>)
    ensures
        last matches Some(program) ==> program == *shared,
{
    Arc::into_inner(shared)
}

impl RenderPipeline {
    #[verifier::type_invariant]
    spec fn attribute_indices_fit(self) -> bool {
        self.vertex_attributes@.len() <= u32::MAX
    }

    /// A pipeline around `program`, with everything off, every colour
    /// channel writable and no attributes.
    pub fn new(program: ShaderProgram) -> (r: Self)
        ensures
            r@ == PipelineView::plain(program.native()),
    {
        RenderPipeline {
            blend_enabled: false,
            blend_func: BlendFunc { src: 0, dst: 0 },
            scissor_enabled: false,
            stencil_state: None,
            depth_enabled: false,
            depth_write: false,
            color_write: ColorMask { red: true, green: true, blue: true, alpha: true },
            program: Arc::new(program),
            vertex_attributes: Vec::new(),
        }
    }

    /// Adds a vertex attribute behind those already there.
    ///
    /// The device counts attributes in 32 bits, so there is room for one
    /// more only while there are fewer than `u32::MAX`.
    pub fn with_vertex_attribute(self, attr: VertexAttributeDescriptor) -> (r: Self)
        requires
            self@.vertex_attributes.len() < u32::MAX,
        ensures
            r@ == (PipelineView {
                vertex_attributes: self@.vertex_attributes.push(attr),
                ..self@
            }),
    {
        let mut vertex_attributes = self.vertex_attributes;
        vertex_attributes.push(attr);
        RenderPipeline { vertex_attributes, ..self }
    }

    /// Switches blending on or off.
    pub fn with_blend(self, enabled: bool) -> (r: Self)
        ensures
            r@ == (PipelineView { blend_enabled: enabled, ..self@ }),
    {
        proof {
            use_type_invariant(&self);
        }
        RenderPipeline { blend_enabled: enabled, ..self }
    }

    /// Sets the blend function.
    pub fn with_blend_func(self, src: BlendFactor, dst: BlendFactor) -> (r: Self)
        ensures
            r@ == (PipelineView {
                blend_func: BlendFunc { src: src.code(), dst: dst.code() },
                ..self@
            }),
    {
        proof {
            use_type_invariant(&self);
        }
        RenderPipeline { blend_func: BlendFunc { src: src.to_gl(), dst: dst.to_gl() }, ..self }
    }

    /// Switches the depth test on or off.
    pub fn with_depth(self, enabled: bool) -> (r: Self)
        ensures
            r@ == (PipelineView { depth_enabled: enabled, ..self@ }),
    {
        proof {
            use_type_invariant(&self);
        }
        RenderPipeline { depth_enabled: enabled, ..self }
    }

    /// Allows or forbids writes to the depth buffer.
    pub fn with_depth_write(self, enabled: bool) -> (r: Self)
        ensures
            r@ == (PipelineView { depth_write: enabled, ..self@ }),
    {
        proof {
            use_type_invariant(&self);
        }
        RenderPipeline { depth_write: enabled, ..self }
    }

    /// Allows or forbids writes to each colour channel.
    pub fn with_color_write(self, r: bool, g: bool, b: bool, a: bool) -> (p: Self)
        ensures
            p@ == (PipelineView {
                color_write: ColorMask { red: r, green: g, blue: b, alpha: a },
                ..self@
            }),
    {
        proof {
            use_type_invariant(&self);
        }
        RenderPipeline { color_write: ColorMask { red: r, green: g, blue: b, alpha: a }, ..self }
    }

    /// Switches the scissor test on or off.
    pub fn with_scissor(self, enabled: bool) -> (r: Self)
        ensures
            r@ == (PipelineView { scissor_enabled: enabled, ..self@ }),
    {
        proof {
            use_type_invariant(&self);
        }
        RenderPipeline { scissor_enabled: enabled, ..self }
    }

    /// Sets the stencil state; `None` switches the stencil test off.
    pub fn with_stencil(self, stencil: Option<StencilState>) -> (r: Self)
        ensures
            r@ == (PipelineView { stencil_state: stencil, ..self@ }),
    {
        proof {
            use_type_invariant(&self);
        }
        RenderPipeline { stencil_state: stencil, ..self }
    }

    /// The program of the pipeline.
    pub fn program(&self) -> (r: &ShaderProgram)
        ensures
            r.native() == self@.program,
    {
        &self.program
    }

    /// The number of vertex attributes.
    pub fn attribute_count(&self) -> (n: u32)
        ensures
            n == self@.vertex_attributes.len(),
            self@.wf(),
    {
        proof {
            use_type_invariant(self);
        }
        self.vertex_attributes.len() as u32
    }

    /// The vertex attribute at place `index`, which there is.
    pub(crate) fn attribute_at(&self, index: u32) -> (r: VertexAttributeDescriptor)
        requires
            index < self@.vertex_attributes.len(),
        ensures
            r == self@.vertex_attributes[index as int],
    {
        self.vertex_attributes[index as usize]
    }

    /// The vertex attribute at place `index`.
    pub fn attribute(&self, index: u32) -> (r: Option<VertexAttributeDescriptor>)
        ensures
            (r == if index < self@.vertex_attributes.len() {
                Some(self@.vertex_attributes[index as int])
            } else {
                None
            }),
    {
        if (index as usize) < self.vertex_attributes.len() {
            Some(self.vertex_attributes[index as usize])
        } else {
            None
        }
    }

    /// The calls that set up blending.
    fn blend_setup(&self) -> (calls: Vec<DeviceCall<'static>>)
        ensures
            calls@ == self@.blend_calls(),
    {
        let mut calls: Vec<DeviceCall<'static>> = Vec::new();
        if self.blend_enabled {
            calls.push(DeviceCall::Enable { capability: codes::BLEND });
            calls.push(
                DeviceCall::BlendFunc { src: self.blend_func.src, dst: self.blend_func.dst },
            );
        } else {
            calls.push(DeviceCall::Disable { capability: codes::BLEND });
        }
        calls
    }

    /// The calls between blending and stencil.
    fn fixed_setup(&self, vertex_array: NativeHandle) -> (calls: Vec<DeviceCall<'static>>)
        ensures
            calls@ == self@.fixed_calls(vertex_array),
    {
        let mut calls: Vec<DeviceCall<'static>> = Vec::new();
        calls.push(toggle_call(codes::DEPTH_TEST, self.depth_enabled));
        calls.push(
            DeviceCall::ColorMask {
                red: self.color_write.red,
                green: self.color_write.green,
                blue: self.color_write.blue,
                alpha: self.color_write.alpha,
            },
        );
        calls.push(DeviceCall::DepthMask { enabled: self.depth_write });
        calls.push(DeviceCall::UseProgram { program: Some(self.program.handle()) });
        calls.push(DeviceCall::BindVertexArray { vertex_array: Some(vertex_array) });
        calls.push(toggle_call(codes::SCISSOR_TEST, self.scissor_enabled));
        calls
    }

    /// The calls that set up the stencil test, or switch it off.
    fn stencil_setup(&self) -> (calls: Vec<DeviceCall<'static>>)
        ensures
            calls@ == self@.stencil_calls(),
    {
        let mut calls: Vec<DeviceCall<'static>> = Vec::new();
        match &self.stencil_state {
            Some(stencil) => {
                calls.push(DeviceCall::Enable { capability: codes::STENCIL_TEST });
                calls.push(
                    DeviceCall::StencilMaskSeparate {
                        face: codes::FRONT,
                        mask: stencil.front_mask,
                    },
                );
                calls.push(
                    DeviceCall::StencilMaskSeparate { face: codes::BACK, mask: stencil.back_mask },
                );
                calls.push(
                    DeviceCall::StencilFuncSeparate {
                        face: codes::FRONT,
                        func: stencil.front.func.to_gl(),
                        reference: stencil.front.sref,
                        mask: stencil.front.mask,
                    },
                );
                calls.push(
                    DeviceCall::StencilFuncSeparate {
                        face: codes::BACK,
                        func: stencil.back.func.to_gl(),
                        reference: stencil.back.sref,
                        mask: stencil.back.mask,
                    },
                );
                calls.push(
                    DeviceCall::StencilOpSeparate {
                        face: codes::FRONT,
                        stencil_fail: stencil.front_stencil_op[0].to_gl(),
                        depth_fail: stencil.front_stencil_op[1].to_gl(),
                        pass: stencil.front_stencil_op[2].to_gl(),
                    },
                );
                calls.push(
                    DeviceCall::StencilOpSeparate {
                        face: codes::BACK,
                        stencil_fail: stencil.back_stencil_op[0].to_gl(),
                        depth_fail: stencil.back_stencil_op[1].to_gl(),
                        pass: stencil.back_stencil_op[2].to_gl(),
                    },
                );
            },
            None => {
                calls.push(DeviceCall::Disable { capability: codes::STENCIL_TEST });
            },
        }
        calls
    }

    /// The calls that open a scope of this pipeline on a context whose
    /// shared vertex array is `vertex_array`.
    pub fn enter(&self, vertex_array: NativeHandle) -> (calls: Vec<DeviceCall<'static>>)
        ensures
            calls@ == self@.enter_calls(vertex_array),
    {
        let mut calls = self.blend_setup();
        extend_calls(&mut calls, self.fixed_setup(vertex_array));
        extend_calls(&mut calls, self.stencil_setup());
        calls
    }

    /// The calls that close a scope of this pipeline.
    pub fn exit(&self) -> (calls: Vec<DeviceCall<'static>>)
        ensures
            calls@ == self@.exit_calls(),
    {
        let count = self.attribute_count();
        let mut calls: Vec<DeviceCall<'static>> = Vec::new();
        let mut index: u32 = 0;
        while index < count
            invariant
                index <= count,
                count == self@.vertex_attributes.len(),
                calls@ == disable_below(index as nat),
            decreases count - index,
        {
            calls.push(DeviceCall::DisableVertexAttribArray { index });
            index += 1;
        }
        calls
    }

    /// Gives up this pipeline's share of the program.
    ///
    /// The program is deleted when this was the last pipeline that used it;
    /// while another pipeline uses it, nothing is fired and the program stays
    /// as it is. Which of the two it is depends on who else holds a share,
    /// and [`released`] says what follows in either case.
    pub fn destroy(self) -> (calls: Vec<DeviceCall<'static>>)
        ensures
            (calls@ == Seq::<DeviceCall<'static>>::empty() || calls@ == seq![
                DeviceCall::DeleteProgram { program: self@.program },
            ]),
    {
        released(release_program(self.program))
    }
}

/// What to tell the device once a share of a program has been given up:
/// to delete the program if `last` holds it, because the share was the last
/// one, and nothing otherwise.
pub fn released(last: Option<ShaderProgram>) -> (calls: Vec<DeviceCall<'static>>)
    ensures
        (calls@ == match last {
            Some(program) => seq![DeviceCall::DeleteProgram { program: program.native() }],
            None => Seq::empty(),
        }),
{
    match last {
        Some(program) => program.destroy(),
        None => Vec::new(),
    }
}

impl Clone for RenderPipeline {
    /// A pipeline with the same state that shares the program.
    fn clone(&self) -> (r: Self)
        ensures
            r@ == self@,
    {
        proof {
            use_type_invariant(self);
        }
        let mut vertex_attributes: Vec<VertexAttributeDescriptor> = Vec::new();
        let mut i: usize = 0;
        while i < self.vertex_attributes.len()
            invariant
                i <= self.vertex_attributes.len(),
                vertex_attributes@ == self.vertex_attributes@.subrange(0, i as int),
            decreases self.vertex_attributes.len() - i,
        {
            vertex_attributes.push(self.vertex_attributes[i]);
            i += 1;
        }
        assert(vertex_attributes@ =~= self.vertex_attributes@);
        RenderPipeline {
            blend_enabled: self.blend_enabled,
            blend_func: self.blend_func,
            scissor_enabled: self.scissor_enabled,
            stencil_state: self.stencil_state,
            depth_enabled: self.depth_enabled,
            depth_write: self.depth_write,
            color_write: self.color_write,
            program: self.program.clone(),
            vertex_attributes,
        }
    }
}

} // verus!
