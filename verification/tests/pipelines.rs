//! Pipelines and the scope in which one is drawn.

use rapax::codes;
use rapax::{
    BindError, BlendFactor, BufferHandle, BufferType, BufferUsage, BuildStep, DataType, DeviceCall,
    DeviceReply, DrawError, DrawMode, ManagedContext, NativeHandle, RenderPipeline, ShaderProgram,
    StencilFunc, StencilFuncState, StencilOp, StencilState, UniformLookup, UniformValue,
    VertexAttributeDescriptor,
};
use std::collections::BTreeSet;

fn handle(id: u32) -> NativeHandle {
    NativeHandle::new(id).unwrap()
}

fn context() -> ManagedContext {
    ManagedContext::new(Ok(handle(1))).unwrap()
}

/// Builds a program the way a device that accepts everything would.
fn program(id: u32) -> ShaderProgram {
    let (mut build, _) = ShaderProgram::new("void main() {}", "void main() {}");
    let replies = vec![
        DeviceReply::Created(Ok(handle(id))),
        DeviceReply::Created(Ok(handle(id + 1))),
        DeviceReply::Status(true),
        DeviceReply::Created(Ok(handle(id + 2))),
        DeviceReply::Status(true),
        DeviceReply::Status(true),
    ];
    for reply in replies {
        match build.resume(reply) {
            BuildStep::Ask { build: next, .. } => build = next,
            BuildStep::Done { result, .. } => return result.unwrap(),
        }
    }
    unreachable!()
}

/// A lookup in program 10 that found the uniform at `location`.
fn found(location: u32) -> UniformLookup {
    UniformLookup { program: handle(10), location: Some(location) }
}

/// A lookup in program 10 that found nothing.
fn missing() -> UniformLookup {
    UniformLookup { program: handle(10), location: None }
}

fn attribute(buffer_index: usize, size: i32, stride: i32, offset: i32) -> VertexAttributeDescriptor {
    VertexAttributeDescriptor {
        buffer_index,
        size,
        ty: DataType::Float,
        normalized: false,
        stride,
        offset,
        divisor: 0,
    }
}

/// The attribute indices left enabled after `calls`, starting from `enabled`.
fn enabled_after(mut enabled: BTreeSet<u32>, calls: &[DeviceCall]) -> BTreeSet<u32> {
    for call in calls {
        match call {
            DeviceCall::EnableVertexAttribArray { index } => {
                enabled.insert(*index);
            }
            DeviceCall::DisableVertexAttribArray { index } => {
                enabled.remove(index);
            }
            _ => {}
        }
    }
    enabled
}

#[test]
fn a_plain_pipeline_switches_everything_off() {
    let pipeline = RenderPipeline::new(program(10));
    assert_eq!(pipeline.attribute_count(), 0);
    assert_eq!(pipeline.program().handle(), handle(10));
    assert_eq!(
        pipeline.enter(handle(1)),
        vec![
            DeviceCall::Disable { capability: glow::BLEND },
            DeviceCall::Disable { capability: glow::DEPTH_TEST },
            DeviceCall::ColorMask { red: true, green: true, blue: true, alpha: true },
            DeviceCall::DepthMask { enabled: false },
            DeviceCall::UseProgram { program: Some(handle(10)) },
            DeviceCall::BindVertexArray { vertex_array: Some(handle(1)) },
            DeviceCall::Disable { capability: glow::SCISSOR_TEST },
            DeviceCall::Disable { capability: glow::STENCIL_TEST },
        ]
    );
    assert_eq!(pipeline.exit(), vec![]);
}

#[test]
fn a_full_pipeline_sends_all_its_state_in_order() {
    let stencil = StencilState {
        front_mask: 0x0F,
        back_mask: 0xF0,
        front: StencilFuncState { mask: 0x3, func: StencilFunc::Less, sref: 2 },
        back: StencilFuncState { mask: 0x7, func: StencilFunc::NotEqual, sref: -5 },
        front_stencil_op: [StencilOp::Keep, StencilOp::Zero, StencilOp::Replace],
        back_stencil_op: [StencilOp::IncrementWrap, StencilOp::Decrement, StencilOp::Invert],
    };
    let pipeline = RenderPipeline::new(program(10))
        .with_blend(true)
        .with_blend_func(BlendFactor::SourceAlpha, BlendFactor::OneMinusSourceAlpha)
        .with_depth(true)
        .with_depth_write(true)
        .with_color_write(true, true, false, false)
        .with_scissor(true)
        .with_stencil(Some(stencil));
    assert_eq!(
        pipeline.enter(handle(3)),
        vec![
            DeviceCall::Enable { capability: glow::BLEND },
            DeviceCall::BlendFunc { src: glow::SRC_ALPHA, dst: glow::ONE_MINUS_SRC_ALPHA },
            DeviceCall::Enable { capability: glow::DEPTH_TEST },
            DeviceCall::ColorMask { red: true, green: true, blue: false, alpha: false },
            DeviceCall::DepthMask { enabled: true },
            DeviceCall::UseProgram { program: Some(handle(10)) },
            DeviceCall::BindVertexArray { vertex_array: Some(handle(3)) },
            DeviceCall::Enable { capability: glow::SCISSOR_TEST },
            DeviceCall::Enable { capability: glow::STENCIL_TEST },
            DeviceCall::StencilMaskSeparate { face: glow::FRONT, mask: 0x0F },
            DeviceCall::StencilMaskSeparate { face: glow::BACK, mask: 0xF0 },
            DeviceCall::StencilFuncSeparate {
                face: glow::FRONT,
                func: glow::LESS,
                reference: 2,
                mask: 0x3
            },
            DeviceCall::StencilFuncSeparate {
                face: glow::BACK,
                func: glow::NOTEQUAL,
                reference: -5,
                mask: 0x7
            },
            DeviceCall::StencilOpSeparate {
                face: glow::FRONT,
                stencil_fail: glow::KEEP,
                depth_fail: glow::ZERO,
                pass: glow::REPLACE
            },
            DeviceCall::StencilOpSeparate {
                face: glow::BACK,
                stencil_fail: glow::INCR_WRAP,
                depth_fail: glow::DECR,
                pass: glow::INVERT
            },
        ]
    );
}

#[test]
fn blend_function_is_sent_only_with_blending_on() {
    let pipeline = RenderPipeline::new(program(10))
        .with_blend_func(BlendFactor::SourceColor, BlendFactor::DestinationColor);
    let calls = pipeline.enter(handle(1));
    assert_eq!(calls[0], DeviceCall::Disable { capability: glow::BLEND });
    assert!(!calls.iter().any(|call| matches!(call, DeviceCall::BlendFunc { .. })));
    let pipeline = pipeline.with_blend(true);
    let calls = pipeline.enter(handle(1));
    assert_eq!(calls[0], DeviceCall::Enable { capability: glow::BLEND });
    assert_eq!(
        calls[1],
        DeviceCall::BlendFunc { src: glow::SRC_COLOR, dst: glow::DST_COLOR }
    );
}

#[test]
fn default_stencil_state_leaves_the_buffer_alone() {
    let state = StencilState::default();
    assert_eq!(state.front_mask, 0xFF);
    assert_eq!(state.back_mask, 0xFF);
    assert_eq!(state.front, StencilFuncState { mask: 0xFF, func: StencilFunc::Always, sref: 1 });
    assert_eq!(state.back, StencilFuncState::default());
    assert_eq!(state.front_stencil_op, [StencilOp::Keep; 3]);
    assert_eq!(state.back_stencil_op, [StencilOp::Keep; 3]);
    let pipeline = RenderPipeline::new(program(10)).with_stencil(Some(state));
    let calls = pipeline.enter(handle(1));
    assert_eq!(
        calls[7..],
        [
            DeviceCall::Enable { capability: glow::STENCIL_TEST },
            DeviceCall::StencilMaskSeparate { face: glow::FRONT, mask: 0xFF },
            DeviceCall::StencilMaskSeparate { face: glow::BACK, mask: 0xFF },
            DeviceCall::StencilFuncSeparate {
                face: glow::FRONT,
                func: glow::ALWAYS,
                reference: 1,
                mask: 0xFF
            },
            DeviceCall::StencilFuncSeparate {
                face: glow::BACK,
                func: glow::ALWAYS,
                reference: 1,
                mask: 0xFF
            },
            DeviceCall::StencilOpSeparate {
                face: glow::FRONT,
                stencil_fail: glow::KEEP,
                depth_fail: glow::KEEP,
                pass: glow::KEEP
            },
            DeviceCall::StencilOpSeparate {
                face: glow::BACK,
                stencil_fail: glow::KEEP,
                depth_fail: glow::KEEP,
                pass: glow::KEEP
            },
        ]
    );
}

#[test]
fn attributes_keep_their_order() {
    let first = attribute(0, 2, 16, 0);
    let second = attribute(1, 3, 12, 4);
    let pipeline =
        RenderPipeline::new(program(10)).with_vertex_attribute(first).with_vertex_attribute(second);
    assert_eq!(pipeline.attribute_count(), 2);
    assert_eq!(pipeline.attribute(0), Some(first));
    assert_eq!(pipeline.attribute(1), Some(second));
    assert_eq!(pipeline.attribute(2), None);
    assert_eq!(
        pipeline.exit(),
        vec![
            DeviceCall::DisableVertexAttribArray { index: 0 },
            DeviceCall::DisableVertexAttribArray { index: 1 },
        ]
    );
}

#[test]
fn one_triangle_takes_one_program_bind_and_one_draw() {
    let program = program(10);
    let pipeline = RenderPipeline::new(program).with_vertex_attribute(attribute(0, 2, 8, 0));
    let mut ctx = context();
    let vertices: Vec<u8> =
        [0.5f32, 1.0, 0.0, 0.0, 1.0, 0.0].iter().flat_map(|v| v.to_ne_bytes()).collect();
    assert_eq!(vertices.len(), 24);
    let (buffer, _) =
        BufferHandle::array_buffer(&mut ctx, Ok(handle(20)), BufferUsage::Immutable, &vertices)
            .unwrap();

    let mut issued = Vec::new();
    let (mut scope, calls) = ctx.with_pipeline(&pipeline);
    issued.extend(calls);
    let buffers = [buffer];
    issued.extend(scope.apply_bindings(&buffers, None::<&BufferHandle>).unwrap());
    issued.extend(scope.draw_arrays(DrawMode::Triangles, 0, 3).unwrap());
    let (_ctx, calls) = scope.finish();
    issued.extend(calls);

    let draws: Vec<usize> = issued
        .iter()
        .enumerate()
        .filter(|(_, call)| {
            matches!(
                call,
                DeviceCall::DrawArrays { .. }
                    | DeviceCall::DrawArraysInstanced { .. }
                    | DeviceCall::DrawElements { .. }
                    | DeviceCall::DrawElementsInstanced { .. }
            )
        })
        .map(|(at, _)| at)
        .collect();
    let binds: Vec<usize> = issued
        .iter()
        .enumerate()
        .filter(|(_, call)| matches!(call, DeviceCall::UseProgram { .. }))
        .map(|(at, _)| at)
        .collect();
    assert_eq!(draws.len(), 1);
    assert_eq!(binds.len(), 1);
    assert!(binds[0] < draws[0]);
    assert_eq!(
        issued[draws[0]],
        DeviceCall::DrawArrays { mode: glow::TRIANGLES, first: 0, count: 3 }
    );
    assert_eq!(issued[binds[0]], DeviceCall::UseProgram { program: Some(handle(10)) });
    assert_eq!(
        issued,
        vec![
            DeviceCall::Disable { capability: glow::BLEND },
            DeviceCall::Disable { capability: glow::DEPTH_TEST },
            DeviceCall::ColorMask { red: true, green: true, blue: true, alpha: true },
            DeviceCall::DepthMask { enabled: false },
            DeviceCall::UseProgram { program: Some(handle(10)) },
            DeviceCall::BindVertexArray { vertex_array: Some(handle(1)) },
            DeviceCall::Disable { capability: glow::SCISSOR_TEST },
            DeviceCall::Disable { capability: glow::STENCIL_TEST },
            DeviceCall::BindBuffer { target: glow::ARRAY_BUFFER, buffer: Some(handle(20)) },
            DeviceCall::VertexAttribPointer {
                index: 0,
                size: 2,
                data_type: glow::FLOAT,
                normalized: false,
                stride: 8,
                offset: 0
            },
            DeviceCall::VertexAttribDivisor { index: 0, divisor: 0 },
            DeviceCall::EnableVertexAttribArray { index: 0 },
            DeviceCall::DrawArrays { mode: glow::TRIANGLES, first: 0, count: 3 },
            DeviceCall::DisableVertexAttribArray { index: 0 },
        ]
    );
}

#[test]
fn bindings_follow_the_attribute_list() {
    let pipeline = RenderPipeline::new(program(10))
        .with_vertex_attribute(attribute(1, 2, 16, 0))
        .with_vertex_attribute(VertexAttributeDescriptor {
            buffer_index: 0,
            size: 4,
            ty: DataType::UnsignedByte,
            normalized: true,
            stride: 4,
            offset: 8,
            divisor: 1,
        });
    let mut ctx = context();
    let (positions, _) =
        BufferHandle::array_buffer(&mut ctx, Ok(handle(20)), BufferUsage::Immutable, &[0; 32])
            .unwrap();
    let (colors, _) =
        BufferHandle::array_buffer(&mut ctx, Ok(handle(21)), BufferUsage::Immutable, &[0; 32])
            .unwrap();
    let (indices, _) =
        BufferHandle::index_buffer(&mut ctx, Ok(handle(22)), BufferUsage::Immutable, &[0; 6])
            .unwrap();
    let (mut scope, _) = ctx.with_pipeline(&pipeline);
    let buffers = [colors, positions];
    assert_eq!(
        scope.apply_bindings(&buffers, Some(&indices)),
        Ok(vec![
            DeviceCall::BindBuffer { target: glow::ARRAY_BUFFER, buffer: Some(handle(20)) },
            DeviceCall::VertexAttribPointer {
                index: 0,
                size: 2,
                data_type: glow::FLOAT,
                normalized: false,
                stride: 16,
                offset: 0
            },
            DeviceCall::VertexAttribDivisor { index: 0, divisor: 0 },
            DeviceCall::EnableVertexAttribArray { index: 0 },
            DeviceCall::BindBuffer { target: glow::ARRAY_BUFFER, buffer: Some(handle(21)) },
            DeviceCall::VertexAttribPointer {
                index: 1,
                size: 4,
                data_type: glow::UNSIGNED_BYTE,
                normalized: true,
                stride: 4,
                offset: 8
            },
            DeviceCall::VertexAttribDivisor { index: 1, divisor: 1 },
            DeviceCall::EnableVertexAttribArray { index: 1 },
            DeviceCall::BindBuffer { target: glow::ELEMENT_ARRAY_BUFFER, buffer: Some(handle(22)) },
        ])
    );
}

#[test]
fn missing_buffer_slot_is_refused() {
    let pipeline = RenderPipeline::new(program(10))
        .with_vertex_attribute(attribute(0, 2, 16, 0))
        .with_vertex_attribute(attribute(2, 2, 16, 8))
        .with_vertex_attribute(attribute(5, 2, 16, 8));
    let mut ctx = context();
    let (a, _) =
        BufferHandle::array_buffer(&mut ctx, Ok(handle(20)), BufferUsage::Immutable, &[0; 32])
            .unwrap();
    let (b, _) =
        BufferHandle::array_buffer(&mut ctx, Ok(handle(21)), BufferUsage::Immutable, &[0; 32])
            .unwrap();
    let (mut scope, _) = ctx.with_pipeline(&pipeline);
    let buffers = [a, b];
    assert_eq!(
        scope.apply_bindings(&buffers, None::<&BufferHandle>),
        Err(BindError::NoSuchBufferSlot { attribute: 1, slot: 2 })
    );
    let none: [BufferHandle; 0] = [];
    assert_eq!(
        scope.apply_bindings(&none, None::<&BufferHandle>),
        Err(BindError::NoSuchBufferSlot { attribute: 0, slot: 0 })
    );
}

#[test]
fn buffers_of_the_wrong_kind_are_refused() {
    let pipeline = RenderPipeline::new(program(10)).with_vertex_attribute(attribute(0, 2, 16, 0));
    let mut ctx = context();
    let (vertices, _) =
        BufferHandle::array_buffer(&mut ctx, Ok(handle(20)), BufferUsage::Immutable, &[0; 32])
            .unwrap();
    let (indices, _) =
        BufferHandle::index_buffer(&mut ctx, Ok(handle(22)), BufferUsage::Immutable, &[0; 6])
            .unwrap();
    let (more_vertices, _) =
        BufferHandle::array_buffer(&mut ctx, Ok(handle(23)), BufferUsage::Immutable, &[0; 32])
            .unwrap();
    let (mut scope, _) = ctx.with_pipeline(&pipeline);
    let wrong = [indices];
    assert_eq!(
        scope.apply_bindings(&wrong, None::<&BufferHandle>),
        Err(BindError::WrongBindingPoint {
            asked: BufferType::ArrayBuffer,
            made_for: BufferType::ElementArrayBuffer
        })
    );
    let right = [vertices];
    assert_eq!(
        scope.apply_bindings(&right, Some(&more_vertices)),
        Err(BindError::WrongBindingPoint {
            asked: BufferType::ElementArrayBuffer,
            made_for: BufferType::ArrayBuffer
        })
    );
    // The faulty attribute is reported before the faulty index buffer.
    assert_eq!(
        scope.apply_bindings(&wrong, Some(&more_vertices)),
        Err(BindError::WrongBindingPoint {
            asked: BufferType::ArrayBuffer,
            made_for: BufferType::ElementArrayBuffer
        })
    );
    assert_eq!(scope.apply_bindings(&right, Some(&wrong[0])).map(|calls| calls.len()), Ok(5));
}

#[test]
fn bare_handles_bind_unchecked() {
    let pipeline = RenderPipeline::new(program(10)).with_vertex_attribute(attribute(0, 2, 16, 0));
    let (mut scope, _) = context().with_pipeline(&pipeline);
    let buffers = [handle(30)];
    assert_eq!(
        scope.apply_bindings(&buffers, Some(&handle(31))).map(|calls| calls.len()),
        Ok(5)
    );
}

#[test]
fn closing_a_scope_disables_every_attribute_it_declared() {
    let pipeline = RenderPipeline::new(program(10))
        .with_vertex_attribute(attribute(0, 2, 32, 0))
        .with_vertex_attribute(attribute(0, 2, 32, 8))
        .with_vertex_attribute(attribute(0, 4, 32, 16));
    let mut ctx = context();
    let (buffer, _) =
        BufferHandle::array_buffer(&mut ctx, Ok(handle(20)), BufferUsage::Immutable, &[0; 96])
            .unwrap();
    let buffers = [buffer];
    let (mut scope, enter) = ctx.with_pipeline(&pipeline);
    let mut enabled = enabled_after(BTreeSet::new(), &enter);
    assert!(enabled.is_empty());
    let bound = scope.apply_bindings(&buffers, None::<&BufferHandle>).unwrap();
    enabled = enabled_after(enabled, &bound);
    assert_eq!(enabled, BTreeSet::from([0, 1, 2]));
    let (_ctx, exit) = scope.finish();
    assert_eq!(
        exit,
        vec![
            DeviceCall::DisableVertexAttribArray { index: 0 },
            DeviceCall::DisableVertexAttribArray { index: 1 },
            DeviceCall::DisableVertexAttribArray { index: 2 },
        ]
    );
    enabled = enabled_after(enabled, &exit);
    assert!(enabled.is_empty());
}

#[test]
fn a_smaller_pipeline_sees_nothing_of_a_larger_one() {
    let large = RenderPipeline::new(program(10))
        .with_vertex_attribute(attribute(0, 2, 32, 0))
        .with_vertex_attribute(attribute(0, 2, 32, 8))
        .with_vertex_attribute(attribute(0, 4, 32, 16));
    let small = RenderPipeline::new(program(40)).with_vertex_attribute(attribute(0, 2, 8, 0));
    let mut ctx = context();
    let (buffer, _) =
        BufferHandle::array_buffer(&mut ctx, Ok(handle(20)), BufferUsage::Immutable, &[0; 96])
            .unwrap();
    let buffers = [buffer];

    let mut enabled = BTreeSet::new();
    let (mut scope, calls) = ctx.with_pipeline(&large);
    enabled = enabled_after(enabled, &calls);
    enabled = enabled_after(enabled, &scope.apply_bindings(&buffers, None::<&BufferHandle>).unwrap());
    let (ctx, calls) = scope.finish();
    enabled = enabled_after(enabled, &calls);

    let (mut scope, calls) = ctx.with_pipeline(&small);
    enabled = enabled_after(enabled, &calls);
    assert!(enabled.is_empty());
    enabled = enabled_after(enabled, &scope.apply_bindings(&buffers, None::<&BufferHandle>).unwrap());
    assert_eq!(enabled, BTreeSet::from([0]));
    let (_ctx, calls) = scope.finish();
    assert!(enabled_after(enabled, &calls).is_empty());
}

#[test]
fn pipelines_sharing_a_program_keep_it_alive() {
    let first = RenderPipeline::new(program(10));
    let second = first.clone().with_blend(true);
    assert_eq!(first.program().handle(), handle(10));
    assert_eq!(second.program().handle(), handle(10));
    // Destroying one of the two leaves the program to the other.
    assert_eq!(first.destroy(), vec![]);
    assert_eq!(second.program().handle(), handle(10));
    assert_eq!(
        second.enter(handle(1))[5],
        DeviceCall::UseProgram { program: Some(handle(10)) }
    );
    // The last one takes the program with it.
    assert_eq!(second.destroy(), vec![DeviceCall::DeleteProgram { program: handle(10) }]);
}

#[test]
fn a_lone_pipeline_deletes_its_program() {
    let pipeline = RenderPipeline::new(program(10)).with_depth(true);
    assert_eq!(pipeline.destroy(), vec![DeviceCall::DeleteProgram { program: handle(10) }]);
}

#[test]
fn a_clone_has_the_same_state() {
    let pattern = RenderPipeline::new(program(10))
        .with_blend(true)
        .with_blend_func(BlendFactor::ConstantAlpha, BlendFactor::OneMinusConstantAlpha)
        .with_depth(true)
        .with_scissor(true)
        .with_vertex_attribute(attribute(0, 3, 12, 0));
    let copy = pattern.clone();
    assert_eq!(copy.enter(handle(1)), pattern.enter(handle(1)));
    assert_eq!(copy.exit(), pattern.exit());
    assert_eq!(copy.attribute(0), pattern.attribute(0));
}

#[test]
fn uniforms_are_set_where_the_lookup_found_them() {
    let pipeline = RenderPipeline::new(program(10));
    let (scope, _) = context().with_pipeline(&pipeline);
    assert_eq!(scope.program(), handle(10));
    let one = 1.0f32.to_bits();
    let half = 0.5f32.to_bits();
    assert_eq!(
        scope.set_uniform_float4(found(3), &[one, 0, half, one]),
        Ok(vec![DeviceCall::Uniform {
            location: 3,
            value: UniformValue::Float4 { x: one, y: 0, z: half, w: one }
        }])
    );
    assert_eq!(
        scope.set_uniform_float3(found(0), &[one, half, 0]),
        Ok(vec![DeviceCall::Uniform {
            location: 0,
            value: UniformValue::Float3 { x: one, y: half, z: 0 }
        }])
    );
    assert_eq!(
        scope.set_uniform_float2(found(1), &[half, one]),
        Ok(vec![DeviceCall::Uniform { location: 1, value: UniformValue::Float2 { x: half, y: one } }])
    );
    assert_eq!(
        scope.set_uniform_float1(found(2), half),
        Ok(vec![DeviceCall::Uniform { location: 2, value: UniformValue::Float1 { x: half } }])
    );
    assert_eq!(
        scope.set_uniform_int4(found(4), &[1, -2, 3, -4]),
        Ok(vec![DeviceCall::Uniform {
            location: 4,
            value: UniformValue::Int4 { x: 1, y: -2, z: 3, w: -4 }
        }])
    );
    assert_eq!(
        scope.set_uniform_int3(found(5), &[1, -2, 3]),
        Ok(vec![DeviceCall::Uniform { location: 5, value: UniformValue::Int3 { x: 1, y: -2, z: 3 } }])
    );
    assert_eq!(
        scope.set_uniform_int2(found(6), &[i32::MIN, i32::MAX]),
        Ok(vec![DeviceCall::Uniform {
            location: 6,
            value: UniformValue::Int2 { x: i32::MIN, y: i32::MAX }
        }])
    );
    assert_eq!(
        scope.set_uniform_int1(found(7), 42),
        Ok(vec![DeviceCall::Uniform { location: 7, value: UniformValue::Int1 { x: 42 } }])
    );
    let m2 = [one, 0, 0, one];
    assert_eq!(
        scope.set_uniform_mat2(found(8), &m2, false),
        Ok(vec![DeviceCall::Uniform {
            location: 8,
            value: UniformValue::Matrix2 { transpose: false, components: m2 }
        }])
    );
    let m3 = [one, 0, 0, 0, one, 0, 0, 0, one];
    assert_eq!(
        scope.set_uniform_mat3(found(9), &m3, true),
        Ok(vec![DeviceCall::Uniform {
            location: 9,
            value: UniformValue::Matrix3 { transpose: true, components: m3 }
        }])
    );
    let mut m4 = [0u32; 16];
    for i in 0..4 {
        m4[i * 5] = one;
    }
    assert_eq!(
        scope.set_uniform_mat4(found(10), &m4, false),
        Ok(vec![DeviceCall::Uniform {
            location: 10,
            value: UniformValue::Matrix4 { transpose: false, components: m4 }
        }])
    );
}

#[test]
fn a_uniform_that_was_not_found_is_refused() {
    let pipeline = RenderPipeline::new(program(10));
    let (scope, _) = context().with_pipeline(&pipeline);
    assert_eq!(scope.set_uniform_float4(missing(), &[0; 4]), Err(DrawError::NoSuchUniform));
    assert_eq!(scope.set_uniform_float3(missing(), &[0; 3]), Err(DrawError::NoSuchUniform));
    assert_eq!(scope.set_uniform_float2(missing(), &[0; 2]), Err(DrawError::NoSuchUniform));
    assert_eq!(scope.set_uniform_float1(missing(), 0), Err(DrawError::NoSuchUniform));
    assert_eq!(scope.set_uniform_int4(missing(), &[0; 4]), Err(DrawError::NoSuchUniform));
    assert_eq!(scope.set_uniform_int3(missing(), &[0; 3]), Err(DrawError::NoSuchUniform));
    assert_eq!(scope.set_uniform_int2(missing(), &[0; 2]), Err(DrawError::NoSuchUniform));
    assert_eq!(scope.set_uniform_int1(missing(), 0), Err(DrawError::NoSuchUniform));
    assert_eq!(scope.set_uniform_mat2(missing(), &[0; 4], false), Err(DrawError::NoSuchUniform));
    assert_eq!(scope.set_uniform_mat3(missing(), &[0; 9], false), Err(DrawError::NoSuchUniform));
    assert_eq!(scope.set_uniform_mat4(missing(), &[0; 16], true), Err(DrawError::NoSuchUniform));
}

#[test]
fn draws_pass_their_arguments_on() {
    let pipeline = RenderPipeline::new(program(10));
    let (mut scope, _) = context().with_pipeline(&pipeline);
    assert_eq!(
        scope.draw_arrays(DrawMode::TriangleStrip, 2, 4),
        Ok(vec![DeviceCall::DrawArrays { mode: glow::TRIANGLE_STRIP, first: 2, count: 4 }])
    );
    assert_eq!(
        scope.draw_arrays(DrawMode::Points, 0, 0),
        Ok(vec![DeviceCall::DrawArrays { mode: glow::POINTS, first: 0, count: 0 }])
    );
    assert_eq!(
        scope.draw_arrays_instanced(DrawMode::Triangles, 0, 3, 10),
        Ok(vec![DeviceCall::DrawArraysInstanced {
            mode: glow::TRIANGLES,
            first: 0,
            count: 3,
            instance_count: 10
        }])
    );
    assert_eq!(
        scope.draw_elements(DrawMode::Triangles, 6, DataType::UnsignedShort, 0),
        Ok(vec![DeviceCall::DrawElements {
            mode: glow::TRIANGLES,
            count: 6,
            element_type: glow::UNSIGNED_SHORT,
            offset: 0
        }])
    );
    assert_eq!(
        scope.draw_elements_instanced(DrawMode::Lines, 2, DataType::UnsignedInt, 8, 5),
        Ok(vec![DeviceCall::DrawElementsInstanced {
            mode: glow::LINES,
            count: 2,
            element_type: glow::UNSIGNED_INT,
            offset: 8,
            instance_count: 5
        }])
    );
    assert_eq!(
        scope.draw_elements(DrawMode::TriangleFan, i32::MAX as u32, DataType::UnsignedByte, 0),
        Ok(vec![DeviceCall::DrawElements {
            mode: glow::TRIANGLE_FAN,
            count: i32::MAX,
            element_type: glow::UNSIGNED_BYTE,
            offset: 0
        }])
    );
    assert_eq!(
        scope.draw_arrays_instanced(DrawMode::Triangles, 0, 3, i32::MAX as u32).map(|c| c.len()),
        Ok(1)
    );
}

#[test]
fn draws_with_arguments_the_device_would_reject_are_refused() {
    let pipeline = RenderPipeline::new(program(10));
    let (mut scope, _) = context().with_pipeline(&pipeline);
    let refused = Err(DrawError::InvalidArgument);
    assert_eq!(scope.draw_arrays(DrawMode::Triangles, -1, 3), refused);
    assert_eq!(scope.draw_arrays(DrawMode::Triangles, 0, -3), refused);
    assert_eq!(scope.draw_arrays_instanced(DrawMode::Triangles, -1, 3, 1), refused);
    assert_eq!(scope.draw_arrays_instanced(DrawMode::Triangles, 0, -1, 1), refused);
    assert_eq!(scope.draw_arrays_instanced(DrawMode::Triangles, 0, 3, 1 << 31), refused);
    assert_eq!(scope.draw_elements(DrawMode::Triangles, 1 << 31, DataType::UnsignedShort, 0), refused);
    assert_eq!(scope.draw_elements(DrawMode::Triangles, 6, DataType::UnsignedShort, -2), refused);
    assert_eq!(scope.draw_elements(DrawMode::Triangles, 6, DataType::Float, 0), refused);
    assert_eq!(scope.draw_elements(DrawMode::Triangles, 6, DataType::SignedShort, 0), refused);
    assert_eq!(
        scope.draw_elements_instanced(DrawMode::Triangles, u32::MAX, DataType::UnsignedInt, 0, 1),
        refused
    );
    assert_eq!(
        scope.draw_elements_instanced(DrawMode::Triangles, 6, DataType::UnsignedInt, -1, 1),
        refused
    );
    assert_eq!(
        scope.draw_elements_instanced(DrawMode::Triangles, 6, DataType::Double, 0, 1),
        refused
    );
    assert_eq!(
        scope.draw_elements_instanced(DrawMode::Triangles, 6, DataType::UnsignedInt, 0, u32::MAX),
        refused
    );
}

#[test]
fn scissor_rectangle_is_passed_on() {
    let pipeline = RenderPipeline::new(program(10)).with_scissor(true);
    let (scope, _) = context().with_pipeline(&pipeline);
    assert_eq!(
        scope.set_scissor(10, 20, 300, 400),
        vec![DeviceCall::Scissor { x: 10, y: 20, width: 300, height: 400 }]
    );
}

#[test]
fn the_shadow_knows_what_a_scope_did() {
    let pipeline = RenderPipeline::new(program(10)).with_blend(true).with_depth_write(true);
    let mut ctx = context();
    ctx.flush_state();
    assert_eq!(ctx.set_blend(false), vec![]);
    let (scope, _) = ctx.with_pipeline(&pipeline);
    let (mut ctx, _) = scope.finish();
    // The scope switched blending on and bound its program; the context
    // was last asked for neither, and a flush takes both back.
    assert_eq!(
        ctx.flush_state(),
        vec![
            DeviceCall::BindBuffer { target: codes::ELEMENT_ARRAY_BUFFER, buffer: None },
            DeviceCall::Disable { capability: codes::BLEND },
            DeviceCall::BlendFunc { src: glow::ONE, dst: glow::ZERO },
            DeviceCall::UseProgram { program: None },
        ]
    );
}

#[test]
fn the_shadow_follows_bindings_made_in_a_scope() {
    let pipeline = RenderPipeline::new(program(10)).with_vertex_attribute(attribute(0, 2, 8, 0));
    let mut ctx = context();
    ctx.flush_state();
    let (mut scope, _) = ctx.with_pipeline(&pipeline);
    let buffers = [handle(30)];
    scope.apply_bindings(&buffers, Some(&handle(31))).unwrap();
    let (mut ctx, _) = scope.finish();
    assert_eq!(ctx.bind_array_buffer(&handle(30)), Ok(vec![]));
    assert_eq!(ctx.bind_index_buffer(&handle(31)), Ok(vec![]));
    assert_eq!(ctx.use_program(&handle(10)), vec![]);
}

#[test]
fn a_released_program_is_deleted_only_by_its_last_holder() {
    assert_eq!(rapax::pipeline::released(None), vec![]);
    assert_eq!(
        rapax::pipeline::released(Some(program(10))),
        vec![DeviceCall::DeleteProgram { program: handle(10) }]
    );
}

#[test]
fn a_uniform_looked_up_in_another_program_is_refused() {
    let pipeline = RenderPipeline::new(program(10));
    let (scope, _) = context().with_pipeline(&pipeline);
    let elsewhere = UniformLookup { program: handle(77), location: Some(3) };
    assert_eq!(scope.set_uniform_float4(elsewhere, &[0; 4]), Err(DrawError::WrongProgram));
    assert_eq!(scope.set_uniform_int1(elsewhere, 1), Err(DrawError::WrongProgram));
    assert_eq!(scope.set_uniform_mat4(elsewhere, &[0; 16], false), Err(DrawError::WrongProgram));
    let nowhere = UniformLookup { program: handle(77), location: None };
    assert_eq!(scope.set_uniform_float1(nowhere, 0), Err(DrawError::WrongProgram));
}

#[test]
fn buffers_bind_only_where_they_were_made_for() {
    let mut ctx = context();
    let (vertices, _) =
        BufferHandle::array_buffer(&mut ctx, Ok(handle(20)), BufferUsage::Immutable, &[0; 8])
            .unwrap();
    assert_eq!(
        rapax::buffer::bind(&vertices, BufferType::ArrayBuffer),
        Ok(DeviceCall::BindBuffer { target: glow::ARRAY_BUFFER, buffer: Some(handle(20)) })
    );
    assert_eq!(
        rapax::buffer::bind(&vertices, BufferType::ElementArrayBuffer),
        Err(BindError::WrongBindingPoint {
            asked: BufferType::ElementArrayBuffer,
            made_for: BufferType::ArrayBuffer
        })
    );
    assert_eq!(
        rapax::buffer::bind(&handle(21), BufferType::ElementArrayBuffer),
        Ok(DeviceCall::BindBuffer { target: glow::ELEMENT_ARRAY_BUFFER, buffer: Some(handle(21)) })
    );
}

/// The divisor each attribute index is left with after `calls`.
fn divisors_after(calls: &[DeviceCall]) -> Vec<(u32, u32)> {
    let mut divisors: Vec<(u32, u32)> = Vec::new();
    for call in calls {
        if let DeviceCall::VertexAttribDivisor { index, divisor } = call {
            divisors.retain(|(of, _)| of != index);
            divisors.push((*index, *divisor));
        }
    }
    divisors.sort();
    divisors
}

#[test]
fn the_device_is_told_how_each_attribute_steps() {
    let per_vertex = attribute(0, 2, 8, 0);
    let per_instance = VertexAttributeDescriptor { divisor: 1, ..attribute(1, 4, 16, 0) };
    let every_third = VertexAttributeDescriptor { divisor: 3, ..attribute(1, 4, 16, 0) };
    let pipeline = RenderPipeline::new(program(10))
        .with_vertex_attribute(per_vertex)
        .with_vertex_attribute(per_instance)
        .with_vertex_attribute(every_third);
    let (mut scope, _) = context().with_pipeline(&pipeline);
    let buffers = [handle(30), handle(31)];
    let calls = scope.apply_bindings(&buffers, None::<&NativeHandle>).unwrap();
    assert_eq!(divisors_after(&calls), vec![(0, 0), (1, 1), (2, 3)]);
    assert_eq!(
        calls[4..8],
        [
            DeviceCall::BindBuffer { target: glow::ARRAY_BUFFER, buffer: Some(handle(31)) },
            DeviceCall::VertexAttribPointer {
                index: 1,
                size: 4,
                data_type: glow::FLOAT,
                normalized: false,
                stride: 16,
                offset: 0
            },
            DeviceCall::VertexAttribDivisor { index: 1, divisor: 1 },
            DeviceCall::EnableVertexAttribArray { index: 1 },
        ]
    );
    assert_eq!(calls.len(), 12);
}

#[test]
fn a_later_pipeline_takes_back_the_divisor_of_an_earlier_one() {
    let instanced = RenderPipeline::new(program(10))
        .with_vertex_attribute(VertexAttributeDescriptor { divisor: 2, ..attribute(0, 4, 16, 0) });
    let plain = RenderPipeline::new(program(40)).with_vertex_attribute(attribute(0, 2, 8, 0));
    let buffers = [handle(30)];
    let mut issued = Vec::new();
    let (mut scope, _) = context().with_pipeline(&instanced);
    issued.extend(scope.apply_bindings(&buffers, None::<&NativeHandle>).unwrap());
    assert_eq!(divisors_after(&issued), vec![(0, 2)]);
    let (ctx, _) = scope.finish();
    let (mut scope, _) = ctx.with_pipeline(&plain);
    issued.extend(scope.apply_bindings(&buffers, None::<&NativeHandle>).unwrap());
    assert_eq!(divisors_after(&issued), vec![(0, 0)]);
}
