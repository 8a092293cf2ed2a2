//! Building a program, and setting uniforms on one.

use rapax::{
    BuildStep, DeviceCall, DeviceQuery, DeviceReply, DrawError, ManagedContext, NativeHandle,
    ProgramSource, ShaderError, ShaderProgram, ShaderStage, UniformLookup, UniformValue,
};

const VERTEX: &str = "void main() { gl_Position = vec4(0.0); }";
const FRAGMENT: &str = "void main() { }";

fn handle(id: u32) -> NativeHandle {
    NativeHandle::new(id).unwrap()
}

fn context() -> ManagedContext {
    ManagedContext::new(Ok(handle(1))).unwrap()
}

/// A lookup in program 10 that found the uniform at `location`.
fn found(location: u32) -> UniformLookup {
    UniformLookup { program: handle(10), location: Some(location) }
}

/// A lookup in program 10 that found nothing.
fn missing() -> UniformLookup {
    UniformLookup { program: handle(10), location: None }
}

/// What a build made the device do, and how it ended.
struct Transcript<'a> {
    calls: Vec<DeviceCall<'a>>,
    queries: Vec<DeviceQuery>,
    result: Option<Result<ShaderProgram, ShaderError>>,
}

/// Runs a build against a device that gives `replies` in turn.
fn run<'a>(replies: Vec<DeviceReply>) -> Transcript<'a> {
    let (mut build, first) = ShaderProgram::new(VERTEX, FRAGMENT);
    let mut transcript = Transcript { calls: Vec::new(), queries: vec![first], result: None };
    for reply in replies {
        match build.resume(reply) {
            BuildStep::Ask { calls, query, build: next } => {
                transcript.calls.extend(calls);
                transcript.queries.push(query);
                build = next;
            }
            BuildStep::Done { calls, result } => {
                transcript.calls.extend(calls);
                transcript.result = Some(result);
                break;
            }
        }
    }
    transcript
}

fn built() -> ShaderProgram {
    run(vec![
        DeviceReply::Created(Ok(handle(10))),
        DeviceReply::Created(Ok(handle(11))),
        DeviceReply::Status(true),
        DeviceReply::Created(Ok(handle(12))),
        DeviceReply::Status(true),
        DeviceReply::Status(true),
    ])
    .result
    .unwrap()
    .unwrap()
}

#[test]
fn a_build_starts_by_asking_for_a_program() {
    let (_, query) = ShaderProgram::new(VERTEX, FRAGMENT);
    assert_eq!(query, DeviceQuery::CreateProgram);
}

#[test]
fn a_good_build_leaves_only_the_linked_program() {
    let transcript = run(vec![
        DeviceReply::Created(Ok(handle(10))),
        DeviceReply::Created(Ok(handle(11))),
        DeviceReply::Status(true),
        DeviceReply::Created(Ok(handle(12))),
        DeviceReply::Status(true),
        DeviceReply::Status(true),
    ]);
    assert_eq!(
        transcript.queries,
        vec![
            DeviceQuery::CreateProgram,
            DeviceQuery::CreateShader { stage: ShaderStage::Vertex },
            DeviceQuery::CompileStatus { shader: handle(11) },
            DeviceQuery::CreateShader { stage: ShaderStage::Fragment },
            DeviceQuery::CompileStatus { shader: handle(12) },
            DeviceQuery::LinkStatus { program: handle(10) },
        ]
    );
    assert_eq!(
        transcript.calls,
        vec![
            DeviceCall::ShaderSource { shader: handle(11), source: VERTEX },
            DeviceCall::CompileShader { shader: handle(11) },
            DeviceCall::AttachShader { program: handle(10), shader: handle(11) },
            DeviceCall::ShaderSource { shader: handle(12), source: FRAGMENT },
            DeviceCall::CompileShader { shader: handle(12) },
            DeviceCall::AttachShader { program: handle(10), shader: handle(12) },
            DeviceCall::LinkProgram { program: handle(10) },
            DeviceCall::DetachShader { program: handle(10), shader: handle(11) },
            DeviceCall::DeleteShader { shader: handle(11) },
            DeviceCall::DetachShader { program: handle(10), shader: handle(12) },
            DeviceCall::DeleteShader { shader: handle(12) },
        ]
    );
    let program = transcript.result.unwrap().unwrap();
    assert_eq!(program.handle(), handle(10));
    assert_eq!(program.native_program(), handle(10));
}

#[test]
fn a_vertex_stage_that_does_not_compile_ends_the_build_with_its_log() {
    let transcript = run(vec![
        DeviceReply::Created(Ok(handle(10))),
        DeviceReply::Created(Ok(handle(11))),
        DeviceReply::Status(false),
        DeviceReply::Log(String::from("0:1: syntax error")),
    ]);
    assert_eq!(
        transcript.queries,
        vec![
            DeviceQuery::CreateProgram,
            DeviceQuery::CreateShader { stage: ShaderStage::Vertex },
            DeviceQuery::CompileStatus { shader: handle(11) },
            DeviceQuery::ShaderInfoLog { shader: handle(11) },
        ]
    );
    assert_eq!(
        transcript.calls,
        vec![
            DeviceCall::ShaderSource { shader: handle(11), source: VERTEX },
            DeviceCall::CompileShader { shader: handle(11) },
        ]
    );
    assert_eq!(
        transcript.result.unwrap().err(),
        Some(ShaderError::Compile {
            stage: ShaderStage::Vertex,
            log: String::from("0:1: syntax error")
        })
    );
}

#[test]
fn a_fragment_stage_that_does_not_compile_ends_the_build_with_its_log() {
    let transcript = run(vec![
        DeviceReply::Created(Ok(handle(10))),
        DeviceReply::Created(Ok(handle(11))),
        DeviceReply::Status(true),
        DeviceReply::Created(Ok(handle(12))),
        DeviceReply::Status(false),
        DeviceReply::Log(String::from("undeclared identifier")),
    ]);
    assert_eq!(transcript.queries.last(), Some(&DeviceQuery::ShaderInfoLog { shader: handle(12) }));
    assert!(!transcript.calls.iter().any(|call| matches!(call, DeviceCall::LinkProgram { .. })));
    assert!(!transcript
        .calls
        .contains(&DeviceCall::AttachShader { program: handle(10), shader: handle(12) }));
    assert_eq!(
        transcript.result.unwrap().err(),
        Some(ShaderError::Compile {
            stage: ShaderStage::Fragment,
            log: String::from("undeclared identifier")
        })
    );
}

#[test]
fn a_program_that_does_not_link_ends_the_build_with_the_program_log() {
    let transcript = run(vec![
        DeviceReply::Created(Ok(handle(10))),
        DeviceReply::Created(Ok(handle(11))),
        DeviceReply::Status(true),
        DeviceReply::Created(Ok(handle(12))),
        DeviceReply::Status(true),
        DeviceReply::Status(false),
        DeviceReply::Log(String::from("varying mismatch")),
    ]);
    assert_eq!(
        transcript.queries[5..],
        [
            DeviceQuery::LinkStatus { program: handle(10) },
            DeviceQuery::ProgramInfoLog { program: handle(10) }
        ]
    );
    assert_eq!(transcript.calls.len(), 7);
    assert_eq!(
        transcript.result.unwrap().err(),
        Some(ShaderError::Link { log: String::from("varying mismatch") })
    );
}

#[test]
fn objects_the_device_cannot_make_end_the_build() {
    for successes in 0..3 {
        let mut replies: Vec<DeviceReply> = Vec::new();
        let script = [
            DeviceReply::Created(Ok(handle(10))),
            DeviceReply::Created(Ok(handle(11))),
            DeviceReply::Status(true),
        ];
        let take = [0, 1, 3][successes];
        replies.extend(script.into_iter().take(take));
        replies.push(DeviceReply::Created(Err(String::from("out of names"))));
        let transcript = run(replies);
        assert_eq!(
            transcript.result.unwrap().err(),
            Some(ShaderError::OutOfResources { message: String::from("out of names") })
        );
    }
}

#[test]
fn a_reply_to_another_question_changes_nothing() {
    let (build, _) = ShaderProgram::new(VERTEX, FRAGMENT);
    let build = match build.resume(DeviceReply::Status(true)) {
        BuildStep::Ask { calls, query, build } => {
            assert_eq!(calls, vec![]);
            assert_eq!(query, DeviceQuery::CreateProgram);
            build
        }
        BuildStep::Done { .. } => panic!("the build is not over"),
    };
    let build = match build.resume(DeviceReply::Created(Ok(handle(10)))) {
        BuildStep::Ask { query, build, .. } => {
            assert_eq!(query, DeviceQuery::CreateShader { stage: ShaderStage::Vertex });
            build
        }
        BuildStep::Done { .. } => panic!("the build is not over"),
    };
    let build = match build.resume(DeviceReply::Created(Ok(handle(11)))) {
        BuildStep::Ask { build, .. } => build,
        BuildStep::Done { .. } => panic!("the build is not over"),
    };
    match build.resume(DeviceReply::Log(String::from("stray"))) {
        BuildStep::Ask { calls, query, build: same } => {
            assert_eq!(calls, vec![]);
            assert_eq!(query, DeviceQuery::CompileStatus { shader: handle(11) });
            assert_eq!(same, build);
        }
        BuildStep::Done { .. } => panic!("the build is not over"),
    }
    match build.resume(DeviceReply::Created(Ok(handle(12)))) {
        BuildStep::Ask { query, build: same, .. } => {
            assert_eq!(query, DeviceQuery::CompileStatus { shader: handle(11) });
            assert_eq!(same, build);
        }
        BuildStep::Done { .. } => panic!("the build is not over"),
    }
}

#[test]
fn program_uniforms_make_the_program_active_first() {
    let mut ctx = context();
    let program = built();
    let one = 1.0f32.to_bits();
    let active = DeviceCall::UseProgram { program: Some(handle(10)) };
    assert_eq!(
        program.set_uniform_float4(&mut ctx, found(3), &[one, 0, 0, one]),
        Ok(vec![
            active,
            DeviceCall::Uniform {
                location: 3,
                value: UniformValue::Float4 { x: one, y: 0, z: 0, w: one }
            },
        ])
    );
    assert_eq!(
        program.set_uniform_float3(&mut ctx, found(2), &[one, 0, one]),
        Ok(vec![
            active,
            DeviceCall::Uniform { location: 2, value: UniformValue::Float3 { x: one, y: 0, z: one } },
        ])
    );
    assert_eq!(
        program.set_uniform_float2(&mut ctx, found(1), &[0, one]),
        Ok(vec![
            active,
            DeviceCall::Uniform { location: 1, value: UniformValue::Float2 { x: 0, y: one } },
        ])
    );
    assert_eq!(
        program.set_uniform_float1(&mut ctx, found(0), one),
        Ok(vec![active, DeviceCall::Uniform { location: 0, value: UniformValue::Float1 { x: one } }])
    );
    assert_eq!(
        program.set_uniform_mat2(&mut ctx, found(4), &[one, 0, 0, one], true),
        Ok(vec![
            active,
            DeviceCall::Uniform {
                location: 4,
                value: UniformValue::Matrix2 { transpose: true, components: [one, 0, 0, one] }
            },
        ])
    );
    assert_eq!(
        program.set_uniform_mat3(&mut ctx, found(5), &[7; 9], false),
        Ok(vec![
            active,
            DeviceCall::Uniform {
                location: 5,
                value: UniformValue::Matrix3 { transpose: false, components: [7; 9] }
            },
        ])
    );
    assert_eq!(
        program.set_uniform_mat4(&mut ctx, found(6), &[8; 16], false),
        Ok(vec![
            active,
            DeviceCall::Uniform {
                location: 6,
                value: UniformValue::Matrix4 { transpose: false, components: [8; 16] }
            },
        ])
    );
    // The program is left active, and the context knows.
    assert_eq!(ctx.use_program(&program), vec![]);
}

#[test]
fn program_uniforms_that_were_not_found_are_refused() {
    let mut ctx = context();
    let program = built();
    assert_eq!(program.set_uniform_float4(&mut ctx, missing(), &[0; 4]), Err(DrawError::NoSuchUniform));
    assert_eq!(program.set_uniform_float3(&mut ctx, missing(), &[0; 3]), Err(DrawError::NoSuchUniform));
    assert_eq!(program.set_uniform_float2(&mut ctx, missing(), &[0; 2]), Err(DrawError::NoSuchUniform));
    assert_eq!(program.set_uniform_float1(&mut ctx, missing(), 0), Err(DrawError::NoSuchUniform));
    assert_eq!(
        program.set_uniform_mat2(&mut ctx, missing(), &[0; 4], false),
        Err(DrawError::NoSuchUniform)
    );
    assert_eq!(
        program.set_uniform_mat3(&mut ctx, missing(), &[0; 9], false),
        Err(DrawError::NoSuchUniform)
    );
    assert_eq!(
        program.set_uniform_mat4(&mut ctx, missing(), &[0; 16], false),
        Err(DrawError::NoSuchUniform)
    );
    // Nothing was made active.
    assert_eq!(ctx.use_program(&program).len(), 1);
}

#[test]
fn destroying_a_program_deletes_it() {
    assert_eq!(built().destroy(), vec![DeviceCall::DeleteProgram { program: handle(10) }]);
}

/// A program the calling program keeps track of itself.
struct Foreign(u32);

impl ProgramSource for Foreign {
    fn native_program(&self) -> NativeHandle {
        handle(self.0)
    }
}

#[test]
fn a_type_of_the_calling_program_can_name_a_program() {
    let mut ctx = context();
    assert_eq!(
        ctx.use_program(&Foreign(60)),
        vec![DeviceCall::UseProgram { program: Some(handle(60)) }]
    );
    assert_eq!(ctx.use_program(&Foreign(60)), vec![]);
}

#[test]
fn program_uniforms_looked_up_elsewhere_are_refused() {
    let mut ctx = context();
    let program = built();
    let elsewhere = UniformLookup { program: handle(77), location: Some(3) };
    assert_eq!(
        program.set_uniform_float4(&mut ctx, elsewhere, &[0; 4]),
        Err(DrawError::WrongProgram)
    );
    assert_eq!(
        program.set_uniform_mat3(&mut ctx, elsewhere, &[0; 9], true),
        Err(DrawError::WrongProgram)
    );
    assert_eq!(ctx.use_program(&program).len(), 1);
}
