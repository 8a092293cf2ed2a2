//! Shader programs, and the building of one from its two stage sources.
//!
//! Building a program is a conversation with the device: objects are asked
//! for, sources compiled, statuses and logs read back. The library holds the
//! thread of that conversation in a [`ShaderBuild`]; it says what to tell the
//! device and what to ask it next, and is handed each answer in turn.

use vstd::prelude::*;
use crate::codes;
use crate::ctx::ManagedContext;
use crate::device::{agrees, calls_of, single, DeviceCall, UniformLookup, UniformValue};
use crate::error::{DrawError, ShaderError, ShaderStage};
use crate::handle::NativeHandle;

verus! {

/// A linked program. It owns the device's program object: destroying it
/// deletes the object.
#[derive(Debug)]
pub struct ShaderProgram {
    program: NativeHandle,
}

/// Something that names a program on the device.
///
/// The contracts of the library speak of `program_name`. A type that takes
/// this trait in verified code says what that is and proves that
/// `native_program` returns it; for a type that takes it elsewhere it stands
/// for whatever `native_program` returns, which must then always be the
/// same.
pub trait ProgramSource {
    /// The name of the program.
    open spec fn program_name(&self) -> NativeHandle {
        arbitrary()
    }

    fn native_program(&self) -> (r: NativeHandle)
        ensures
            r == self.program_name(),
    ;
}

impl ProgramSource for ShaderProgram {
    open spec fn program_name(&self) -> NativeHandle {
        self.native()
    }

    fn native_program(&self) -> (r: NativeHandle) {
        self.program
    }
}

impl ProgramSource for NativeHandle {
    open spec fn program_name(&self) -> NativeHandle {
        *self
    }

    fn native_program(&self) -> (r: NativeHandle) {
        *self
    }
}

impl ShaderStage {
    /// The device's number for this stage.
    pub open spec fn code(self) -> u32 {
        match self {
            ShaderStage::Vertex => codes::VERTEX_SHADER,
            ShaderStage::Fragment => codes::FRAGMENT_SHADER,
        }
    }

    pub fn to_gl(&self) -> (r: u32)
        ensures
            r == self.code(),
    {
        match self {
            ShaderStage::Vertex => codes::VERTEX_SHADER,
            ShaderStage::Fragment => codes::FRAGMENT_SHADER,
        }
    }
}

/// A question to the device.
#[derive(Clone, Copy, Debug, PartialEq, Eq)]
pub enum DeviceQuery {
    /// Create a program object. Answered by [`DeviceReply::Created`].
    CreateProgram,
    /// Create a shader object of the given stage. Answered by
    /// [`DeviceReply::Created`].
    CreateShader { stage: ShaderStage },
    /// Did the shader compile? Answered by [`DeviceReply::Status`].
    CompileStatus { shader: NativeHandle },
    /// The diagnostic log of the shader. Answered by [`DeviceReply::Log`].
    ShaderInfoLog { shader: NativeHandle },
    /// Did the program link? Answered by [`DeviceReply::Status`].
    LinkStatus { program: NativeHandle },
    /// The diagnostic log of the program. Answered by [`DeviceReply::Log`].
    ProgramInfoLog { program: NativeHandle },
}

/// An answer of the device.
#[derive(Debug, PartialEq, Eq)]
pub enum DeviceReply {
    /// The object that was created, or why none could be.
    Created(Result<NativeHandle, String>),
    Status(bool),
    Log(String),
}

/// How far a build has come: what has been made so far, and thereby which
/// answer is awaited.
#[derive(Clone, Copy, Debug, PartialEq, Eq)]
pub enum BuildState {
    /// The program object has been asked for.
    Program,
    /// The vertex shader object has been asked for.
    VertexShader { program: NativeHandle },
    /// The vertex shader has been told to compile.
    VertexStatus { program: NativeHandle, vertex: NativeHandle },
    /// The fragment shader object has been asked for.
    FragmentShader { program: NativeHandle, vertex: NativeHandle },
    /// The fragment shader has been told to compile.
    FragmentStatus { program: NativeHandle, vertex: NativeHandle, fragment: NativeHandle },
    /// The program has been told to link.
    LinkStatus { program: NativeHandle, vertex: NativeHandle, fragment: NativeHandle },
    /// A stage did not compile, and its log has been asked for.
    CompileLog { stage: ShaderStage, shader: NativeHandle },
    /// The program did not link, and its log has been asked for.
    LinkLog { program: NativeHandle },
}

impl BuildState {
    /// The question that is open in this state.
    pub open spec fn pending(self) -> DeviceQuery {
        match self {
            BuildState::Program => DeviceQuery::CreateProgram,
            BuildState::VertexShader { .. } => DeviceQuery::CreateShader {
                stage: ShaderStage::Vertex,
            },
            BuildState::VertexStatus { vertex, .. } => DeviceQuery::CompileStatus {
                shader: vertex,
            },
            BuildState::FragmentShader { .. } => DeviceQuery::CreateShader {
                stage: ShaderStage::Fragment,
            },
            BuildState::FragmentStatus { fragment, .. } => DeviceQuery::CompileStatus {
                shader: fragment,
            },
            BuildState::LinkStatus { program, .. } => DeviceQuery::LinkStatus { program },
            BuildState::CompileLog { shader, .. } => DeviceQuery::ShaderInfoLog { shader },
            BuildState::LinkLog { program } => DeviceQuery::ProgramInfoLog { program },
        }
    }

    /// The question that is open in this state.
    pub fn query(&self) -> (r: DeviceQuery)
        ensures
            r == self.pending(),
    {
        match *self {
            BuildState::Program => DeviceQuery::CreateProgram,
            BuildState::VertexShader { .. } => DeviceQuery::CreateShader {
                stage: ShaderStage::Vertex,
            },
            BuildState::VertexStatus { vertex, .. } => DeviceQuery::CompileStatus {
                shader: vertex,
            },
            BuildState::FragmentShader { .. } => DeviceQuery::CreateShader {
                stage: ShaderStage::Fragment,
            },
            BuildState::FragmentStatus { fragment, .. } => DeviceQuery::CompileStatus {
                shader: fragment,
            },
            BuildState::LinkStatus { program, .. } => DeviceQuery::LinkStatus { program },
            BuildState::CompileLog { shader, .. } => DeviceQuery::ShaderInfoLog { shader },
            BuildState::LinkLog { program } => DeviceQuery::ProgramInfoLog { program },
        }
    }
}

/// A build under way.
#[derive(Clone, Copy, Debug, PartialEq, Eq)]
pub struct ShaderBuild<'a> {
    pub vertex_source: &'a str,
    pub fragment_source: &'a str,
    pub state: BuildState,
}

/// What a build wants done next.
#[derive(Debug)]
pub enum BuildStep<'a> {
    /// Issue `calls`, put `query` to the device, and resume `build` with the
    /// answer.
    Ask { calls: Vec<DeviceCall<'a>>, query: DeviceQuery, build: ShaderBuild<'a> },
    /// Issue `calls`; the build is over, and `result` is what came of it.
    Done { calls: Vec<DeviceCall<'a>>, result: Result<ShaderProgram, ShaderError> },
}

/// The mathematical content of a [`BuildStep`].
pub enum StepView<'a> {
    Ask { calls: Seq<DeviceCall<'a>>, query: DeviceQuery, build: ShaderBuild<'a> },
    Done { calls: Seq<DeviceCall<'a>>, result: Result<ShaderProgram, ShaderError> },
}

impl<'a> View for BuildStep<'a> {
    type V = StepView<'a>;

    open spec fn view(&self) -> StepView<'a> {
        match *self {
            BuildStep::Ask { calls, query, build } => StepView::Ask { calls: calls@, query, build },
            BuildStep::Done { calls, result } => StepView::Done { calls: calls@, result },
        }
    }
}

/// The calls that hand a shader its source and compile it.
pub open spec fn compile_calls<'a>(shader: NativeHandle, source: &'a str) -> Seq<DeviceCall<'a>> {
    seq![DeviceCall::ShaderSource { shader, source }, DeviceCall::CompileShader { shader }]
}

/// The calls that take the two shaders off a linked program and delete
/// them.
pub open spec fn cleanup_calls(program: NativeHandle, vertex: NativeHandle, fragment: NativeHandle)
    -> Seq<DeviceCall<'static>> {
    seq![
        DeviceCall::DetachShader { program, shader: vertex },
        DeviceCall::DeleteShader { shader: vertex },
        DeviceCall::DetachShader { program, shader: fragment },
        DeviceCall::DeleteShader { shader: fragment },
    ]
}

impl<'a> ShaderBuild<'a> {
    /// The step that goes on to `state`.
    pub open spec fn ask(self, calls: Seq<DeviceCall<'a>>, state: BuildState) -> StepView<'a> {
        StepView::Ask { calls, query: state.pending(), build: ShaderBuild { state, ..self } }
    }

    /// The step that ends the build in failure. Nothing more is told to the
    /// device.
    pub open spec fn fail(error: ShaderError) -> StepView<'a> {
        StepView::Done { calls: Seq::empty(), result: Err(error) }
    }

    /// What the build does with `reply`.
    ///
    /// The program object is made first, then each stage in turn (vertex,
    /// then fragment) is created, given its source, compiled and, if it
    /// compiled, attached. Then the program is linked, and if it linked, both
    /// shaders are detached and deleted and the program is the result. A
    /// stage that does not compile ends the build with that stage's log, a
    /// program that does not link with the program's log, an object that
    /// cannot be made with the device's message. A reply that does not answer
    /// the open question changes nothing: the question is put again.
    pub open spec fn next(self, reply: DeviceReply) -> StepView<'a> {
        match (self.state, reply) {
            (BuildState::Program, DeviceReply::Created(Ok(program))) => self.ask(
                Seq::empty(),
                BuildState::VertexShader { program },
            ),
            (BuildState::VertexShader { program }, DeviceReply::Created(Ok(vertex))) => self.ask(
                compile_calls(vertex, self.vertex_source),
                BuildState::VertexStatus { program, vertex },
            ),
            (BuildState::VertexStatus { program, vertex }, DeviceReply::Status(true)) => self.ask(
                seq![DeviceCall::AttachShader { program, shader: vertex }],
                BuildState::FragmentShader { program, vertex },
            ),
            (BuildState::VertexStatus { vertex, .. }, DeviceReply::Status(false)) => self.ask(
                Seq::empty(),
                BuildState::CompileLog { stage: ShaderStage::Vertex, shader: vertex },
            ),
            (
                BuildState::FragmentShader { program, vertex },
                DeviceReply::Created(Ok(fragment)),
            ) => self.ask(
                compile_calls(fragment, self.fragment_source),
                BuildState::FragmentStatus { program, vertex, fragment },
            ),
            (
                BuildState::FragmentStatus { program, vertex, fragment },
                DeviceReply::Status(true),
            ) => self.ask(
                seq![
                    DeviceCall::AttachShader { program, shader: fragment },
                    DeviceCall::LinkProgram { program },
                ],
                BuildState::LinkStatus { program, vertex, fragment },
            ),
            (BuildState::FragmentStatus { fragment, .. }, DeviceReply::Status(false)) => self.ask(
                Seq::empty(),
                BuildState::CompileLog { stage: ShaderStage::Fragment, shader: fragment },
            ),
            (
                BuildState::LinkStatus { program, vertex, fragment },
                DeviceReply::Status(true),
            ) => StepView::Done {
                calls: cleanup_calls(program, vertex, fragment),
                result: Ok(ShaderProgram::linked(program)),
            },
            (BuildState::LinkStatus { program, .. }, DeviceReply::Status(false)) => self.ask(
                Seq::empty(),
                BuildState::LinkLog { program },
            ),
            (BuildState::CompileLog { stage, .. }, DeviceReply::Log(log)) => Self::fail(
                ShaderError::Compile { stage, log },
            ),
            (BuildState::LinkLog { .. }, DeviceReply::Log(log)) => Self::fail(
                ShaderError::Link { log },
            ),
            (BuildState::Program, DeviceReply::Created(Err(message))) => Self::fail(
                ShaderError::OutOfResources { message },
            ),
            (BuildState::VertexShader { .. }, DeviceReply::Created(Err(message))) => Self::fail(
                ShaderError::OutOfResources { message },
            ),
            (BuildState::FragmentShader { .. }, DeviceReply::Created(Err(message))) => Self::fail(
                ShaderError::OutOfResources { message },
            ),
            _ => self.ask(Seq::empty(), self.state),
        }
    }

    /// Goes on to `state`, telling the device `calls` on the way.
    fn go(self, calls: Vec<DeviceCall<'a>>, state: BuildState) -> (step: BuildStep<'a>)
        ensures
            step@ == self.ask(calls@, state),
    {
        BuildStep::Ask {
            calls,
            query: state.query(),
            build: ShaderBuild {
                vertex_source: self.vertex_source,
                fragment_source: self.fragment_source,
                state,
            },
        }
    }

    /// Puts the open question again.
    fn stay(self) -> (step: BuildStep<'a>)
        ensures
            step@ == self.ask(Seq::empty(), self.state),
    {
        self.go(Vec::new(), self.state)
    }

    /// Ends the build in failure.
    fn give_up(error: ShaderError) -> (step: BuildStep<'a>)
        ensures
            step@ == Self::fail(error),
    {
        BuildStep::Done { calls: Vec::new(), result: Err(error) }
    }

    /// Hands a shader its source and compiles it.
    fn compile(shader: NativeHandle, source: &'a str) -> (calls: Vec<DeviceCall<'a>>)
        ensures
            calls@ == compile_calls(shader, source),
    {
        let mut calls = single(DeviceCall::ShaderSource { shader, source });
        calls.push(DeviceCall::CompileShader { shader });
        calls
    }

    /// Takes the answer to the open question and says what to do next.
    /// A build that ends well ends with the program the device made for it.
    pub fn resume(self, reply: DeviceReply) -> (step: BuildStep<'a>)
        ensures
            step@ == self.next(reply),
            (step matches BuildStep::Done { result: Ok(made), .. } ==> self.state matches BuildState::LinkStatus {
                program,
                ..
            } && made.native() == program),
    {
        match self.state {
            BuildState::Program => match reply {
                DeviceReply::Created(Ok(program)) => self.go(
                    Vec::new(),
                    BuildState::VertexShader { program },
                ),
                DeviceReply::Created(Err(message)) => Self::give_up(
                    ShaderError::OutOfResources { message },
                ),
                _ => self.stay(),
            },
            BuildState::VertexShader { program } => match reply {
                DeviceReply::Created(Ok(vertex)) => self.go(
                    Self::compile(vertex, self.vertex_source),
                    BuildState::VertexStatus { program, vertex },
                ),
                DeviceReply::Created(Err(message)) => Self::give_up(
                    ShaderError::OutOfResources { message },
                ),
                _ => self.stay(),
            },
            BuildState::VertexStatus { program, vertex } => match reply {
                DeviceReply::Status(true) => self.go(
                    single(DeviceCall::AttachShader { program, shader: vertex }),
                    BuildState::FragmentShader { program, vertex },
                ),
                DeviceReply::Status(false) => self.go(
                    Vec::new(),
                    BuildState::CompileLog { stage: ShaderStage::Vertex, shader: vertex },
                ),
                _ => self.stay(),
            },
            BuildState::FragmentShader { program, vertex } => match reply {
                DeviceReply::Created(Ok(fragment)) => self.go(
                    Self::compile(fragment, self.fragment_source),
                    BuildState::FragmentStatus { program, vertex, fragment },
                ),
                DeviceReply::Created(Err(message)) => Self::give_up(
                    ShaderError::OutOfResources { message },
                ),
                _ => self.stay(),
            },
            BuildState::FragmentStatus { program, vertex, fragment } => match reply {
                DeviceReply::Status(true) => {
                    let mut calls = single(DeviceCall::AttachShader { program, shader: fragment });
                    calls.push(DeviceCall::LinkProgram { program });
                    assert(calls@ =~= seq![
                        DeviceCall::AttachShader { program, shader: fragment },
                        DeviceCall::LinkProgram { program },
                    ]);
                    self.go(calls, BuildState::LinkStatus { program, vertex, fragment })
                },
                DeviceReply::Status(false) => self.go(
                    Vec::new(),
                    BuildState::CompileLog { stage: ShaderStage::Fragment, shader: fragment },
                ),
                _ => self.stay(),
            },
            BuildState::LinkStatus { program, vertex, fragment } => match reply {
                DeviceReply::Status(true) => {
                    let mut calls = single(DeviceCall::DetachShader { program, shader: vertex });
                    calls.push(DeviceCall::DeleteShader { shader: vertex });
                    calls.push(DeviceCall::DetachShader { program, shader: fragment });
                    calls.push(DeviceCall::DeleteShader { shader: fragment });
                    assert(calls@ =~= cleanup_calls(program, vertex, fragment));
                    BuildStep::Done { calls, result: Ok(ShaderProgram { program }) }
                },
                DeviceReply::Status(false) => self.go(Vec::new(), BuildState::LinkLog { program }),
                _ => self.stay(),
            },
            BuildState::CompileLog { stage, .. } => match reply {
                DeviceReply::Log(log) => Self::give_up(ShaderError::Compile { stage, log }),
                _ => self.stay(),
            },
            BuildState::LinkLog { .. } => match reply {
                DeviceReply::Log(log) => Self::give_up(ShaderError::Link { log }),
                _ => self.stay(),
            },
        }
    }
}

impl<'a> StepView<'a> {
    /// Where a build stands once the device has answered the open question:
    /// the calls so far, then what the build says next. A build that is over
    /// stays over.
    pub open spec fn answered(self, reply: DeviceReply) -> StepView<'a> {
        match self {
            StepView::Ask { calls, build, .. } => match build.next(reply) {
                StepView::Ask { calls: more, query, build } => StepView::Ask {
                    calls: calls + more,
                    query,
                    build,
                },
                StepView::Done { calls: more, result } => StepView::Done {
                    calls: calls + more,
                    result,
                },
            },
            StepView::Done { .. } => self,
        }
    }
}

/// Where a build stands before the device has been asked anything.
pub open spec fn opening<'a>(vertex_source: &'a str, fragment_source: &'a str) -> StepView<'a> {
    StepView::Ask {
        calls: Seq::empty(),
        query: DeviceQuery::CreateProgram,
        build: ShaderBuild { vertex_source, fragment_source, state: BuildState::Program },
    }
}

/// Where a build stands once both stages have compiled and the program has
/// been told to link.
pub open spec fn linking<'a>(
    vertex_source: &'a str,
    fragment_source: &'a str,
    program: NativeHandle,
    vertex: NativeHandle,
    fragment: NativeHandle,
) -> StepView<'a> {
    opening(vertex_source, fragment_source).answered(DeviceReply::Created(Ok(program))).answered(
        DeviceReply::Created(Ok(vertex)),
    ).answered(DeviceReply::Status(true)).answered(DeviceReply::Created(Ok(fragment))).answered(
        DeviceReply::Status(true),
    )
}

/// The calls of a build up to and including the link.
pub open spec fn link_calls<'a>(
    vertex_source: &'a str,
    fragment_source: &'a str,
    program: NativeHandle,
    vertex: NativeHandle,
    fragment: NativeHandle,
) -> Seq<DeviceCall<'a>> {
    compile_calls(vertex, vertex_source) + seq![
        DeviceCall::AttachShader { program, shader: vertex },
    ] + compile_calls(fragment, fragment_source) + seq![
        DeviceCall::AttachShader { program, shader: fragment },
        DeviceCall::LinkProgram { program },
    ]
}

/// When both stages compile, both are attached and the program is told to
/// link.
pub proof fn compiled_stages_are_linked<'a>(
    vertex_source: &'a str,
    fragment_source: &'a str,
    program: NativeHandle,
    vertex: NativeHandle,
    fragment: NativeHandle,
)
    ensures
        linking(vertex_source, fragment_source, program, vertex, fragment) == (StepView::Ask {
            calls: link_calls(vertex_source, fragment_source, program, vertex, fragment),
            query: DeviceQuery::LinkStatus { program },
            build: ShaderBuild {
                vertex_source,
                fragment_source,
                state: BuildState::LinkStatus { program, vertex, fragment },
            },
        }),
{
}

/// A build that the device accepts leaves nothing but the linked program:
/// once the program has linked, both shaders are detached and deleted, and
/// the program is the result.
pub proof fn accepted_build_leaves_only_the_program<'a>(
    vertex_source: &'a str,
    fragment_source: &'a str,
    program: NativeHandle,
    vertex: NativeHandle,
    fragment: NativeHandle,
)
    ensures
        linking(vertex_source, fragment_source, program, vertex, fragment).answered(
            DeviceReply::Status(true),
        ) == (StepView::Done {
            calls: link_calls(vertex_source, fragment_source, program, vertex, fragment)
                + cleanup_calls(program, vertex, fragment),
            result: Ok(ShaderProgram::linked(program)),
        }),
{
    compiled_stages_are_linked(vertex_source, fragment_source, program, vertex, fragment);
}

/// A program that does not link ends the build with the program's log, and
/// with nothing told to the device after the link.
pub proof fn failed_link_reports_the_program_log<'a>(
    vertex_source: &'a str,
    fragment_source: &'a str,
    program: NativeHandle,
    vertex: NativeHandle,
    fragment: NativeHandle,
    log: String,
)
    ensures
        linking(vertex_source, fragment_source, program, vertex, fragment).answered(
            DeviceReply::Status(false),
        ).answered(DeviceReply::Log(log)) == (StepView::Done {
            calls: link_calls(vertex_source, fragment_source, program, vertex, fragment),
            result: Err(ShaderError::Link { log }),
        }),
{
    compiled_stages_are_linked(vertex_source, fragment_source, program, vertex, fragment);
}

/// A stage that does not compile ends the build with the log of that very
/// stage, whatever state the build was in otherwise.
pub proof fn failed_compile_reports_the_stage_log<'a>(build: ShaderBuild<'a>, log: String)
    ensures
        (build.state matches BuildState::VertexStatus { vertex, .. } ==> build.next(
            DeviceReply::Status(false),
        ) == build.ask(
            Seq::empty(),
            BuildState::CompileLog { stage: ShaderStage::Vertex, shader: vertex },
        )),
        (build.state matches BuildState::FragmentStatus { fragment, .. } ==> build.next(
            DeviceReply::Status(false),
        ) == build.ask(
            Seq::empty(),
            BuildState::CompileLog { stage: ShaderStage::Fragment, shader: fragment },
        )),
        (build.state matches BuildState::CompileLog { stage, shader } ==> build.state.pending()
            == (DeviceQuery::ShaderInfoLog { shader }) && build.next(DeviceReply::Log(log))
            == ShaderBuild::fail(ShaderError::Compile { stage, log })),
{
}

/// What assigning `value` to the uniform that `lookup` found in `program`
/// comes to: the program is made active and the uniform set, or, when the
/// lookup was made in another program or found no uniform, nothing is done.
pub open spec fn program_uniform_outcome(
    program: NativeHandle,
    lookup: UniformLookup,
    value: UniformValue,
) -> Result<Seq<DeviceCall<'static>>, DrawError> {
    if lookup.program != program {
        Err(DrawError::WrongProgram)
    } else {
        match lookup.location {
            Some(location) => Ok(
                seq![
                    DeviceCall::UseProgram { program: Some(program) },
                    DeviceCall::Uniform { location, value },
                ],
            ),
            None => Err(DrawError::NoSuchUniform),
        }
    }
}

impl ShaderProgram {
    /// The device's name for the program.
    pub closed spec fn native(&self) -> NativeHandle {
        self.program
    }

    /// The program whose device name is `program`.
    pub closed spec fn linked(program: NativeHandle) -> ShaderProgram {
        ShaderProgram { program }
    }

    /// The program whose device name is `program` has that name: the
    /// program a build ends with is the one the device made for it.
    pub proof fn linked_has_its_name(program: NativeHandle)
        ensures
            ShaderProgram::linked(program).native() == program,
    {
    }

    /// A program is determined by its device name.
    pub proof fn determined_by_name(self)
        ensures
            self == ShaderProgram::linked(self.native()),
    {
    }

    /// The device's name for the program.
    pub fn handle(&self) -> (r: NativeHandle)
        ensures
            r == self.native(),
    {
        self.program
    }

    /// Begins to build a program from the sources of its two stages.
    ///
    /// Returns the build and its first question. Put the question to the
    /// device and hand the answer to [`ShaderBuild::resume`]; do as the step
    /// that comes back says, until one says the build is done.
    pub fn new<'a>(vertex_shader_source: &'a str, fragment_shader_source: &'a str) -> (r: (
        ShaderBuild<'a>,
        DeviceQuery,
    ))
        ensures
            r.0 == (ShaderBuild {
                vertex_source: vertex_shader_source,
                fragment_source: fragment_shader_source,
                state: BuildState::Program,
            }),
            r.1 == DeviceQuery::CreateProgram,
    {
        (
            ShaderBuild {
                vertex_source: vertex_shader_source,
                fragment_source: fragment_shader_source,
                state: BuildState::Program,
            },
            DeviceQuery::CreateProgram,
        )
    }

    /// Makes the program active and assigns `value` to the uniform that
    /// `lookup` found.
    fn set_uniform(&self, ctx: &mut ManagedContext, lookup: UniformLookup, value: UniformValue) -> (r:
        Result<Vec<DeviceCall<'static>>, DrawError>)
        ensures
            agrees(r, program_uniform_outcome(self.native(), lookup, value)),
            final(ctx)@ == old(ctx)@.witnessed_all(
                calls_of(program_uniform_outcome(self.native(), lookup, value)),
            ),
    {
        if lookup.program != self.program {
            return Err(DrawError::WrongProgram);
        }
        match lookup.location {
            Some(location) => {
                let mut calls = single(DeviceCall::UseProgram { program: Some(self.program) });
                calls.push(DeviceCall::Uniform { location, value });
                assert(calls@ =~= seq![
                    DeviceCall::UseProgram { program: Some(self.program) },
                    DeviceCall::Uniform { location, value },
                ]);
                ctx.witness(&calls);
                Ok(calls)
            },
            None => Err(DrawError::NoSuchUniform),
        }
    }

    /// Sets a uniform of four floats, given as bit patterns.
    ///
    /// Here and in the other `set_uniform_` methods, `lookup` is what the
    /// device answered when the uniform's name was looked up. A lookup made
    /// in another program than this one is refused, and so is one that found
    /// no uniform of that name; in either case nothing is done. Otherwise the
    /// program is made the active one and stays so.
    pub fn set_uniform_float4(
        &self,
        ctx: &mut ManagedContext,
        lookup: UniformLookup,
        value: &[u32; 4],
    ) -> (r: Result<Vec<DeviceCall<'static>>, DrawError>)
        ensures
            agrees(r, program_uniform_outcome(self.native(), lookup, float4(*value))),
            final(ctx)@ == old(ctx)@.witnessed_all(
                calls_of(program_uniform_outcome(self.native(), lookup, float4(*value))),
            ),
    {
        self.set_uniform(
            ctx,
            lookup,
            UniformValue::Float4 { x: value[0], y: value[1], z: value[2], w: value[3] },
        )
    }

    /// Sets a uniform of three floats, given as bit patterns.
    pub fn set_uniform_float3(
        &self,
        ctx: &mut ManagedContext,
        lookup: UniformLookup,
        value: &[u32; 3],
    ) -> (r: Result<Vec<DeviceCall<'static>>, DrawError>)
        ensures
            agrees(r, program_uniform_outcome(self.native(), lookup, float3(*value))),
            final(ctx)@ == old(ctx)@.witnessed_all(
                calls_of(program_uniform_outcome(self.native(), lookup, float3(*value))),
            ),
    {
        self.set_uniform(
            ctx,
            lookup,
            UniformValue::Float3 { x: value[0], y: value[1], z: value[2] },
        )
    }

    /// Sets a uniform of two floats, given as bit patterns.
    pub fn set_uniform_float2(
        &self,
        ctx: &mut ManagedContext,
        lookup: UniformLookup,
        value: &[u32; 2],
    ) -> (r: Result<Vec<DeviceCall<'static>>, DrawError>)
        ensures
            agrees(r, program_uniform_outcome(self.native(), lookup, float2(*value))),
            final(ctx)@ == old(ctx)@.witnessed_all(
                calls_of(program_uniform_outcome(self.native(), lookup, float2(*value))),
            ),
    {
        self.set_uniform(ctx, lookup, UniformValue::Float2 { x: value[0], y: value[1] })
    }

    /// Sets a uniform of one float, given as its bit pattern.
    pub fn set_uniform_float1(&self, ctx: &mut ManagedContext, lookup: UniformLookup, value: u32) -> (r:
        Result<Vec<DeviceCall<'static>>, DrawError>)
        ensures
            agrees(
                r,
                program_uniform_outcome(self.native(), lookup, UniformValue::Float1 { x: value }),
            ),
            final(ctx)@ == old(ctx)@.witnessed_all(
                calls_of(
                    program_uniform_outcome(
                        self.native(),
                        lookup,
                        UniformValue::Float1 { x: value },
                    ),
                ),
            ),
    {
        self.set_uniform(ctx, lookup, UniformValue::Float1 { x: value })
    }

    /// Sets a 2 by 2 matrix uniform, components given as bit patterns.
    pub fn set_uniform_mat2(
        &self,
        ctx: &mut ManagedContext,
        lookup: UniformLookup,
        value: &[u32; 4],
        transpose: bool,
    ) -> (r: Result<Vec<DeviceCall<'static>>, DrawError>)
        ensures
            agrees(
                r,
                program_uniform_outcome(
                    self.native(),
                    lookup,
                    UniformValue::Matrix2 { transpose, components: *value },
                ),
            ),
            final(ctx)@ == old(ctx)@.witnessed_all(
                calls_of(
                    program_uniform_outcome(
                        self.native(),
                        lookup,
                        UniformValue::Matrix2 { transpose, components: *value },
                    ),
                ),
            ),
    {
        self.set_uniform(ctx, lookup, UniformValue::Matrix2 { transpose, components: *value })
    }

    /// Sets a 3 by 3 matrix uniform, components given as bit patterns.
    pub fn set_uniform_mat3(
        &self,
        ctx: &mut ManagedContext,
        lookup: UniformLookup,
        value: &[u32; 9],
        transpose: bool,
    ) -> (r: Result<Vec<DeviceCall<'static>>, DrawError>)
        ensures
            agrees(
                r,
                program_uniform_outcome(
                    self.native(),
                    lookup,
                    UniformValue::Matrix3 { transpose, components: *value },
                ),
            ),
            final(ctx)@ == old(ctx)@.witnessed_all(
                calls_of(
                    program_uniform_outcome(
                        self.native(),
                        lookup,
                        UniformValue::Matrix3 { transpose, components: *value },
                    ),
                ),
            ),
    {
        self.set_uniform(ctx, lookup, UniformValue::Matrix3 { transpose, components: *value })
    }

    /// Sets a 4 by 4 matrix uniform, components given as bit patterns.
    pub fn set_uniform_mat4(
        &self,
        ctx: &mut ManagedContext,
        lookup: UniformLookup,
        value: &[u32; 16],
        transpose: bool,
    ) -> (r: Result<Vec<DeviceCall<'static>>, DrawError>)
        ensures
            agrees(
                r,
                program_uniform_outcome(
                    self.native(),
                    lookup,
                    UniformValue::Matrix4 { transpose, components: *value },
                ),
            ),
            final(ctx)@ == old(ctx)@.witnessed_all(
                calls_of(
                    program_uniform_outcome(
                        self.native(),
                        lookup,
                        UniformValue::Matrix4 { transpose, components: *value },
                    ),
                ),
            ),
    {
        self.set_uniform(ctx, lookup, UniformValue::Matrix4 { transpose, components: *value })
    }

    /// Gives the program up: the device is told to delete it.
    pub fn destroy(self) -> (calls: Vec<DeviceCall<'static>>)
        ensures
            (calls@ == seq![DeviceCall::DeleteProgram { program: self.native() }]),
    {
        single(DeviceCall::DeleteProgram { program: self.program })
    }
}

/// Four floats, as a uniform value.
pub open spec fn float4(value: [u32; 4]) -> UniformValue {
    UniformValue::Float4 { x: value@[0], y: value@[1], z: value@[2], w: value@[3] }
}

/// Three floats, as a uniform value.
pub open spec fn float3(value: [u32; 3]) -> UniformValue {
    UniformValue::Float3 { x: value@[0], y: value@[1], z: value@[2] }
}

/// Two floats, as a uniform value.
pub open spec fn float2(value: [u32; 2]) -> UniformValue {
    UniformValue::Float2 { x: value@[0], y: value@[1] }
}

} // verus!
