//! Building the rotating triangle, one answer of the graphics context at a time.
//!
//! [`SceneBuild::start`] hands out the first calls. After that the owner of the
//! context performs the calls it was given, in order, and reports what the last
//! of them answered to [`SceneBuild::step`], which hands out the next calls.
//! Every batch ends in the one call whose answer is awaited, until the build is
//! over and no call is left. [`SceneBuild::finish`] then gives the scene, or why
//! there is none.
//!
//! What a build holds is private to it: a build begins with `start` and moves by
//! `step`, and in no other way.

use crate::gl::{GlCommand, GlCommandView, GlReply, GlReplyView, FRAGMENT_SHADER, VERTEX_SHADER};
use crate::scene::{Scene3d, Scene3dView, SceneError};
use crate::shader::{full_source, full_source_text, ShaderStage, Target};
use vstd::prelude::*;

verus! {

/// Why a build ended without a scene.
#[derive(Debug, PartialEq, Eq)]
pub enum BuildError {
    /// The context gave no program; its message.
    CannotCreateProgram(String),
    /// The context gave no shader; its message.
    CannotCreateShader(String),
    /// A shader did not compile; the compiler's log.
    ShaderCompile(String),
    /// The program did not link; the linker's log.
    ProgramLink(String),
    /// The context gave no vertex array; its message.
    CannotCreateVertexArray(String),
    /// An answer was reported that the last call cannot have given.
    UnexpectedReply,
}

/// What a [`BuildError`] is, with its text as a sequence of characters.
pub enum BuildErrorView {
    CannotCreateProgram(Seq<char>),
    CannotCreateShader(Seq<char>),
    ShaderCompile(Seq<char>),
    ProgramLink(Seq<char>),
    CannotCreateVertexArray(Seq<char>),
    UnexpectedReply,
}

impl View for BuildError {
    type V = BuildErrorView;

    open spec fn view(&self) -> BuildErrorView {
        match *self {
            BuildError::CannotCreateProgram(message) => BuildErrorView::CannotCreateProgram(
                message@,
            ),
            BuildError::CannotCreateShader(message) => BuildErrorView::CannotCreateShader(message@),
            BuildError::ShaderCompile(log) => BuildErrorView::ShaderCompile(log@),
            BuildError::ProgramLink(log) => BuildErrorView::ProgramLink(log@),
            BuildError::CannotCreateVertexArray(message) => BuildErrorView::CannotCreateVertexArray(
                message@,
            ),
            BuildError::UnexpectedReply => BuildErrorView::UnexpectedReply,
        }
    }
}

/// How the diagnostic of a refused program starts.
pub const NO_PROGRAM: &'static str = "Cannot create program: ";

/// How the diagnostic of a refused shader starts.
pub const NO_SHADER: &'static str = "Cannot create shader: ";

/// How the diagnostic of a refused vertex array starts.
pub const NO_VERTEX_ARRAY: &'static str = "Cannot create vertex array: ";

/// The diagnostic of an answer that the last call cannot have given.
pub const NO_SUCH_REPLY: &'static str = "Unexpected reply from the graphics context";

impl BuildErrorView {
    /// The text to abort with: the compiler's or linker's log as it came; for
    /// an object that the context refused, what was asked for and the
    /// context's message.
    pub open spec fn diagnostic(self) -> Seq<char> {
        match self {
            BuildErrorView::CannotCreateProgram(message) => NO_PROGRAM@ + message,
            BuildErrorView::CannotCreateShader(message) => NO_SHADER@ + message,
            BuildErrorView::ShaderCompile(log) => log,
            BuildErrorView::ProgramLink(log) => log,
            BuildErrorView::CannotCreateVertexArray(message) => NO_VERTEX_ARRAY@ + message,
            BuildErrorView::UnexpectedReply => NO_SUCH_REPLY@,
        }
    }
}

impl BuildError {
    /// The text to abort with. A failed build cannot be recovered from: there
    /// is no other shader to fall back on.
    pub fn diagnostic(&self) -> (text: String)
        ensures
            text@ == self@.diagnostic(),
    {
        match self {
            BuildError::CannotCreateProgram(message) => String::from_str(NO_PROGRAM).concat(
                message.as_str(),
            ),
            BuildError::CannotCreateShader(message) => String::from_str(NO_SHADER).concat(
                message.as_str(),
            ),
            BuildError::ShaderCompile(log) => String::from_str(log.as_str()),
            BuildError::ProgramLink(log) => String::from_str(log.as_str()),
            BuildError::CannotCreateVertexArray(message) => String::from_str(
                NO_VERTEX_ARRAY,
            ).concat(message.as_str()),
            BuildError::UnexpectedReply => String::from_str(NO_SUCH_REPLY),
        }
    }
}

/// Where a build stands: which answer it waits for, and what it holds so far.
#[derive(Debug)]
enum BuildState {
    /// Waiting for the program.
    AwaitProgram { target: Target },
    /// Waiting for the shader object of `stage`; `attached` holds the shaders of
    /// the stages before it.
    AwaitShader { target: Target, program: glow::Program, stage: ShaderStage, attached: Vec<glow::Shader> },
    /// Waiting to hear whether `shader`, the shader of `stage`, compiled.
    AwaitCompileStatus {
        target: Target,
        program: glow::Program,
        stage: ShaderStage,
        attached: Vec<glow::Shader>,
        shader: glow::Shader,
    },
    /// Waiting for the log of the shader that did not compile.
    AwaitShaderLog,
    /// Waiting to hear whether the program linked.
    AwaitLinkStatus { program: glow::Program, attached: Vec<glow::Shader> },
    /// Waiting for the log of the program that did not link.
    AwaitProgramLog,
    /// Waiting for the vertex array.
    AwaitVertexArray { program: glow::Program },
    /// Done: the scene.
    Ready { scene: Scene3d },
    /// Done: no scene, and why.
    Failed { error: BuildError },
}

/// A build of the scene, somewhere between its first call and its end.
#[derive(Debug)]
pub struct SceneBuild {
    state: BuildState,
}

/// What a [`SceneBuild`] is.
pub enum SceneBuildView {
    AwaitProgram { target: Target },
    AwaitShader { target: Target, program: glow::Program, stage: ShaderStage, attached: Seq<glow::Shader> },
    AwaitCompileStatus {
        target: Target,
        program: glow::Program,
        stage: ShaderStage,
        attached: Seq<glow::Shader>,
        shader: glow::Shader,
    },
    AwaitShaderLog,
    AwaitLinkStatus { program: glow::Program, attached: Seq<glow::Shader> },
    AwaitProgramLog,
    AwaitVertexArray { program: glow::Program },
    Ready { scene: Scene3dView },
    Failed { error: BuildErrorView },
}

impl View for BuildState {
    type V = SceneBuildView;

    closed spec fn view(&self) -> SceneBuildView {
        match *self {
            BuildState::AwaitProgram { target } => SceneBuildView::AwaitProgram { target },
            BuildState::AwaitShader { target, program, stage, attached } => SceneBuildView::AwaitShader {
                target,
                program,
                stage,
                attached: attached@,
            },
            BuildState::AwaitCompileStatus {
                target,
                program,
                stage,
                attached,
                shader,
            } => SceneBuildView::AwaitCompileStatus {
                target,
                program,
                stage,
                attached: attached@,
                shader,
            },
            BuildState::AwaitShaderLog => SceneBuildView::AwaitShaderLog,
            BuildState::AwaitLinkStatus { program, attached } => SceneBuildView::AwaitLinkStatus {
                program,
                attached: attached@,
            },
            BuildState::AwaitProgramLog => SceneBuildView::AwaitProgramLog,
            BuildState::AwaitVertexArray { program } => SceneBuildView::AwaitVertexArray {
                program,
            },
            BuildState::Ready { scene } => SceneBuildView::Ready { scene: scene@ },
            BuildState::Failed { error } => SceneBuildView::Failed { error: error@ },
        }
    }
}

impl View for SceneBuild {
    type V = SceneBuildView;

    closed spec fn view(&self) -> SceneBuildView {
        self.state@
    }
}

/// The view of what a finished build hands over.
pub open spec fn outcome_view(outcome: Option<Result<Scene3d, BuildError>>) -> Option<
    Result<Scene3dView, BuildErrorView>,
> {
    match outcome {
        Some(Ok(scene)) => Some(Ok(scene@)),
        Some(Err(error)) => Some(Err(error@)),
        None => None,
    }
}

/// The calls that give `shader` the text of `stage` and compile it, ending in
/// the question whether it compiled.
pub open spec fn compile_plan(target: Target, stage: ShaderStage, shader: glow::Shader) -> Seq<
    GlCommandView,
> {
    seq![
        GlCommandView::ShaderSource { shader, source: full_source_text(target, stage) },
        GlCommandView::CompileShader { shader },
        GlCommandView::GetShaderCompileStatus { shader },
    ]
}

/// The calls that take the shaders off a linked program and delete them: for
/// each shader in turn, detach it, then delete it.
pub open spec fn release_plan(program: glow::Program, shaders: Seq<glow::Shader>) -> Seq<
    GlCommandView,
>
    decreases shaders.len(),
{
    if shaders.len() == 0 {
        Seq::empty()
    } else {
        release_plan(program, shaders.drop_last()) + seq![
            GlCommandView::DetachShader { program, shader: shaders.last() },
            GlCommandView::DeleteShader { shader: shaders.last() },
        ]
    }
}

impl SceneBuildView {
    /// Whether the build is over.
    pub open spec fn is_terminal(self) -> bool {
        self is Ready || self is Failed
    }

    /// What the build has to hand over: the scene of a build that is ready, the
    /// error of one that failed, nothing while it is under way.
    pub open spec fn outcome(self) -> Option<Result<Scene3dView, BuildErrorView>> {
        match self {
            SceneBuildView::Ready { scene } => Some(Ok(scene)),
            SceneBuildView::Failed { error } => Some(Err(error)),
            _ => None,
        }
    }

    /// Where a build starts, and its first calls.
    pub open spec fn start(target: Target) -> (SceneBuildView, Seq<GlCommandView>) {
        (SceneBuildView::AwaitProgram { target }, seq![GlCommandView::CreateProgram])
    }

    /// A build that ends without a scene.
    pub open spec fn fail(error: BuildErrorView) -> (SceneBuildView, Seq<GlCommandView>) {
        (SceneBuildView::Failed { error }, Seq::empty())
    }

    /// Where the build stands after `reply`, and the calls to perform next.
    pub open spec fn step(self, reply: GlReplyView) -> (SceneBuildView, Seq<GlCommandView>) {
        match self {
            SceneBuildView::AwaitProgram { target } => match reply {
                GlReplyView::Program(Ok(program)) => (
                    SceneBuildView::AwaitShader {
                        target,
                        program,
                        stage: ShaderStage::first(),
                        attached: Seq::empty(),
                    },
                    seq![GlCommandView::CreateShader { kind: ShaderStage::first().kind_spec() }],
                ),
                GlReplyView::Program(Err(message)) => Self::fail(
                    BuildErrorView::CannotCreateProgram(message),
                ),
                _ => Self::fail(BuildErrorView::UnexpectedReply),
            },
            SceneBuildView::AwaitShader { target, program, stage, attached } => match reply {
                GlReplyView::Shader(Ok(shader)) => (
                    SceneBuildView::AwaitCompileStatus { target, program, stage, attached, shader },
                    compile_plan(target, stage, shader),
                ),
                GlReplyView::Shader(Err(message)) => Self::fail(
                    BuildErrorView::CannotCreateShader(message),
                ),
                _ => Self::fail(BuildErrorView::UnexpectedReply),
            },
            SceneBuildView::AwaitCompileStatus {
                target,
                program,
                stage,
                attached,
                shader,
            } => match reply {
                GlReplyView::Status(true) => match stage.next_spec() {
                    Some(next) => (
                        SceneBuildView::AwaitShader {
                            target,
                            program,
                            stage: next,
                            attached: attached.push(shader),
                        },
                        seq![
                            GlCommandView::AttachShader { program, shader },
                            GlCommandView::CreateShader { kind: next.kind_spec() },
                        ],
                    ),
                    None => (
                        SceneBuildView::AwaitLinkStatus {
                            program,
                            attached: attached.push(shader),
                        },
                        seq![
                            GlCommandView::AttachShader { program, shader },
                            GlCommandView::LinkProgram { program },
                            GlCommandView::GetProgramLinkStatus { program },
                        ],
                    ),
                },
                GlReplyView::Status(false) => (
                    SceneBuildView::AwaitShaderLog,
                    seq![GlCommandView::GetShaderInfoLog { shader }],
                ),
                _ => Self::fail(BuildErrorView::UnexpectedReply),
            },
            SceneBuildView::AwaitShaderLog => match reply {
                GlReplyView::InfoLog(log) => Self::fail(BuildErrorView::ShaderCompile(log)),
                _ => Self::fail(BuildErrorView::UnexpectedReply),
            },
            SceneBuildView::AwaitLinkStatus { program, attached } => match reply {
                GlReplyView::Status(true) => (
                    SceneBuildView::AwaitVertexArray { program },
                    release_plan(program, attached).push(GlCommandView::CreateVertexArray),
                ),
                GlReplyView::Status(false) => (
                    SceneBuildView::AwaitProgramLog,
                    seq![GlCommandView::GetProgramInfoLog { program }],
                ),
                _ => Self::fail(BuildErrorView::UnexpectedReply),
            },
            SceneBuildView::AwaitProgramLog => match reply {
                GlReplyView::InfoLog(log) => Self::fail(BuildErrorView::ProgramLink(log)),
                _ => Self::fail(BuildErrorView::UnexpectedReply),
            },
            SceneBuildView::AwaitVertexArray { program } => match reply {
                GlReplyView::VertexArray(Ok(vertex_array)) => (
                    SceneBuildView::Ready {
                        scene: Scene3dView { program, vertex_array, destroyed: false },
                    },
                    Seq::empty(),
                ),
                GlReplyView::VertexArray(Err(message)) => Self::fail(
                    BuildErrorView::CannotCreateVertexArray(message),
                ),
                _ => Self::fail(BuildErrorView::UnexpectedReply),
            },
            SceneBuildView::Ready { .. } => (self, Seq::empty()),
            SceneBuildView::Failed { .. } => (self, Seq::empty()),
        }
    }

    /// Where the build stands after the answers `replies`, reported in turn, and
    /// all the calls handed out on the way, in order.
    pub open spec fn run(self, replies: Seq<GlReplyView>) -> (SceneBuildView, Seq<GlCommandView>)
        decreases replies.len(),
    {
        if replies.len() == 0 {
            (self, Seq::empty())
        } else {
            let (next, commands) = self.step(replies.first());
            let (last, more) = next.run(replies.drop_first());
            (last, commands + more)
        }
    }
}

/// Whether exactly the last call of `commands` yields a reply.
pub open spec fn asks_once_at_end(commands: Seq<GlCommandView>) -> bool {
    forall|i: int|
        0 <= i < commands.len() ==> (#[trigger] commands[i].yields_reply() <==> i
            == commands.len() - 1)
}

/// A build that ended without a scene.
fn failed(error: BuildError) -> (out: (SceneBuild, Vec<GlCommand>))
    ensures
        (out.0@, out.1.deep_view()) == SceneBuildView::fail(error@),
{
    let commands: Vec<GlCommand> = Vec::new();
    assert(commands.deep_view() =~= Seq::empty());
    (SceneBuild { state: BuildState::Failed { error } }, commands)
}

/// The calls that detach and delete `shaders`, one shader after the other.
fn release_shaders(program: glow::Program, shaders: &Vec<glow::Shader>) -> (commands: Vec<
    GlCommand,
>)
    ensures
        commands.deep_view() == release_plan(program, shaders@),
{
    let mut commands: Vec<GlCommand> = Vec::new();
    let mut i: usize = 0;
    assert(commands.deep_view() =~= release_plan(program, shaders@.take(0)));
    while i < shaders.len()
        invariant
            i <= shaders.len(),
            commands.deep_view() == release_plan(program, shaders@.take(i as int)),
        decreases shaders.len() - i,
    {
        let shader = shaders[i];
        let ghost before = commands.deep_view();
        commands.push(GlCommand::DetachShader { program, shader });
        commands.push(GlCommand::DeleteShader { shader });
        proof {
            let upto = shaders@.take(i + 1);
            assert(upto.drop_last() =~= shaders@.take(i as int));
            assert(commands.deep_view() =~= before + seq![
                GlCommandView::DetachShader { program, shader },
                GlCommandView::DeleteShader { shader },
            ]);
        }
        i += 1;
    }
    assert(shaders@.take(i as int) =~= shaders@);
    commands
}

impl SceneBuild {
    /// Whether the build is over.
    pub fn is_terminal(&self) -> (terminal: bool)
        ensures
            terminal == self@.is_terminal(),
    {
        match self.state {
            BuildState::Ready { .. } => true,
            BuildState::Failed { .. } => true,
            _ => false,
        }
    }

    /// Ends the build and hands over what it came to: the scene, or why there
    /// is none. A build that is not over hands over nothing.
    pub fn finish(self) -> (outcome: Option<Result<Scene3d, BuildError>>)
        ensures
            outcome_view(outcome) == self@.outcome(),
    {
        match self.state {
            BuildState::Ready { scene } => Some(Ok(scene)),
            BuildState::Failed { error } => Some(Err(error)),
            _ => None,
        }
    }

    /// A new build for `target`, and its first calls.
    pub fn start(target: Target) -> (out: (SceneBuild, Vec<GlCommand>))
        ensures
            (out.0@, out.1.deep_view()) == SceneBuildView::start(target),
    {
        let mut commands: Vec<GlCommand> = Vec::new();
        commands.push(GlCommand::CreateProgram);
        assert(commands.deep_view() =~= seq![GlCommandView::CreateProgram]);
        (SceneBuild { state: BuildState::AwaitProgram { target } }, commands)
    }

    /// Takes the answer to the last call of the batch handed out before, and
    /// gives where the build stands now and the calls to perform next.
    ///
    /// A build that is over stays as it is and hands out nothing. An answer of
    /// the wrong kind ends the build with [`BuildError::UnexpectedReply`].
    pub fn step(self, reply: GlReply) -> (out: (SceneBuild, Vec<GlCommand>))
        ensures
            (out.0@, out.1.deep_view()) == self@.step(reply@),
    {
        let mut commands: Vec<GlCommand> = Vec::new();
        assert(commands.deep_view() =~= Seq::empty());
        match self.state {
            BuildState::AwaitProgram { target } => match reply {
                GlReply::Program(Ok(program)) => {
                    let stage = ShaderStage::Vertex;
                    commands.push(GlCommand::CreateShader { kind: stage.kind() });
                    assert(commands.deep_view() =~= self@.step(reply@).1);
                    let state = BuildState::AwaitShader {
                        target,
                        program,
                        stage,
                        attached: Vec::new(),
                    };
                    (SceneBuild { state }, commands)
                },
                GlReply::Program(Err(message)) => failed(BuildError::CannotCreateProgram(message)),
                _ => failed(BuildError::UnexpectedReply),
            },
            BuildState::AwaitShader { target, program, stage, attached } => match reply {
                GlReply::Shader(Ok(shader)) => {
                    commands.push(
                        GlCommand::ShaderSource { shader, source: full_source(target, stage) },
                    );
                    commands.push(GlCommand::CompileShader { shader });
                    commands.push(GlCommand::GetShaderCompileStatus { shader });
                    assert(commands.deep_view() =~= compile_plan(target, stage, shader));
                    let state = BuildState::AwaitCompileStatus {
                        target,
                        program,
                        stage,
                        attached,
                        shader,
                    };
                    (SceneBuild { state }, commands)
                },
                GlReply::Shader(Err(message)) => failed(BuildError::CannotCreateShader(message)),
                _ => failed(BuildError::UnexpectedReply),
            },
            BuildState::AwaitCompileStatus {
                target,
                program,
                stage,
                attached,
                shader,
            } => match reply {
                GlReply::Status(true) => {
                    let mut attached = attached;
                    attached.push(shader);
                    commands.push(GlCommand::AttachShader { program, shader });
                    match stage.next() {
                        Some(next) => {
                            commands.push(GlCommand::CreateShader { kind: next.kind() });
                            assert(commands.deep_view() =~= self@.step(reply@).1);
                            let state = BuildState::AwaitShader {
                                target,
                                program,
                                stage: next,
                                attached,
                            };
                            (SceneBuild { state }, commands)
                        },
                        None => {
                            commands.push(GlCommand::LinkProgram { program });
                            commands.push(GlCommand::GetProgramLinkStatus { program });
                            assert(commands.deep_view() =~= self@.step(reply@).1);
                            (SceneBuild { state: BuildState::AwaitLinkStatus { program, attached } }, commands)
                        },
                    }
                },
                GlReply::Status(false) => {
                    commands.push(GlCommand::GetShaderInfoLog { shader });
                    assert(commands.deep_view() =~= self@.step(reply@).1);
                    (SceneBuild { state: BuildState::AwaitShaderLog }, commands)
                },
                _ => failed(BuildError::UnexpectedReply),
            },
            BuildState::AwaitShaderLog => match reply {
                GlReply::InfoLog(log) => failed(BuildError::ShaderCompile(log)),
                _ => failed(BuildError::UnexpectedReply),
            },
            BuildState::AwaitLinkStatus { program, attached } => match reply {
                GlReply::Status(true) => {
                    let mut commands = release_shaders(program, &attached);
                    commands.push(GlCommand::CreateVertexArray);
                    assert(commands.deep_view() =~= self@.step(reply@).1);
                    (SceneBuild { state: BuildState::AwaitVertexArray { program } }, commands)
                },
                GlReply::Status(false) => {
                    commands.push(GlCommand::GetProgramInfoLog { program });
                    assert(commands.deep_view() =~= self@.step(reply@).1);
                    (SceneBuild { state: BuildState::AwaitProgramLog }, commands)
                },
                _ => failed(BuildError::UnexpectedReply),
            },
            BuildState::AwaitProgramLog => match reply {
                GlReply::InfoLog(log) => failed(BuildError::ProgramLink(log)),
                _ => failed(BuildError::UnexpectedReply),
            },
            BuildState::AwaitVertexArray { program } => match reply {
                GlReply::VertexArray(Ok(vertex_array)) => {
                    let scene = Scene3d::assemble(program, vertex_array);
                    (SceneBuild { state: BuildState::Ready { scene } }, commands)
                },
                GlReply::VertexArray(Err(message)) => failed(
                    BuildError::CannotCreateVertexArray(message),
                ),
                _ => failed(BuildError::UnexpectedReply),
            },
            BuildState::Ready { scene } => (SceneBuild { state: BuildState::Ready { scene } }, commands),
            BuildState::Failed { error } => (SceneBuild { state: BuildState::Failed { error } }, commands),
        }
    }
}

/// The calls that release shaders come in pairs, shader by shader: call `2 * i`
/// detaches shader `i` and call `2 * i + 1` deletes it.
pub proof fn lemma_release_plan_pairs(program: glow::Program, shaders: Seq<glow::Shader>)
    ensures
        release_plan(program, shaders).len() == 2 * shaders.len(),
        forall|i: int|
            0 <= i < shaders.len() ==> {
                &&& #[trigger] release_plan(program, shaders)[2 * i]
                    == (GlCommandView::DetachShader { program, shader: shaders[i] })
                &&& release_plan(program, shaders)[2 * i + 1] == (GlCommandView::DeleteShader {
                    shader: shaders[i],
                })
            },
    decreases shaders.len(),
{
    if shaders.len() > 0 {
        lemma_release_plan_pairs(program, shaders.drop_last());
        let shorter = release_plan(program, shaders.drop_last());
        assert forall|i: int| 0 <= i < shaders.len() implies {
            &&& #[trigger] release_plan(program, shaders)[2 * i]
                == (GlCommandView::DetachShader { program, shader: shaders[i] })
            &&& release_plan(program, shaders)[2 * i + 1] == (GlCommandView::DeleteShader {
                shader: shaders[i],
            })
        } by {
            if i < shaders.len() - 1 {
                assert(shaders.drop_last()[i] == shaders[i]);
                assert(release_plan(program, shaders)[2 * i] == shorter[2 * i]);
                assert(release_plan(program, shaders)[2 * i + 1] == shorter[2 * i + 1]);
            }
        }
    }
}

/// None of the calls that release shaders yields a reply.
pub proof fn lemma_release_plan_asks_nothing(program: glow::Program, shaders: Seq<glow::Shader>)
    ensures
        forall|k: int|
            0 <= k < release_plan(program, shaders).len() ==> !(#[trigger] release_plan(
                program,
                shaders,
            )[k]).yields_reply(),
    decreases shaders.len(),
{
    if shaders.len() > 0 {
        lemma_release_plan_asks_nothing(program, shaders.drop_last());
        let shorter = release_plan(program, shaders.drop_last());
        assert forall|k: int| 0 <= k < release_plan(program, shaders).len() implies !(
        #[trigger] release_plan(program, shaders)[k]).yields_reply() by {
            if k < shorter.len() {
                assert(release_plan(program, shaders)[k] == shorter[k]);
            }
        }
    }
}

/// Every step hands out a batch in which the last call, and no other, yields a
/// reply; the batch is empty exactly when the build is over.
pub proof fn lemma_step_asks_once_at_end(state: SceneBuildView, reply: GlReplyView)
    ensures
        asks_once_at_end(state.step(reply).1),
        state.step(reply).0.is_terminal() <==> state.step(reply).1.len() == 0,
{
    if let SceneBuildView::AwaitLinkStatus { program, attached } = state {
        lemma_release_plan_asks_nothing(program, attached);
    }
}

/// The first batch obeys the same rule as every later one.
pub proof fn lemma_start_asks_once_at_end(target: Target)
    ensures
        asks_once_at_end(SceneBuildView::start(target).1),
        !SceneBuildView::start(target).0.is_terminal(),
        SceneBuildView::start(target).1.len() > 0,
{
}

/// A build that is over stays as it is and hands out nothing, whatever is
/// reported to it and however often.
pub proof fn lemma_terminal_is_final(state: SceneBuildView, replies: Seq<GlReplyView>)
    requires
        state.is_terminal(),
    ensures
        state.run(replies) == (state, Seq::<GlCommandView>::empty()),
    decreases replies.len(),
{
    if replies.len() > 0 {
        lemma_terminal_is_final(state, replies.drop_first());
        assert(state.step(replies.first()) == (state, Seq::<GlCommandView>::empty()));
        assert(Seq::<GlCommandView>::empty() + Seq::<GlCommandView>::empty() =~= Seq::<
            GlCommandView,
        >::empty());
    }
}

/// The answers of a context in which nothing goes wrong.
pub open spec fn successful_replies(
    program: glow::Program,
    vertex: glow::Shader,
    fragment: glow::Shader,
    vertex_array: glow::VertexArray,
) -> Seq<GlReplyView> {
    seq![
        GlReplyView::Program(Ok(program)),
        GlReplyView::Shader(Ok(vertex)),
        GlReplyView::Status(true),
        GlReplyView::Shader(Ok(fragment)),
        GlReplyView::Status(true),
        GlReplyView::Status(true),
        GlReplyView::VertexArray(Ok(vertex_array)),
    ]
}

/// The calls of a build in which nothing goes wrong, after the first batch.
pub open spec fn successful_commands(
    target: Target,
    program: glow::Program,
    vertex: glow::Shader,
    fragment: glow::Shader,
) -> Seq<GlCommandView> {
    seq![
        GlCommandView::CreateShader { kind: VERTEX_SHADER },
        GlCommandView::ShaderSource {
            shader: vertex,
            source: full_source_text(target, ShaderStage::Vertex),
        },
        GlCommandView::CompileShader { shader: vertex },
        GlCommandView::GetShaderCompileStatus { shader: vertex },
        GlCommandView::AttachShader { program, shader: vertex },
        GlCommandView::CreateShader { kind: FRAGMENT_SHADER },
        GlCommandView::ShaderSource {
            shader: fragment,
            source: full_source_text(target, ShaderStage::Fragment),
        },
        GlCommandView::CompileShader { shader: fragment },
        GlCommandView::GetShaderCompileStatus { shader: fragment },
        GlCommandView::AttachShader { program, shader: fragment },
        GlCommandView::LinkProgram { program },
        GlCommandView::GetProgramLinkStatus { program },
        GlCommandView::DetachShader { program, shader: vertex },
        GlCommandView::DeleteShader { shader: vertex },
        GlCommandView::DetachShader { program, shader: fragment },
        GlCommandView::DeleteShader { shader: fragment },
        GlCommandView::CreateVertexArray,
    ]
}

/// When the context gives every object asked for, both shaders compile and the
/// program links, the build ends in a live scene over that program and that
/// vertex array. On the way each stage is created, given its text, compiled and
/// attached, vertex stage first; the program is linked; both shaders are
/// detached and deleted; the vertex array is created last.
pub proof fn lemma_successful_build(
    target: Target,
    program: glow::Program,
    vertex: glow::Shader,
    fragment: glow::Shader,
    vertex_array: glow::VertexArray,
)
    ensures
        SceneBuildView::start(target).0.run(
            successful_replies(program, vertex, fragment, vertex_array),
        ) == (
            SceneBuildView::Ready {
                scene: Scene3dView { program, vertex_array, destroyed: false },
            },
            successful_commands(target, program, vertex, fragment),
        ),
{
    let replies = successful_replies(program, vertex, fragment, vertex_array);
    let s0 = SceneBuildView::start(target).0;
    let (s1, c1) = s0.step(replies[0]);
    let (s2, c2) = s1.step(replies[1]);
    let (s3, c3) = s2.step(replies[2]);
    let (s4, c4) = s3.step(replies[3]);
    let (s5, c5) = s4.step(replies[4]);
    let (s6, c6) = s5.step(replies[5]);
    let (s7, c7) = s6.step(replies[6]);
    let both = seq![vertex, fragment];
    assert(Seq::<glow::Shader>::empty().push(vertex).push(fragment) =~= both);
    lemma_release_plan_pairs(program, both);
    assert(release_plan(program, both) =~= seq![
        GlCommandView::DetachShader { program, shader: vertex },
        GlCommandView::DeleteShader { shader: vertex },
        GlCommandView::DetachShader { program, shader: fragment },
        GlCommandView::DeleteShader { shader: fragment },
    ]) by {
        assert(release_plan(program, both)[2 * 0int] == (GlCommandView::DetachShader {
            program,
            shader: both[0],
        }));
        assert(release_plan(program, both)[2 * 1int] == (GlCommandView::DetachShader {
            program,
            shader: both[1],
        }));
    }
    lemma_run_unfolds(s0, replies);
    lemma_run_unfolds(s1, replies.skip(1));
    lemma_run_unfolds(s2, replies.skip(2));
    lemma_run_unfolds(s3, replies.skip(3));
    lemma_run_unfolds(s4, replies.skip(4));
    lemma_run_unfolds(s5, replies.skip(5));
    lemma_run_unfolds(s6, replies.skip(6));
    assert(replies.skip(1).skip(1) =~= replies.skip(2));
    assert(replies.skip(2).skip(1) =~= replies.skip(3));
    assert(replies.skip(3).skip(1) =~= replies.skip(4));
    assert(replies.skip(4).skip(1) =~= replies.skip(5));
    assert(replies.skip(5).skip(1) =~= replies.skip(6));
    assert(replies.skip(6).skip(1) =~= Seq::<GlReplyView>::empty());
    assert(s7.run(Seq::<GlReplyView>::empty()) == (s7, Seq::<GlCommandView>::empty()));
    assert(c1 + (c2 + (c3 + (c4 + (c5 + (c6 + (c7 + Seq::<GlCommandView>::empty()))))))
        =~= successful_commands(target, program, vertex, fragment));
}

/// A scene exists only after a complete build: if the build is ready after
/// `replies`, then the first seven of them are those of a context in which
/// nothing went wrong, and the scene is the live scene over the program and the
/// vertex array that they name. Whatever was reported after them changed
/// nothing.
pub proof fn lemma_ready_only_after_success(target: Target, replies: Seq<GlReplyView>)
    requires
        SceneBuildView::start(target).0.run(replies).0 is Ready,
    ensures
        replies.len() >= 7,
        exists|
            program: glow::Program,
            vertex: glow::Shader,
            fragment: glow::Shader,
            vertex_array: glow::VertexArray,
        |
            {
                &&& replies.take(7) == #[trigger] successful_replies(
                    program,
                    vertex,
                    fragment,
                    vertex_array,
                )
                &&& SceneBuildView::start(target).0.run(replies).0 == (SceneBuildView::Ready {
                    scene: Scene3dView { program, vertex_array, destroyed: false },
                })
            },
{
    let s0 = SceneBuildView::start(target).0;
    let last = s0.run(replies).0;
    lemma_run_settles(s0, replies);
    let s1 = s0.step(replies[0]).0;
    lemma_run_settles(s1, replies.skip(1));
    let s2 = s1.step(replies[1]).0;
    assert(replies.skip(1).skip(1) =~= replies.skip(2));
    lemma_run_settles(s2, replies.skip(2));
    let s3 = s2.step(replies[2]).0;
    assert(replies.skip(2).skip(1) =~= replies.skip(3));
    lemma_run_settles(s3, replies.skip(3));
    let s4 = s3.step(replies[3]).0;
    assert(replies.skip(3).skip(1) =~= replies.skip(4));
    lemma_run_settles(s4, replies.skip(4));
    let s5 = s4.step(replies[4]).0;
    assert(replies.skip(4).skip(1) =~= replies.skip(5));
    lemma_run_settles(s5, replies.skip(5));
    let s6 = s5.step(replies[5]).0;
    assert(replies.skip(5).skip(1) =~= replies.skip(6));
    lemma_run_settles(s6, replies.skip(6));
    let s7 = s6.step(replies[6]).0;
    assert(replies.skip(6).skip(1) =~= replies.skip(7));
    lemma_run_settles(s7, replies.skip(7));
    assert(s7 is Ready);
    assert(last == s7);
    let program = replies[0]->Program_0->Ok_0;
    let vertex = replies[1]->Shader_0->Ok_0;
    let fragment = replies[3]->Shader_0->Ok_0;
    let vertex_array = replies[6]->VertexArray_0->Ok_0;
    assert(replies.take(7) =~= successful_replies(program, vertex, fragment, vertex_array));
}

/// A run stays where it is when the build is over or nothing is reported, and
/// otherwise goes on from the first step.
proof fn lemma_run_settles(state: SceneBuildView, replies: Seq<GlReplyView>)
    ensures
        state.is_terminal() || replies.len() == 0 ==> state.run(replies).0 == state,
        replies.len() > 0 ==> state.run(replies).0 == state.step(replies[0]).0.run(
            replies.skip(1),
        ).0,
{
    if state.is_terminal() {
        lemma_terminal_is_final(state, replies);
    }
    if replies.len() > 0 {
        lemma_run_unfolds(state, replies);
    }
}

/// Construct, paint, destroy: the scene that a successful build ends in can be
/// painted, at any angle and any number of times, and destroyed; what
/// destruction leaves can be neither painted nor destroyed again.
pub proof fn lemma_construct_paint_destroy(
    target: Target,
    program: glow::Program,
    vertex: glow::Shader,
    fragment: glow::Shader,
    vertex_array: glow::VertexArray,
    angle_bits: u32,
)
    ensures
        ({
            let built = SceneBuildView::start(target).0.run(
                successful_replies(program, vertex, fragment, vertex_array),
            ).0;
            &&& built is Ready
            &&& built->scene.paint(angle_bits) == Ok::<_, SceneError>(
                built->scene.paint_plan(angle_bits),
            )
            &&& built->scene.destroy().1 == Ok::<_, SceneError>(built->scene.destroy_plan())
            &&& built->scene.destroy().0.paint(angle_bits) is Err
            &&& built->scene.destroy().0.destroy().1 is Err
            &&& built->scene.destroy().0.destroy().0 == built->scene.destroy().0
        }),
{
    lemma_successful_build(target, program, vertex, fragment, vertex_array);
}

/// Running on a first answer is one step, then running on the rest.
pub proof fn lemma_run_unfolds(state: SceneBuildView, replies: Seq<GlReplyView>)
    requires
        replies.len() > 0,
    ensures
        state.run(replies) == (
            state.step(replies[0]).0.run(replies.skip(1)).0,
            state.step(replies[0]).1 + state.step(replies[0]).0.run(replies.skip(1)).1,
        ),
{
    assert(replies.drop_first() =~= replies.skip(1));
}

} // verus!
