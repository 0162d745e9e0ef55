//! The vocabulary shared with the graphics context.
//!
//! The library never touches a graphics context. It decides which calls are
//! made, in which order and with which arguments, and hands them out as
//! [`GlCommand`] values. Whoever owns the context performs them and reports
//! what the context answered as [`GlReply`] values.

use vstd::prelude::*;

verus! {

/// `glow::NativeShader`, the name of a shader object. Carried, never inspected.
#[verifier::external_type_specification]
#[verifier::external_body]
pub struct ExShader(glow::NativeShader);

/// `glow::NativeProgram`, the name of a program object. Carried, never inspected.
#[verifier::external_type_specification]
#[verifier::external_body]
pub struct ExProgram(glow::NativeProgram);

/// `glow::NativeVertexArray`, the name of a vertex-array object. Carried, never
/// inspected.
#[verifier::external_type_specification]
#[verifier::external_body]
pub struct ExVertexArray(glow::NativeVertexArray);

/// The value of `GL_VERTEX_SHADER`.
pub const VERTEX_SHADER: u32 = 0x8B31;

/// The value of `GL_FRAGMENT_SHADER`.
pub const FRAGMENT_SHADER: u32 = 0x8B30;

/// The value of `GL_TRIANGLES`.
pub const TRIANGLES: u32 = 0x0004;

/// Reads `glow::VERTEX_SHADER`. Trusted: that constant is `0x8B31`.
#[verifier::external_body]
pub(crate) fn vertex_shader_kind() -> (kind: u32)
    ensures
        kind == VERTEX_SHADER,
{
    glow::VERTEX_SHADER
}

/// Reads `glow::FRAGMENT_SHADER`. Trusted: that constant is `0x8B30`.
#[verifier::external_body]
pub(crate) fn fragment_shader_kind() -> (kind: u32)
    ensures
        kind == FRAGMENT_SHADER,
{
    glow::FRAGMENT_SHADER
}

/// Reads `glow::TRIANGLES`. Trusted: that constant is `0x0004`.
#[verifier::external_body]
pub(crate) fn triangles_mode() -> (mode: u32)
    ensures
        mode == TRIANGLES,
{
    glow::TRIANGLES
}

/// One call on the graphics context, with its arguments.
#[derive(Debug, PartialEq, Eq)]
pub enum GlCommand {
    CreateProgram,
    CreateShader { kind: u32 },
    ShaderSource { shader: glow::Shader, source: String },
    CompileShader { shader: glow::Shader },
    GetShaderCompileStatus { shader: glow::Shader },
    GetShaderInfoLog { shader: glow::Shader },
    AttachShader { program: glow::Program, shader: glow::Shader },
    LinkProgram { program: glow::Program },
    GetProgramLinkStatus { program: glow::Program },
    GetProgramInfoLog { program: glow::Program },
    DetachShader { program: glow::Program, shader: glow::Shader },
    DeleteShader { shader: glow::Shader },
    CreateVertexArray,
    UseProgram { program: glow::Program },
    /// Look up the uniform `name` in `program` and set it to the `f32` whose
    /// IEEE-754 bit pattern is `bits`.
    Uniform1F32 { program: glow::Program, name: String, bits: u32 },
    BindVertexArray { vertex_array: glow::VertexArray },
    DrawArrays { mode: u32, first: i32, count: i32 },
    DeleteProgram { program: glow::Program },
    DeleteVertexArray { vertex_array: glow::VertexArray },
}

/// What a [`GlCommand`] is, with its text as a sequence of characters.
pub enum GlCommandView {
    CreateProgram,
    CreateShader { kind: u32 },
    ShaderSource { shader: glow::Shader, source: Seq<char> },
    CompileShader { shader: glow::Shader },
    GetShaderCompileStatus { shader: glow::Shader },
    GetShaderInfoLog { shader: glow::Shader },
    AttachShader { program: glow::Program, shader: glow::Shader },
    LinkProgram { program: glow::Program },
    GetProgramLinkStatus { program: glow::Program },
    GetProgramInfoLog { program: glow::Program },
    DetachShader { program: glow::Program, shader: glow::Shader },
    DeleteShader { shader: glow::Shader },
    CreateVertexArray,
    UseProgram { program: glow::Program },
    Uniform1F32 { program: glow::Program, name: Seq<char>, bits: u32 },
    BindVertexArray { vertex_array: glow::VertexArray },
    DrawArrays { mode: u32, first: i32, count: i32 },
    DeleteProgram { program: glow::Program },
    DeleteVertexArray { vertex_array: glow::VertexArray },
}

impl GlCommandView {
    /// Whether the context answers this call with a value that the caller has
    /// to report back.
    pub open spec fn yields_reply(self) -> bool {
        self is CreateProgram || self is CreateShader || self is CreateVertexArray
            || self is GetShaderCompileStatus || self is GetShaderInfoLog
            || self is GetProgramLinkStatus || self is GetProgramInfoLog
    }
}

impl View for GlCommand {
    type V = GlCommandView;

    open spec fn view(&self) -> GlCommandView {
        match *self {
            GlCommand::CreateProgram => GlCommandView::CreateProgram,
            GlCommand::CreateShader { kind } => GlCommandView::CreateShader { kind },
            GlCommand::ShaderSource { shader, source } => GlCommandView::ShaderSource {
                shader,
                source: source@,
            },
            GlCommand::CompileShader { shader } => GlCommandView::CompileShader { shader },
            GlCommand::GetShaderCompileStatus { shader } => GlCommandView::GetShaderCompileStatus {
                shader,
            },
            GlCommand::GetShaderInfoLog { shader } => GlCommandView::GetShaderInfoLog { shader },
            GlCommand::AttachShader { program, shader } => GlCommandView::AttachShader {
                program,
                shader,
            },
            GlCommand::LinkProgram { program } => GlCommandView::LinkProgram { program },
            GlCommand::GetProgramLinkStatus { program } => GlCommandView::GetProgramLinkStatus {
                program,
            },
            GlCommand::GetProgramInfoLog { program } => GlCommandView::GetProgramInfoLog {
                program,
            },
            GlCommand::DetachShader { program, shader } => GlCommandView::DetachShader {
                program,
                shader,
            },
            GlCommand::DeleteShader { shader } => GlCommandView::DeleteShader { shader },
            GlCommand::CreateVertexArray => GlCommandView::CreateVertexArray,
            GlCommand::UseProgram { program } => GlCommandView::UseProgram { program },
            GlCommand::Uniform1F32 { program, name, bits } => GlCommandView::Uniform1F32 {
                program,
                name: name@,
                bits,
            },
            GlCommand::BindVertexArray { vertex_array } => GlCommandView::BindVertexArray {
                vertex_array,
            },
            GlCommand::DrawArrays { mode, first, count } => GlCommandView::DrawArrays {
                mode,
                first,
                count,
            },
            GlCommand::DeleteProgram { program } => GlCommandView::DeleteProgram { program },
            GlCommand::DeleteVertexArray { vertex_array } => GlCommandView::DeleteVertexArray {
                vertex_array,
            },
        }
    }
}

impl DeepView for GlCommand {
    type V = GlCommandView;

    open spec fn deep_view(&self) -> GlCommandView {
        self@
    }
}

impl GlCommand {
    /// Whether the context answers this call with a value that has to be
    /// reported back as a [`GlReply`].
    pub fn yields_reply(&self) -> (yields: bool)
        ensures
            yields == self@.yields_reply(),
    {
        match self {
            GlCommand::CreateProgram => true,
            GlCommand::CreateShader { .. } => true,
            GlCommand::CreateVertexArray => true,
            GlCommand::GetShaderCompileStatus { .. } => true,
            GlCommand::GetShaderInfoLog { .. } => true,
            GlCommand::GetProgramLinkStatus { .. } => true,
            GlCommand::GetProgramInfoLog { .. } => true,
            _ => false,
        }
    }
}

/// What the graphics context answered to the last call that yields a reply.
#[derive(Debug, PartialEq, Eq)]
pub enum GlReply {
    /// The answer to `CreateProgram`: the new program, or the context's message.
    Program(Result<glow::Program, String>),
    /// The answer to `CreateShader`.
    Shader(Result<glow::Shader, String>),
    /// The answer to `CreateVertexArray`.
    VertexArray(Result<glow::VertexArray, String>),
    /// The answer to `GetShaderCompileStatus` or `GetProgramLinkStatus`.
    Status(bool),
    /// The answer to `GetShaderInfoLog` or `GetProgramInfoLog`.
    InfoLog(String),
}

/// What a [`GlReply`] is, with its text as a sequence of characters.
pub enum GlReplyView {
    Program(Result<glow::Program, Seq<char>>),
    Shader(Result<glow::Shader, Seq<char>>),
    VertexArray(Result<glow::VertexArray, Seq<char>>),
    Status(bool),
    InfoLog(Seq<char>),
}

impl View for GlReply {
    type V = GlReplyView;

    open spec fn view(&self) -> GlReplyView {
        match *self {
            GlReply::Program(Ok(program)) => GlReplyView::Program(Ok(program)),
            GlReply::Program(Err(message)) => GlReplyView::Program(Err(message@)),
            GlReply::Shader(Ok(shader)) => GlReplyView::Shader(Ok(shader)),
            GlReply::Shader(Err(message)) => GlReplyView::Shader(Err(message@)),
            GlReply::VertexArray(Ok(vertex_array)) => GlReplyView::VertexArray(Ok(vertex_array)),
            GlReply::VertexArray(Err(message)) => GlReplyView::VertexArray(Err(message@)),
            GlReply::Status(ok) => GlReplyView::Status(ok),
            GlReply::InfoLog(text) => GlReplyView::InfoLog(text@),
        }
    }
}

} // verus!
