//! The shader pair of the rotating triangle, as source text.
//!
//! The vertex stage draws three fixed clip-space corners, `(0, 1)`, `(-1, -1)`
//! and `(1, -1)`, coloured red, green and blue, and scales each corner's `x` by
//! the cosine of the uniform `u_angle`. The fragment stage passes the
//! interpolated colour on unchanged. No vertex buffer is involved: the corners
//! are chosen by the built-in vertex index.

use crate::gl::{fragment_shader_kind, vertex_shader_kind, FRAGMENT_SHADER, VERTEX_SHADER};
use vstd::prelude::*;

verus! {

/// The family of platforms that the shaders are compiled for.
#[derive(Clone, Copy, Debug, PartialEq, Eq)]
pub enum Target {
    /// A browser or an embedded device: the `300 es` profile.
    Web,
    /// A desktop context: the `330` profile.
    Native,
}

/// One of the two stages of the program, in the order in which they are built.
#[derive(Clone, Copy, Debug, PartialEq, Eq)]
pub enum ShaderStage {
    Vertex,
    Fragment,
}

/// The version line for [`Target::Web`].
pub const VERSION_WEB: &'static str = "#version 300 es";

/// The version line for [`Target::Native`].
pub const VERSION_NATIVE: &'static str = "#version 330";

/// The name of the uniform that carries the rotation angle, in radians.
pub const ANGLE_UNIFORM: &'static str = "u_angle";

/// The vertex stage, without its version line.
pub const VERTEX_SOURCE: &'static str = r#"
                    const vec2 verts[3] = vec2[3](
                        vec2(0.0, 1.0),
                        vec2(-1.0, -1.0),
                        vec2(1.0, -1.0)
                    );
                    const vec4 colors[3] = vec4[3](
                        vec4(1.0, 0.0, 0.0, 1.0),
                        vec4(0.0, 1.0, 0.0, 1.0),
                        vec4(0.0, 0.0, 1.0, 1.0)
                    );
                    out vec4 v_color;
                    uniform float u_angle;
                    void main() {
                        v_color = colors[gl_VertexID];
                        gl_Position = vec4(verts[gl_VertexID], 0.0, 1.0);
                        gl_Position.x *= cos(u_angle);
                    }
                "#;

/// The fragment stage, without its version line.
pub const FRAGMENT_SOURCE: &'static str = r#"
                    precision mediump float;
                    in vec4 v_color;
                    out vec4 out_color;
                    void main() {
                        out_color = v_color;
                    }
                "#;

/// The version line that `target` asks for.
pub open spec fn version_text(target: Target) -> Seq<char> {
    match target {
        Target::Web => VERSION_WEB@,
        Target::Native => VERSION_NATIVE@,
    }
}

/// The body of `stage`, without its version line.
pub open spec fn stage_text(stage: ShaderStage) -> Seq<char> {
    match stage {
        ShaderStage::Vertex => VERTEX_SOURCE@,
        ShaderStage::Fragment => FRAGMENT_SOURCE@,
    }
}

/// The text handed to the compiler for `stage`: the version line, a line
/// feed, then the body of the stage.
pub open spec fn full_source_text(target: Target, stage: ShaderStage) -> Seq<char> {
    version_text(target) + seq!['\n'] + stage_text(stage)
}

/// The version line that `target` asks for.
pub fn shader_version(target: Target) -> (version: &'static str)
    ensures
        version@ == version_text(target),
{
    match target {
        Target::Web => VERSION_WEB,
        Target::Native => VERSION_NATIVE,
    }
}

/// The text handed to the compiler for `stage` on `target`.
pub fn full_source(target: Target, stage: ShaderStage) -> (source: String)
    ensures
        source@ == full_source_text(target, stage),
{
    let mut source = String::from_str(shader_version(target));
    source.append("\n");
    source.append(stage.source());
    proof {
        reveal_strlit("\n");
        assert("\n"@ =~= seq!['\n']);
    }
    source
}

impl ShaderStage {
    /// The stage that is built first.
    pub open spec fn first() -> ShaderStage {
        ShaderStage::Vertex
    }

    /// The value by which the graphics context knows this stage.
    pub open spec fn kind_spec(self) -> u32 {
        match self {
            ShaderStage::Vertex => VERTEX_SHADER,
            ShaderStage::Fragment => FRAGMENT_SHADER,
        }
    }

    /// The stage that is built after this one, if any.
    pub open spec fn next_spec(self) -> Option<ShaderStage> {
        match self {
            ShaderStage::Vertex => Some(ShaderStage::Fragment),
            ShaderStage::Fragment => None,
        }
    }

    /// The value by which the graphics context knows this stage.
    #[verifier::when_used_as_spec(kind_spec)]
    pub fn kind(self) -> (kind: u32)
        ensures
            kind == self.kind_spec(),
    {
        match self {
            ShaderStage::Vertex => vertex_shader_kind(),
            ShaderStage::Fragment => fragment_shader_kind(),
        }
    }

    /// The stage that is built after this one, if any.
    #[verifier::when_used_as_spec(next_spec)]
    pub fn next(self) -> (next: Option<ShaderStage>)
        ensures
            next == self.next_spec(),
    {
        match self {
            ShaderStage::Vertex => Some(ShaderStage::Fragment),
            ShaderStage::Fragment => None,
        }
    }

    /// The body of this stage, without its version line.
    pub fn source(self) -> (source: &'static str)
        ensures
            source@ == stage_text(self),
    {
        match self {
            ShaderStage::Vertex => VERTEX_SOURCE,
            ShaderStage::Fragment => FRAGMENT_SOURCE,
        }
    }
}

} // verus!
