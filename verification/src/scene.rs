//! The rotating triangle once it is built: a program and a vertex array that
//! are drawn with every frame and released exactly once.

use crate::gl::{triangles_mode, GlCommand, GlCommandView, TRIANGLES};
use crate::shader::ANGLE_UNIFORM;
use vstd::prelude::*;

verus! {

/// Why a scene refused to hand out calls.
#[derive(Clone, Copy, Debug, PartialEq, Eq)]
pub enum SceneError {
    /// The scene's resources were released before.
    Destroyed,
}

/// The two resources of the rotating triangle.
///
/// A scene is handed over by [`crate::assembly::SceneBuild::finish`] and by
/// nothing else, and a build keeps what it holds to itself, so a scene cannot
/// be drawn before it is built. It remembers whether it was destroyed, and
/// refuses to be drawn or destroyed after that.
#[derive(Debug, PartialEq, Eq)]
pub struct Scene3d {
    program: glow::Program,
    vertex_array: glow::VertexArray,
    destroyed: bool,
}

/// What a [`Scene3d`] is.
pub struct Scene3dView {
    pub program: glow::Program,
    pub vertex_array: glow::VertexArray,
    pub destroyed: bool,
}

impl Scene3dView {
    /// The calls that draw one frame at the angle whose bit pattern is
    /// `angle_bits`: select the program, set `u_angle`, select the vertex array,
    /// draw three vertices as one triangle.
    pub open spec fn paint_plan(self, angle_bits: u32) -> Seq<GlCommandView> {
        seq![
            GlCommandView::UseProgram { program: self.program },
            GlCommandView::Uniform1F32 {
                program: self.program,
                name: ANGLE_UNIFORM@,
                bits: angle_bits,
            },
            GlCommandView::BindVertexArray { vertex_array: self.vertex_array },
            GlCommandView::DrawArrays { mode: TRIANGLES, first: 0, count: 3 },
        ]
    }

    /// The calls that release the scene: the program, then the vertex array.
    pub open spec fn destroy_plan(self) -> Seq<GlCommandView> {
        seq![
            GlCommandView::DeleteProgram { program: self.program },
            GlCommandView::DeleteVertexArray { vertex_array: self.vertex_array },
        ]
    }

    /// What painting answers: the plan of a live scene, a refusal after
    /// destruction.
    pub open spec fn paint(self, angle_bits: u32) -> Result<Seq<GlCommandView>, SceneError> {
        if self.destroyed {
            Err(SceneError::Destroyed)
        } else {
            Ok(self.paint_plan(angle_bits))
        }
    }

    /// What destroying answers, and the scene that it leaves.
    pub open spec fn destroy(self) -> (Scene3dView, Result<Seq<GlCommandView>, SceneError>) {
        if self.destroyed {
            (self, Err(SceneError::Destroyed))
        } else {
            (Scene3dView { destroyed: true, ..self }, Ok(self.destroy_plan()))
        }
    }
}

impl View for Scene3d {
    type V = Scene3dView;

    closed spec fn view(&self) -> Scene3dView {
        Scene3dView {
            program: self.program,
            vertex_array: self.vertex_array,
            destroyed: self.destroyed,
        }
    }
}

/// The view of an answer that carries calls.
pub open spec fn plan_view(answer: Result<Vec<GlCommand>, SceneError>) -> Result<
    Seq<GlCommandView>,
    SceneError,
> {
    match answer {
        Ok(commands) => Ok(commands.deep_view()),
        Err(error) => Err(error),
    }
}

impl Scene3d {
    /// A live scene over a linked program and a vertex array.
    pub(crate) fn assemble(program: glow::Program, vertex_array: glow::VertexArray) -> (scene:
        Scene3d)
        ensures
            scene@ == (Scene3dView { program, vertex_array, destroyed: false }),
    {
        Scene3d { program, vertex_array, destroyed: false }
    }

    /// The program that the scene draws with.
    pub fn program(&self) -> (program: glow::Program)
        ensures
            program == self@.program,
    {
        self.program
    }

    /// The vertex array that the scene draws with.
    pub fn vertex_array(&self) -> (vertex_array: glow::VertexArray)
        ensures
            vertex_array == self@.vertex_array,
    {
        self.vertex_array
    }

    /// Whether the scene's resources were released.
    pub fn is_destroyed(&self) -> (destroyed: bool)
        ensures
            destroyed == self@.destroyed,
    {
        self.destroyed
    }

    /// The calls that draw one frame at the angle whose IEEE-754 bit pattern is
    /// `angle_bits`, or a refusal if the scene was destroyed.
    pub fn paint(&self, angle_bits: u32) -> (answer: Result<Vec<GlCommand>, SceneError>)
        ensures
            plan_view(answer) == self@.paint(angle_bits),
    {
        if self.destroyed {
            return Err(SceneError::Destroyed);
        }
        let mut commands: Vec<GlCommand> = Vec::new();
        commands.push(GlCommand::UseProgram { program: self.program });
        commands.push(
            GlCommand::Uniform1F32 {
                program: self.program,
                name: String::from_str(ANGLE_UNIFORM),
                bits: angle_bits,
            },
        );
        commands.push(GlCommand::BindVertexArray { vertex_array: self.vertex_array });
        commands.push(GlCommand::DrawArrays { mode: triangles_mode(), first: 0, count: 3 });
        assert(commands.deep_view() =~= self@.paint_plan(angle_bits));
        Ok(commands)
    }

    /// Marks the scene destroyed and hands out the calls that release its
    /// resources, or refuses if that was done before.
    pub fn destroy(&mut self) -> (answer: Result<Vec<GlCommand>, SceneError>)
        ensures
            (final(self)@, plan_view(answer)) == old(self)@.destroy(),
    {
        if self.destroyed {
            return Err(SceneError::Destroyed);
        }
        let mut commands: Vec<GlCommand> = Vec::new();
        commands.push(GlCommand::DeleteProgram { program: self.program });
        commands.push(GlCommand::DeleteVertexArray { vertex_array: self.vertex_array });
        self.destroyed = true;
        assert(commands.deep_view() =~= old(self)@.destroy_plan());
        Ok(commands)
    }
}

/// A scene is drawn any number of times while it lives and is destroyed once:
/// a live scene accepts painting and destruction; what destruction leaves
/// refuses both, and stays as it is.
pub proof fn lemma_lifecycle(scene: Scene3dView, angle_bits: u32)
    requires
        !scene.destroyed,
    ensures
        scene.paint(angle_bits) is Ok,
        scene.destroy().1 is Ok,
        scene.destroy().0.paint(angle_bits) == Err::<Seq<GlCommandView>, _>(SceneError::Destroyed),
        scene.destroy().0.destroy() == (
            scene.destroy().0,
            Err::<Seq<GlCommandView>, _>(SceneError::Destroyed),
        ),
{
}

/// Painting changes nothing, and only the value given to `u_angle` depends on
/// the angle: two frames of one scene agree in every other call.
pub proof fn lemma_angle_reaches_uniform_only(scene: Scene3dView, a: u32, b: u32)
    ensures
        scene.paint_plan(a).len() == scene.paint_plan(b).len(),
        forall|i: int|
            0 <= i < scene.paint_plan(a).len() && i != 1 ==> scene.paint_plan(a)[i]
                == scene.paint_plan(b)[i],
        scene.paint_plan(a)[1] == (GlCommandView::Uniform1F32 {
            program: scene.program,
            name: ANGLE_UNIFORM@,
            bits: a,
        }),
{
}

} // verus!
