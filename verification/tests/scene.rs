use calibrator_gui::assembly::SceneBuild;
use calibrator_gui::gl::{GlCommand, GlReply};
use calibrator_gui::scene::{Scene3d, SceneError};
use calibrator_gui::shader::Target;
use std::num::NonZeroU32;

fn built_scene(program: u32, vertex_array: u32) -> Scene3d {
    let replies = vec![
        GlReply::Program(Ok(glow::NativeProgram(NonZeroU32::new(program).unwrap()))),
        GlReply::Shader(Ok(glow::NativeShader(NonZeroU32::new(100).unwrap()))),
        GlReply::Status(true),
        GlReply::Shader(Ok(glow::NativeShader(NonZeroU32::new(101).unwrap()))),
        GlReply::Status(true),
        GlReply::Status(true),
        GlReply::VertexArray(Ok(glow::NativeVertexArray(NonZeroU32::new(vertex_array).unwrap()))),
    ];
    let (mut build, _) = SceneBuild::start(Target::Native);
    for reply in replies {
        build = build.step(reply).0;
    }
    match build.finish() {
        Some(Ok(scene)) => scene,
        other => panic!("the build should be ready, not {:?}", other),
    }
}

fn frame(program: u32, vertex_array: u32, angle: f32) -> Vec<GlCommand> {
    vec![
        GlCommand::UseProgram { program: glow::NativeProgram(NonZeroU32::new(program).unwrap()) },
        GlCommand::Uniform1F32 {
            program: glow::NativeProgram(NonZeroU32::new(program).unwrap()),
            name: "u_angle".to_string(),
            bits: angle.to_bits(),
        },
        GlCommand::BindVertexArray {
            vertex_array: glow::NativeVertexArray(NonZeroU32::new(vertex_array).unwrap()),
        },
        GlCommand::DrawArrays { mode: glow::TRIANGLES, first: 0, count: 3 },
    ]
}

#[test]
fn paint_draws_one_triangle_with_the_angle() {
    let scene = built_scene(5, 6);
    assert_eq!(scene.paint(0.0f32.to_bits()), Ok(frame(5, 6, 0.0)));
    assert_eq!(scene.paint(0), Ok(frame(5, 6, 0.0)));
    match &scene.paint(1.5f32.to_bits()).unwrap()[3] {
        GlCommand::DrawArrays { mode, first, count } => {
            assert_eq!(*mode, 4);
            assert_eq!(*first, 0);
            assert_eq!(*count, 3);
        }
        other => panic!("the last call should draw, not {:?}", other),
    }
}

#[test]
fn paint_hands_the_angle_over_unchanged() {
    let scene = built_scene(5, 6);
    let quarter = std::f32::consts::FRAC_PI_2;
    let angles = [
        0.0f32,
        quarter,
        std::f32::consts::PI,
        3.0 * quarter,
        -1.0,
        std::f32::consts::TAU,
        100.0,
        -250.75,
    ];
    for angle in angles {
        let commands = scene.paint(angle.to_bits()).unwrap();
        assert_eq!(commands, frame(5, 6, angle));
        match &commands[1] {
            GlCommand::Uniform1F32 { name, bits, .. } => {
                assert_eq!(name, "u_angle");
                assert_eq!(f32::from_bits(*bits), angle);
            }
            other => panic!("the second call should set the angle, not {:?}", other),
        }
    }
}

#[test]
fn frames_differ_in_the_angle_only() {
    let scene = built_scene(8, 9);
    let a = scene.paint(0.25f32.to_bits()).unwrap();
    let b = scene.paint(4.0f32.to_bits()).unwrap();
    assert_eq!(a.len(), b.len());
    for i in 0..a.len() {
        assert_eq!(a[i] == b[i], i != 1);
    }
}

#[test]
fn painting_leaves_the_scene_alive() {
    let scene = built_scene(5, 6);
    for _ in 0..3 {
        assert!(scene.paint(0).is_ok());
    }
    assert!(!scene.is_destroyed());
}

#[test]
fn destroy_releases_program_then_vertex_array() {
    let mut scene = built_scene(5, 6);
    assert_eq!(
        scene.destroy(),
        Ok(vec![
            GlCommand::DeleteProgram { program: glow::NativeProgram(NonZeroU32::new(5).unwrap()) },
            GlCommand::DeleteVertexArray {
                vertex_array: glow::NativeVertexArray(NonZeroU32::new(6).unwrap()),
            },
        ])
    );
    assert!(scene.is_destroyed());
}

#[test]
fn destroyed_scene_refuses_to_paint() {
    let mut scene = built_scene(5, 6);
    assert!(scene.paint(0).is_ok());
    assert!(scene.destroy().is_ok());
    assert_eq!(scene.paint(0), Err(SceneError::Destroyed));
    assert_eq!(scene.paint(1.0f32.to_bits()), Err(SceneError::Destroyed));
}

#[test]
fn scene_is_destroyed_once() {
    let mut scene = built_scene(5, 6);
    assert!(scene.destroy().is_ok());
    assert_eq!(scene.destroy(), Err(SceneError::Destroyed));
    assert_eq!(scene.destroy(), Err(SceneError::Destroyed));
    assert!(scene.is_destroyed());
    assert_eq!(scene.program(), glow::NativeProgram(NonZeroU32::new(5).unwrap()));
}

#[test]
fn construct_paint_destroy() {
    let mut scene = built_scene(1, 2);
    assert_eq!(scene.paint(std::f32::consts::PI.to_bits()), Ok(frame(1, 2, std::f32::consts::PI)));
    assert_eq!(scene.paint(0.0f32.to_bits()), Ok(frame(1, 2, 0.0)));
    assert_eq!(scene.destroy().map(|commands| commands.len()), Ok(2));
    assert_eq!(scene.paint(0.0f32.to_bits()), Err(SceneError::Destroyed));
    assert_eq!(scene.destroy(), Err(SceneError::Destroyed));
}
