use calibrator_gui::gl::{FRAGMENT_SHADER, TRIANGLES, VERTEX_SHADER};
use calibrator_gui::shader::{
    full_source, shader_version, ShaderStage, Target, ANGLE_UNIFORM, FRAGMENT_SOURCE,
    VERTEX_SOURCE,
};

fn joined(lines: &[&str]) -> String {
    lines.join("\n")
}

fn vertex_body() -> String {
    joined(&[
        "",
        "                    const vec2 verts[3] = vec2[3](",
        "                        vec2(0.0, 1.0),",
        "                        vec2(-1.0, -1.0),",
        "                        vec2(1.0, -1.0)",
        "                    );",
        "                    const vec4 colors[3] = vec4[3](",
        "                        vec4(1.0, 0.0, 0.0, 1.0),",
        "                        vec4(0.0, 1.0, 0.0, 1.0),",
        "                        vec4(0.0, 0.0, 1.0, 1.0)",
        "                    );",
        "                    out vec4 v_color;",
        "                    uniform float u_angle;",
        "                    void main() {",
        "                        v_color = colors[gl_VertexID];",
        "                        gl_Position = vec4(verts[gl_VertexID], 0.0, 1.0);",
        "                        gl_Position.x *= cos(u_angle);",
        "                    }",
        "                ",
    ])
}

fn fragment_body() -> String {
    joined(&[
        "",
        "                    precision mediump float;",
        "                    in vec4 v_color;",
        "                    out vec4 out_color;",
        "                    void main() {",
        "                        out_color = v_color;",
        "                    }",
        "                ",
    ])
}

/// The text between `open` and the matching `close` that follows `marker`.
fn table_after(text: &str, marker: &str) -> Vec<String> {
    let start = text.find(marker).expect("marker") + marker.len();
    let rest = &text[start..];
    let end = rest.find(");").expect("end of table");
    rest[..end].lines().map(|line| line.trim().trim_end_matches(',').to_string()).filter(|line| !line.is_empty()).collect()
}

#[test]
fn version_line_follows_the_target() {
    assert_eq!(shader_version(Target::Web), "#version 300 es");
    assert_eq!(shader_version(Target::Native), "#version 330");
}

#[test]
fn stage_bodies_are_the_fixed_text() {
    assert_eq!(VERTEX_SOURCE, vertex_body());
    assert_eq!(FRAGMENT_SOURCE, fragment_body());
    assert_eq!(ShaderStage::Vertex.source(), vertex_body());
    assert_eq!(ShaderStage::Fragment.source(), fragment_body());
}

#[test]
fn full_source_is_version_line_feed_body() {
    assert_eq!(
        full_source(Target::Native, ShaderStage::Vertex),
        format!("#version 330\n{}", vertex_body())
    );
    assert_eq!(
        full_source(Target::Native, ShaderStage::Fragment),
        format!("#version 330\n{}", fragment_body())
    );
    assert_eq!(
        full_source(Target::Web, ShaderStage::Vertex),
        format!("#version 300 es\n{}", vertex_body())
    );
    assert_eq!(
        full_source(Target::Web, ShaderStage::Fragment),
        format!("#version 300 es\n{}", fragment_body())
    );
}

#[test]
fn vertex_stage_holds_the_three_fixed_corners() {
    let corners = table_after(VERTEX_SOURCE, "vec2[3](");
    assert_eq!(corners, vec!["vec2(0.0, 1.0)", "vec2(-1.0, -1.0)", "vec2(1.0, -1.0)"]);
}

#[test]
fn vertex_stage_colours_are_red_green_blue() {
    let colours = table_after(VERTEX_SOURCE, "vec4[3](");
    assert_eq!(
        colours,
        vec!["vec4(1.0, 0.0, 0.0, 1.0)", "vec4(0.0, 1.0, 0.0, 1.0)", "vec4(0.0, 0.0, 1.0, 1.0)"]
    );
    assert!(VERTEX_SOURCE.contains("v_color = colors[gl_VertexID];"));
}

#[test]
fn vertex_stage_scales_x_by_the_cosine_of_the_angle() {
    assert!(VERTEX_SOURCE.contains("gl_Position = vec4(verts[gl_VertexID], 0.0, 1.0);"));
    assert!(VERTEX_SOURCE.contains("gl_Position.x *= cos(u_angle);"));
    assert!(VERTEX_SOURCE.contains("uniform float u_angle;"));
    assert_eq!(VERTEX_SOURCE.matches("u_angle").count(), 2);
    assert_eq!(VERTEX_SOURCE.matches("gl_Position").count(), 2);
    assert_eq!(ANGLE_UNIFORM, "u_angle");
}

#[test]
fn fragment_stage_passes_the_colour_on() {
    assert!(FRAGMENT_SOURCE.contains("out_color = v_color;"));
    assert!(!FRAGMENT_SOURCE.contains("u_angle"));
}

#[test]
fn stage_kinds_are_those_of_the_graphics_library() {
    assert_eq!(ShaderStage::Vertex.kind(), glow::VERTEX_SHADER);
    assert_eq!(ShaderStage::Fragment.kind(), glow::FRAGMENT_SHADER);
    assert_eq!(ShaderStage::Vertex.kind(), 0x8B31);
    assert_eq!(ShaderStage::Fragment.kind(), 0x8B30);
    assert_eq!(VERTEX_SHADER, glow::VERTEX_SHADER);
    assert_eq!(FRAGMENT_SHADER, glow::FRAGMENT_SHADER);
    assert_eq!(TRIANGLES, glow::TRIANGLES);
}

#[test]
fn vertex_stage_comes_first_and_fragment_stage_last() {
    assert_eq!(ShaderStage::Vertex.next(), Some(ShaderStage::Fragment));
    assert_eq!(ShaderStage::Fragment.next(), None);
}
