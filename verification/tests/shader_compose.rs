use particle_renderer::error::RendererError;
use particle_renderer::math::{Color, Matrix3, Vector3};
use particle_renderer::mesh::CpuMesh;
use particle_renderer::particles::{ParticleData, Particles};
use particle_renderer::shader::{contains_substring, select_color_variant, ColorVariant};

fn v3(x: u32, y: u32, z: u32) -> Vector3 {
    Vector3 { x, y, z }
}

fn plain_mesh() -> CpuMesh {
    CpuMesh {
        positions: vec![v3(0, 0, 0), v3(1, 0, 0), v3(0, 1, 0)],
        normals: None,
        tangents: None,
        colors: None,
        uvs: None,
        indices: None,
    }
}

fn plain_data() -> ParticleData {
    ParticleData {
        start_positions: vec![v3(1, 2, 3)],
        start_velocities: vec![v3(4, 5, 6)],
        texture_transforms: None,
        colors: None,
    }
}

const SHARED: &str = "// shared fragment utilities\n";
const TEMPLATE: &str = "// vertex stage template\n";

#[test]
fn contains_substring_finds_needle() {
    assert!(contains_substring("uniform mat4 m;\nin vec3 pos;\n", "in vec3 pos;"));
    assert!(contains_substring("abc", "abc"));
    assert!(contains_substring("abc", ""));
    assert!(!contains_substring("in vec3 po;", "in vec3 pos;"));
    assert!(!contains_substring("ab", "abc"));
    assert!(!contains_substring("", "a"));
}

#[test]
fn tangent_without_bitangent_fails() {
    let particles = Particles::new(&plain_data(), plain_mesh()).unwrap();
    let fragment = "in vec3 pos;\nin vec3 tang;\nvoid main() {}\n";
    let err = particles
        .vertex_shader_source(fragment, SHARED, TEMPLATE)
        .unwrap_err();
    assert_eq!(err, RendererError::TangentWithoutBitangent);
}

#[test]
fn tangent_with_bitangent_succeeds() {
    let particles = Particles::new(&plain_data(), plain_mesh()).unwrap();
    let fragment = "in vec3 tang;\nin vec3 bitang;\n";
    let source = particles
        .vertex_shader_source(fragment, SHARED, TEMPLATE)
        .unwrap();
    assert_eq!(
        source,
        format!("#define PARTICLES\n#define USE_TANGENTS\n{}{}", SHARED, TEMPLATE)
    );
}

#[test]
fn minimal_feature_set_is_positions_and_uvs_only() {
    // Position and texture-coordinate signals only, and no per-instance
    // texture transforms: the flag block holds exactly those two features.
    let particles = Particles::new(&plain_data(), plain_mesh()).unwrap();
    let fragment = "in vec3 pos;\nin vec2 uvs;\nvoid main() {}\n";
    let source = particles
        .vertex_shader_source(fragment, SHARED, TEMPLATE)
        .unwrap();
    assert_eq!(
        source,
        format!(
            "#define PARTICLES\n#define USE_POSITIONS\n#define USE_UVS\n{}{}",
            SHARED, TEMPLATE
        )
    );
}

#[test]
fn composition_without_any_signal_is_marker_and_blocks() {
    let particles = Particles::new(&plain_data(), plain_mesh()).unwrap();
    let source = particles
        .vertex_shader_source("void main() {}\n", SHARED, TEMPLATE)
        .unwrap();
    assert_eq!(source, format!("#define PARTICLES\n{}{}", SHARED, TEMPLATE));
}

#[test]
fn color_variant_selection_is_total() {
    assert_eq!(select_color_variant(false, false), ColorVariant::VertexOnly);
    assert_eq!(select_color_variant(true, false), ColorVariant::VertexOnly);
    assert_eq!(select_color_variant(false, true), ColorVariant::InstanceOnly);
    assert_eq!(select_color_variant(true, true), ColorVariant::VertexAndInstance);
}

#[test]
fn color_flags_with_instance_colors_only() {
    let data = ParticleData {
        colors: Some(vec![Color { r: 9, g: 9, b: 9, a: 9 }]),
        ..plain_data()
    };
    let particles = Particles::new(&data, plain_mesh()).unwrap();
    let source = particles
        .vertex_shader_source("in vec4 col;\n", SHARED, TEMPLATE)
        .unwrap();
    assert_eq!(
        source,
        format!(
            "#define PARTICLES\n#define USE_COLORS\n#define USE_INSTANCE_COLORS\n{}{}",
            SHARED, TEMPLATE
        )
    );
}

#[test]
fn color_flags_with_both_color_sources() {
    let data = ParticleData {
        colors: Some(vec![Color { r: 1, g: 2, b: 3, a: 4 }]),
        ..plain_data()
    };
    let mesh = CpuMesh {
        colors: Some(vec![
            Color { r: 0, g: 0, b: 0, a: 255 },
            Color { r: 0, g: 0, b: 0, a: 255 },
            Color { r: 0, g: 0, b: 0, a: 255 },
        ]),
        ..plain_mesh()
    };
    let particles = Particles::new(&data, mesh).unwrap();
    let source = particles
        .vertex_shader_source("in vec4 col;\n", SHARED, TEMPLATE)
        .unwrap();
    assert_eq!(
        source,
        format!(
            "#define PARTICLES\n#define USE_COLORS\n#define USE_VERTEX_COLORS\n#define USE_INSTANCE_COLORS\n{}{}",
            SHARED, TEMPLATE
        )
    );
}

#[test]
fn color_flags_with_vertex_colors_only() {
    let mesh = CpuMesh {
        colors: Some(vec![
            Color { r: 8, g: 8, b: 8, a: 8 },
            Color { r: 8, g: 8, b: 8, a: 8 },
            Color { r: 8, g: 8, b: 8, a: 8 },
        ]),
        ..plain_mesh()
    };
    let particles = Particles::new(&plain_data(), mesh).unwrap();
    let source = particles
        .vertex_shader_source("in vec4 col;\n", SHARED, TEMPLATE)
        .unwrap();
    assert_eq!(
        source,
        format!(
            "#define PARTICLES\n#define USE_COLORS\n#define USE_VERTEX_COLORS\n{}{}",
            SHARED, TEMPLATE
        )
    );
}

#[test]
fn no_color_flags_without_color_signal() {
    // Color buffers exist on both sides, but the material never asks for
    // color: no color flag may appear.
    let data = ParticleData {
        colors: Some(vec![Color { r: 1, g: 1, b: 1, a: 1 }]),
        ..plain_data()
    };
    let mesh = CpuMesh {
        colors: Some(vec![
            Color { r: 2, g: 2, b: 2, a: 2 },
            Color { r: 2, g: 2, b: 2, a: 2 },
            Color { r: 2, g: 2, b: 2, a: 2 },
        ]),
        ..plain_mesh()
    };
    let particles = Particles::new(&data, mesh).unwrap();
    let source = particles
        .vertex_shader_source("in vec3 pos;\n", SHARED, TEMPLATE)
        .unwrap();
    assert_eq!(
        source,
        format!("#define PARTICLES\n#define USE_POSITIONS\n{}{}", SHARED, TEMPLATE)
    );
}

#[test]
fn instance_texture_transform_flag_follows_buffer() {
    let data = ParticleData {
        texture_transforms: Some(vec![Matrix3::identity()]),
        ..plain_data()
    };
    let particles = Particles::new(&data, plain_mesh()).unwrap();
    let source = particles
        .vertex_shader_source("in vec2 uvs;\n", SHARED, TEMPLATE)
        .unwrap();
    assert_eq!(
        source,
        format!(
            "#define PARTICLES\n#define USE_UVS\n#define USE_INSTANCE_TEXTURE_TRANSFORMATION\n{}{}",
            SHARED, TEMPLATE
        )
    );
}

#[test]
fn all_geometry_signals_compose_in_order() {
    let fragment = "in vec3 pos;\nin vec3 nor;\nin vec3 tang;\nin vec3 bitang;\nin vec2 uvs;\n";
    let particles = Particles::new(&plain_data(), plain_mesh()).unwrap();
    let source = particles
        .vertex_shader_source(fragment, SHARED, TEMPLATE)
        .unwrap();
    assert_eq!(
        source,
        format!(
            "#define PARTICLES\n#define USE_POSITIONS\n#define USE_NORMALS\n#define USE_TANGENTS\n#define USE_UVS\n{}{}",
            SHARED, TEMPLATE
        )
    );
}
