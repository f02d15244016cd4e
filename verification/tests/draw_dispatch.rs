use particle_renderer::draw::{
    DrawDispatch, InstanceAttribute, ProgramInfo, UniformBinding, VertexAttribute,
};
use particle_renderer::error::RendererError;
use particle_renderer::math::{Color, Matrix3, Matrix4, Vector3};
use particle_renderer::mesh::CpuMesh;
use particle_renderer::particles::{ParticleData, Particles};

fn v3(x: u32, y: u32, z: u32) -> Vector3 {
    Vector3 { x, y, z }
}

fn mesh_with_indices(indices: Option<Vec<u32>>) -> CpuMesh {
    CpuMesh {
        positions: vec![v3(0, 0, 0), v3(1, 0, 0), v3(0, 1, 0), v3(1, 1, 0)],
        normals: None,
        tangents: None,
        colors: None,
        uvs: None,
        indices,
    }
}

fn two_particles() -> ParticleData {
    ParticleData {
        start_positions: vec![v3(1, 2, 3), v3(4, 5, 6)],
        start_velocities: vec![v3(7, 8, 9), v3(10, 11, 12)],
        texture_transforms: None,
        colors: None,
    }
}

fn bare_program() -> ProgramInfo {
    ProgramInfo {
        requires_position: true,
        requires_normal: false,
        requires_tangent: false,
        requires_color: false,
        requires_uv_coordinates: false,
        requires_start_position: true,
        requires_start_velocity: true,
        requires_tex_transform_row1: false,
        requires_tex_transform_row2: false,
        requires_instance_color: false,
        declares_texture_transform: false,
        declares_normal_matrix: false,
    }
}

#[test]
fn indexed_dispatch_uses_index_buffer_and_instance_count() {
    let particles =
        Particles::new(&two_particles(), mesh_with_indices(Some(vec![0, 1, 2, 2, 1, 3]))).unwrap();
    let plan = particles.draw_plan(&bare_program()).unwrap();
    assert_eq!(plan.dispatch, DrawDispatch::ElementsInstanced { instance_count: 2 });
}

#[test]
fn non_indexed_dispatch_covers_position_buffer() {
    let particles = Particles::new(&two_particles(), mesh_with_indices(None)).unwrap();
    let plan = particles.draw_plan(&bare_program()).unwrap();
    assert_eq!(
        plan.dispatch,
        DrawDispatch::ArraysInstanced { vertex_count: 4, instance_count: 2 }
    );
}

#[test]
fn update_recaches_instance_count_for_dispatch() {
    let mut particles = Particles::new(&two_particles(), mesh_with_indices(None)).unwrap();
    let bigger = ParticleData {
        start_positions: vec![v3(0, 0, 0), v3(1, 1, 1), v3(2, 2, 2)],
        start_velocities: vec![v3(0, 0, 0), v3(1, 1, 1), v3(2, 2, 2)],
        texture_transforms: None,
        colors: None,
    };
    particles.update(&bigger).unwrap();
    let plan = particles.draw_plan(&bare_program()).unwrap();
    assert_eq!(
        plan.dispatch,
        DrawDispatch::ArraysInstanced { vertex_count: 4, instance_count: 3 }
    );
}

#[test]
fn required_attributes_are_listed_in_binding_order() {
    let data = ParticleData {
        texture_transforms: Some(vec![Matrix3::identity(), Matrix3::identity()]),
        ..two_particles()
    };
    let mesh = CpuMesh {
        normals: Some(vec![v3(0, 0, 1); 4]),
        uvs: Some(vec![particle_renderer::math::Vector2 { x: 0, y: 0 }; 4]),
        ..mesh_with_indices(None)
    };
    let particles = Particles::new(&data, mesh).unwrap();
    let program = ProgramInfo {
        requires_normal: true,
        requires_uv_coordinates: true,
        requires_tex_transform_row1: true,
        requires_tex_transform_row2: true,
        ..bare_program()
    };
    let plan = particles.draw_plan(&program).unwrap();
    assert_eq!(
        plan.vertex_attributes,
        vec![
            VertexAttribute::Position,
            VertexAttribute::Normal,
            VertexAttribute::UvCoordinates,
        ]
    );
    assert_eq!(
        plan.instance_attributes,
        vec![
            InstanceAttribute::StartPosition,
            InstanceAttribute::StartVelocity,
            InstanceAttribute::TexTransformRow1,
            InstanceAttribute::TexTransformRow2,
        ]
    );
}

#[test]
fn uniforms_include_optional_entries_only_when_declared() {
    let particles = Particles::new(&two_particles(), mesh_with_indices(None)).unwrap();
    let plan = particles.draw_plan(&bare_program()).unwrap();
    assert_eq!(
        plan.uniforms,
        vec![
            UniformBinding::ViewProjection,
            UniformBinding::ModelMatrix(Matrix4::identity()),
            UniformBinding::Acceleration(particles.acceleration),
            UniformBinding::Time(particles.time),
        ]
    );

    let program = ProgramInfo {
        declares_texture_transform: true,
        declares_normal_matrix: true,
        ..bare_program()
    };
    let plan = particles.draw_plan(&program).unwrap();
    assert_eq!(
        plan.uniforms,
        vec![
            UniformBinding::ViewProjection,
            UniformBinding::ModelMatrix(Matrix4::identity()),
            UniformBinding::Acceleration(particles.acceleration),
            UniformBinding::Time(particles.time),
            UniformBinding::TextureTransform(Matrix3::identity()),
            UniformBinding::NormalMatrix(Matrix4::identity()),
        ]
    );
}

#[test]
fn missing_vertex_buffer_is_named() {
    let particles = Particles::new(&two_particles(), mesh_with_indices(None)).unwrap();
    let program = ProgramInfo { requires_normal: true, ..bare_program() };
    let err = particles.draw_plan(&program).unwrap_err();
    assert_eq!(err, RendererError::MissingVertexBuffer(VertexAttribute::Normal));
    assert_eq!(VertexAttribute::Normal.name(), "normal");
}

#[test]
fn update_without_colors_drops_instance_color_buffer() {
    // An update that carries colors creates the buffer; the next update
    // without colors removes it, and a material that then asks for the
    // instance color fails with the missing-attribute error.
    let with_colors = ParticleData {
        colors: Some(vec![
            Color { r: 1, g: 2, b: 3, a: 4 },
            Color { r: 5, g: 6, b: 7, a: 8 },
        ]),
        ..two_particles()
    };
    let mut particles = Particles::new(&with_colors, mesh_with_indices(None)).unwrap();
    let program = ProgramInfo { requires_instance_color: true, ..bare_program() };
    assert!(particles.draw_plan(&program).is_ok());
    assert!(particles.instance_buffers.instance_color.is_some());

    particles.update(&two_particles()).unwrap();
    assert!(particles.instance_buffers.instance_color.is_none());
    let err = particles.draw_plan(&program).unwrap_err();
    assert_eq!(
        err,
        RendererError::MissingInstanceBuffer(InstanceAttribute::InstanceColor)
    );
    assert_eq!(InstanceAttribute::InstanceColor.name(), "instance_color");
}

#[test]
fn failed_update_changes_nothing() {
    let mut particles = Particles::new(&two_particles(), mesh_with_indices(None)).unwrap();
    let broken = ParticleData {
        start_positions: vec![v3(0, 0, 0), v3(1, 1, 1), v3(2, 2, 2)],
        start_velocities: vec![v3(0, 0, 0)],
        texture_transforms: None,
        colors: None,
    };
    let err = particles.update(&broken).unwrap_err();
    assert_eq!(
        err,
        RendererError::InvalidBufferLength(String::from("start_velocities"), 3, 1)
    );
    assert_eq!(particles.instance_count, 2);
    assert_eq!(particles.instance_buffers.start_position.len(), 2);
}

#[test]
fn texture_transforms_are_repacked_into_rows() {
    let transform = Matrix3 {
        x: v3(11, 12, 13),
        y: v3(21, 22, 23),
        z: v3(31, 32, 33),
    };
    let data = ParticleData {
        start_positions: vec![v3(0, 0, 0)],
        start_velocities: vec![v3(0, 0, 0)],
        texture_transforms: Some(vec![transform]),
        colors: None,
    };
    let particles = Particles::new(&data, mesh_with_indices(None)).unwrap();
    assert_eq!(
        particles.instance_buffers.tex_transform_row1,
        Some(vec![v3(11, 21, 31)])
    );
    assert_eq!(
        particles.instance_buffers.tex_transform_row2,
        Some(vec![v3(12, 22, 32)])
    );
}
