//! The particle entity: per-instance data validation, the instance buffer
//! lifecycle and shader-variant negotiation.
//!
//! A caller supplies a [`ParticleData`] snapshot at construction and on each
//! content update; the entity rebuilds its named instance buffers wholesale
//! from the snapshot. Per instance, the graphics processor evaluates
//!
//! ```text
//! new_position = start_position + start_velocity * time + 0.5 * acceleration * time * time
//! ```
//!
//! from the uploaded buffers and the `acceleration` and `time` uniforms, so
//! particles move when the caller advances [`Particles::time`] each frame;
//! the host never rewrites buffers to animate motion.
//!
//! Snapshots are validated on every construction and update: an invalid
//! snapshot is rejected with an error rather than accepted on trust, a
//! deliberate tightening of designs that only validate in debug builds.

use vstd::prelude::*;
use vstd::string::StringExecFns;
use crate::error::RendererError;
use crate::math::{Color, Matrix3, Matrix4, Vector2, Vector3, Vector4};
use crate::math::{spec_gravity, spec_matrix3_identity, spec_matrix4_identity};
use crate::math::{gravity, SCALAR_ZERO};
use crate::mesh::{BoundingVolume, CpuMesh};
use crate::shader::{
    compose_vertex_source, contains_seq, scan_fragment_signals, select_color_variant,
    spec_color_variant, spec_composed_source, spec_scan,
};

verus! {

/// The attributes of each particle: its starting position and velocity, and
/// optionally a texture transform and a color. Every present sequence
/// describes one particle per element; the length of `start_positions`
/// defines the instance count.
#[derive(Clone, Debug)]
pub struct ParticleData {
    /// Initial position of each particle, in world coordinates.
    pub start_positions: Vec<Vector3>,
    /// Initial velocity of each particle, in world coordinates.
    pub start_velocities: Vec<Vector3>,
    /// The texture transform applied to the texture coordinates of each
    /// particle, when per-particle transforms are wanted.
    pub texture_transforms: Option<Vec<Matrix3>>,
    /// A custom color for each particle, when per-particle colors are
    /// wanted.
    pub colors: Option<Vec<Color>>,
}

impl ParticleData {
    /// The number of particles the snapshot describes.
    pub open spec fn spec_count(self) -> nat {
        self.start_positions@.len()
    }

    /// True when the texture transforms are present but too short.
    pub open spec fn texture_transforms_short(self) -> bool {
        self.texture_transforms matches Some(ts) && ts@.len() < self.spec_count()
    }

    /// True when the colors are present but too short.
    pub open spec fn colors_short(self) -> bool {
        self.colors matches Some(cs) && cs@.len() < self.spec_count()
    }

    /// True when the velocities do not match the instance count exactly.
    pub open spec fn velocities_mismatched(self) -> bool {
        self.start_velocities@.len() != self.spec_count()
    }

    /// A snapshot is valid when every present optional sequence reaches the
    /// instance count and the velocities match it exactly.
    pub open spec fn spec_valid(self) -> bool {
        &&& !self.texture_transforms_short()
        &&& !self.colors_short()
        &&& !self.velocities_mismatched()
    }

    /// Returns an error if the particle data is not valid: on the first
    /// violation, in checking order, the error names the offending buffer
    /// and carries the expected and the actual length.
    pub fn validate(&self) -> (r: Result<(), RendererError>)
        ensures
            r is Ok <==> self.spec_valid(),
            r matches Err(e) ==> spec_first_violation(*self, e),
    {
        let instance_count = self.start_positions.len();
        if let Some(ts) = &self.texture_transforms {
            if ts.len() < instance_count {
                return Err(RendererError::InvalidBufferLength(
                    String::from_str("texture transforms"),
                    instance_count,
                    ts.len(),
                ));
            }
        }
        if let Some(cs) = &self.colors {
            if cs.len() < instance_count {
                return Err(RendererError::InvalidBufferLength(
                    String::from_str("colors"),
                    instance_count,
                    cs.len(),
                ));
            }
        }
        if self.start_velocities.len() != instance_count {
            return Err(RendererError::InvalidBufferLength(
                String::from_str("start_velocities"),
                instance_count,
                self.start_velocities.len(),
            ));
        }
        Ok(())
    }

    /// Returns the number of instances.
    pub fn count(&self) -> (r: u32)
        requires
            self.start_positions@.len() <= u32::MAX,
        ensures
            r as nat == self.spec_count(),
    {
        self.start_positions.len() as u32
    }
}

impl Default for ParticleData {
    /// An empty snapshot: no particles and no optional attributes.
    fn default() -> (r: Self)
        ensures
            r.start_positions@.len() == 0,
            r.start_velocities@.len() == 0,
            r.texture_transforms is None,
            r.colors is None,
    {
        ParticleData {
            start_positions: Vec::new(),
            start_velocities: Vec::new(),
            texture_transforms: None,
            colors: None,
        }
    }
}

/// What `validate` reports for an invalid snapshot: the error names the
/// first too-short buffer in checking order (texture transforms, colors,
/// velocities), expects the instance count and carries the actual length.
pub open spec fn spec_first_violation(data: ParticleData, e: RendererError) -> bool {
    if data.texture_transforms_short() {
        &&& e matches RendererError::InvalidBufferLength(name, expected, actual)
        &&& name@ == "texture transforms"@
        &&& expected == data.spec_count()
        &&& actual == data.texture_transforms.unwrap()@.len()
    } else if data.colors_short() {
        &&& e matches RendererError::InvalidBufferLength(name, expected, actual)
        &&& name@ == "colors"@
        &&& expected == data.spec_count()
        &&& actual == data.colors.unwrap()@.len()
    } else if data.velocities_mismatched() {
        &&& e matches RendererError::InvalidBufferLength(name, expected, actual)
        &&& name@ == "start_velocities"@
        &&& expected == data.spec_count()
        &&& actual == data.start_velocities@.len()
    } else {
        false
    }
}

/// The exclusively owned per-instance attribute buffers, keyed by semantic
/// attribute name. Start positions and velocities always exist; the others
/// exist exactly when the last snapshot carried the matching attribute.
#[derive(Clone, Debug)]
pub struct InstanceBuffers {
    /// The `start_position` buffer.
    pub start_position: Vec<Vector3>,
    /// The `start_velocity` buffer.
    pub start_velocity: Vec<Vector3>,
    /// The `tex_transform_row1` buffer: the first row of each per-particle
    /// texture transform.
    pub tex_transform_row1: Option<Vec<Vector3>>,
    /// The `tex_transform_row2` buffer: the second row of each per-particle
    /// texture transform.
    pub tex_transform_row2: Option<Vec<Vector3>>,
    /// The `instance_color` buffer.
    pub instance_color: Option<Vec<Color>>,
}

impl InstanceBuffers {
    /// True when the buffers are exactly the materialization of `data`:
    /// positions and velocities copied, each 3x3 texture transform repacked
    /// into its two rows, colors copied, and nothing kept that `data` does
    /// not describe.
    pub open spec fn built_from(self, data: ParticleData) -> bool {
        &&& self.start_position@ == data.start_positions@
        &&& self.start_velocity@ == data.start_velocities@
        &&& (self.tex_transform_row1 is Some <==> data.texture_transforms is Some)
        &&& (self.tex_transform_row2 is Some <==> data.texture_transforms is Some)
        &&& (data.texture_transforms matches Some(ts) ==> {
            &&& self.tex_transform_row1.unwrap()@.len() == ts@.len()
            &&& self.tex_transform_row2.unwrap()@.len() == ts@.len()
            &&& forall|i: int|
                0 <= i < ts@.len() ==> self.tex_transform_row1.unwrap()@[i] == ts@[i].spec_row1()
                    && self.tex_transform_row2.unwrap()@[i] == ts@[i].spec_row2()
        })
        &&& (self.instance_color is Some <==> data.colors is Some)
        &&& (data.colors matches Some(cs) ==> self.instance_color.unwrap()@ == cs@)
    }
}

/// Copies the elements of a vector into a fresh vector.
fn copy_items<T: Copy>(source: &Vec<T>) -> (r: Vec<T>)
    ensures
        r@ == source@,
{
    let mut r: Vec<T> = Vec::new();
    let mut i: usize = 0;
    while i < source.len()
        invariant
            i <= source@.len(),
            r@.len() == i,
            forall|k: int| 0 <= k < i ==> r@[k] == source@[k],
        decreases source@.len() - i,
    {
        r.push(source[i]);
        i = i + 1;
    }
    proof {
        assert(r@ =~= source@);
    }
    r
}

/// Repacks each 3x3 texture transform into its first and second row, the
/// two 3-wide per-instance attributes the vertex stage consumes.
fn texture_transform_rows(transforms: &Vec<Matrix3>) -> (r: (Vec<Vector3>, Vec<Vector3>))
    ensures
        r.0@.len() == transforms@.len(),
        r.1@.len() == transforms@.len(),
        forall|i: int|
            0 <= i < transforms@.len() ==> r.0@[i] == transforms@[i].spec_row1() && r.1@[i]
                == transforms@[i].spec_row2(),
{
    let mut row1: Vec<Vector3> = Vec::new();
    let mut row2: Vec<Vector3> = Vec::new();
    let mut i: usize = 0;
    while i < transforms.len()
        invariant
            i <= transforms@.len(),
            row1@.len() == i,
            row2@.len() == i,
            forall|k: int|
                0 <= k < i ==> row1@[k] == transforms@[k].spec_row1() && row2@[k]
                    == transforms@[k].spec_row2(),
        decreases transforms@.len() - i,
    {
        let t = transforms[i];
        row1.push(Vector3 { x: t.x.x, y: t.y.x, z: t.z.x });
        row2.push(Vector3 { x: t.x.y, y: t.y.y, z: t.z.y });
        i = i + 1;
    }
    (row1, row2)
}

/// Materializes the instance buffers for a snapshot.
fn build_instance_buffers(data: &ParticleData) -> (b: InstanceBuffers)
    ensures
        b.built_from(*data),
{
    let start_position = copy_items(&data.start_positions);
    let start_velocity = copy_items(&data.start_velocities);
    let (tex_transform_row1, tex_transform_row2) = match &data.texture_transforms {
        Some(ts) => {
            let (row1, row2) = texture_transform_rows(ts);
            (Some(row1), Some(row2))
        },
        None => (None, None),
    };
    let instance_color = match &data.colors {
        Some(cs) => Some(copy_items(cs)),
        None => None,
    };
    InstanceBuffers {
        start_position,
        start_velocity,
        tex_transform_row1,
        tex_transform_row2,
        instance_color,
    }
}

/// A particle effect that can be rendered with any material.
///
/// The entity owns its instance buffers exclusively and shares the vertex
/// channels of the base geometry it was built from; `update` replaces the
/// instance buffers wholesale and leaves everything else untouched.
#[derive(Clone, Debug)]
pub struct Particles {
    /// The shared `position` vertex buffer; defines the vertex count.
    pub vertex_positions: Vec<Vector3>,
    /// The shared `normal` vertex buffer, when the base geometry has one.
    pub vertex_normals: Option<Vec<Vector3>>,
    /// The shared `tangent` vertex buffer, when the base geometry has one.
    pub vertex_tangents: Option<Vec<Vector4>>,
    /// The shared `color` vertex buffer, when the base geometry has one.
    pub vertex_colors: Option<Vec<Color>>,
    /// The shared `uv_coordinates` vertex buffer, when the base geometry
    /// has one.
    pub vertex_uvs: Option<Vec<Vector2>>,
    /// The shared index buffer; absent for non-indexed geometry.
    pub index_buffer: Option<Vec<u32>>,
    /// The exclusively owned instance buffers.
    pub instance_buffers: InstanceBuffers,
    /// The acceleration applied to all particles, in world coordinates.
    /// The default is gravity.
    pub acceleration: Vector3,
    /// The instance count cached from the last update.
    pub instance_count: u32,
    /// The local-to-world transformation applied before the kinematic law.
    pub transformation: Matrix4,
    /// The global texture transform, applied before any per-instance one.
    pub texture_transform: Matrix3,
    /// The time uniform (an opaque scalar encoding); the caller advances it
    /// each frame to animate motion.
    pub time: u32,
}

impl Particles {
    /// The buffer lifecycle invariant: the always-present instance buffers
    /// match the cached instance count exactly, optional instance buffers
    /// come in consistent pairs and reach the instance count, and the
    /// vertex count fits the draw call's 32-bit counter.
    pub open spec fn wf(self) -> bool {
        &&& self.vertex_positions@.len() <= u32::MAX
        &&& self.instance_buffers.start_position@.len() == self.instance_count
        &&& self.instance_buffers.start_velocity@.len() == self.instance_count
        &&& (self.instance_buffers.tex_transform_row1 is Some
            <==> self.instance_buffers.tex_transform_row2 is Some)
        &&& (self.instance_buffers.tex_transform_row1 matches Some(row1) ==> row1@.len()
            >= self.instance_count)
        &&& (self.instance_buffers.tex_transform_row2 matches Some(row2) ==> row2@.len()
            >= self.instance_count)
        &&& (self.instance_buffers.instance_color matches Some(cs) ==> cs@.len()
            >= self.instance_count)
    }

    /// Creates a new set of particles with the geometry of the given base
    /// mesh, validating the snapshot and performing the initial buffer
    /// build. Fails exactly when the snapshot is invalid, with the error
    /// `validate` gives; nothing is built then.
    pub fn new(data: &ParticleData, mesh: CpuMesh) -> (r: Result<Particles, RendererError>)
        requires
            data.start_positions@.len() <= u32::MAX,
            mesh.positions@.len() <= u32::MAX,
        ensures
            r is Ok <==> data.spec_valid(),
            r matches Err(e) ==> spec_first_violation(*data, e),
            r matches Ok(p) ==> {
                &&& p.wf()
                &&& p.vertex_positions == mesh.positions
                &&& p.vertex_normals == mesh.normals
                &&& p.vertex_tangents == mesh.tangents
                &&& p.vertex_colors == mesh.colors
                &&& p.vertex_uvs == mesh.uvs
                &&& p.index_buffer == mesh.indices
                &&& p.instance_buffers.built_from(*data)
                &&& p.instance_count as nat == data.spec_count()
                &&& p.acceleration == spec_gravity()
                &&& p.transformation == spec_matrix4_identity()
                &&& p.texture_transform == spec_matrix3_identity()
                &&& p.time == SCALAR_ZERO
            },
    {
        match data.validate() {
            Err(e) => Err(e),
            Ok(()) => {
                let instance_count = data.count();
                let instance_buffers = build_instance_buffers(data);
                Ok(
                    Particles {
                        vertex_positions: mesh.positions,
                        vertex_normals: mesh.normals,
                        vertex_tangents: mesh.tangents,
                        vertex_colors: mesh.colors,
                        vertex_uvs: mesh.uvs,
                        index_buffer: mesh.indices,
                        instance_buffers,
                        acceleration: gravity(),
                        instance_count,
                        transformation: Matrix4::identity(),
                        texture_transform: Matrix3::identity(),
                        time: SCALAR_ZERO,
                    },
                )
            },
        }
    }

    /// Returns the local-to-world transformation applied to the particle
    /// geometry before its position is advanced by the kinematic law.
    pub fn transformation(&self) -> (r: Matrix4)
        ensures
            r == self.transformation,
    {
        self.transformation
    }

    /// Sets the local-to-world transformation applied to the particle
    /// geometry before its position is advanced by the kinematic law.
    pub fn set_transformation(&mut self, transformation: Matrix4)
        ensures
            *final(self) == (Particles { transformation, ..*old(self) }),
    {
        self.transformation = transformation;
    }

    /// Returns the global texture transform applied to the texture
    /// coordinates of all of the particles.
    pub fn texture_transform(&self) -> (r: &Matrix3)
        ensures
            r == self.texture_transform,
    {
        &self.texture_transform
    }

    /// Sets the global texture transform applied to the texture coordinates
    /// of all of the particles, ahead of any per-particle transform.
    pub fn set_texture_transform(&mut self, texture_transform: Matrix3)
        ensures
            *final(self) == (Particles { texture_transform, ..*old(self) }),
    {
        self.texture_transform = texture_transform;
    }

    /// Updates the particles with the given snapshot.
    ///
    /// On success every instance buffer is replaced wholesale by the
    /// materialization of the snapshot — buffers the snapshot does not
    /// describe are dropped — and the instance count is recached; nothing
    /// else changes. Fails exactly when the snapshot is invalid, with the
    /// error `validate` gives, and then changes nothing at all.
    pub fn update(&mut self, data: &ParticleData) -> (r: Result<(), RendererError>)
        requires
            old(self).wf(),
            data.start_positions@.len() <= u32::MAX,
        ensures
            final(self).wf(),
            r is Ok <==> data.spec_valid(),
            r matches Err(e) ==> spec_first_violation(*data, e) && *final(self) == *old(self),
            r is Ok ==> {
                &&& final(self).instance_buffers.built_from(*data)
                &&& final(self).instance_count as nat == data.spec_count()
                &&& final(self).vertex_positions == old(self).vertex_positions
                &&& final(self).vertex_normals == old(self).vertex_normals
                &&& final(self).vertex_tangents == old(self).vertex_tangents
                &&& final(self).vertex_colors == old(self).vertex_colors
                &&& final(self).vertex_uvs == old(self).vertex_uvs
                &&& final(self).index_buffer == old(self).index_buffer
                &&& final(self).acceleration == old(self).acceleration
                &&& final(self).transformation == old(self).transformation
                &&& final(self).texture_transform == old(self).texture_transform
                &&& final(self).time == old(self).time
            },
    {
        match data.validate() {
            Err(e) => Err(e),
            Ok(()) => {
                self.instance_count = data.count();
                self.instance_buffers = build_instance_buffers(data);
                Ok(())
            },
        }
    }

    /// True when any color source is available to the material: the base
    /// geometry's vertex colors or the per-instance colors. The material
    /// receives this answer when asked for its fragment-stage source.
    pub fn uses_color_source(&self) -> (r: bool)
        ensures
            r == (self.vertex_colors is Some || self.instance_buffers.instance_color is Some),
    {
        self.vertex_colors.is_some() || self.instance_buffers.instance_color.is_some()
    }

    /// Composes the vertex-stage source matching a material's
    /// fragment-stage source: the scanned feature flags, the color variant
    /// selected from the available buffers, the per-instance texture
    /// transform flag when that buffer exists, then the shared utility
    /// block and the vertex-stage template.
    ///
    /// Fails exactly when the fragment-stage source declares the tangent
    /// input without the bitangent input.
    pub fn vertex_shader_source(
        &self,
        fragment_shader_source: &str,
        shared_block: &str,
        vertex_template: &str,
    ) -> (r: Result<String, RendererError>)
        ensures
            r is Err <==> contains_seq(fragment_shader_source@, "in vec3 tang;"@)
                && !contains_seq(fragment_shader_source@, "in vec3 bitang;"@),
            r matches Err(e) ==> e == RendererError::TangentWithoutBitangent,
            r matches Ok(src) ==> src@ == spec_composed_source(
                spec_scan(fragment_shader_source@),
                spec_color_variant(
                    self.vertex_colors is Some,
                    self.instance_buffers.instance_color is Some,
                ),
                self.instance_buffers.tex_transform_row1 is Some,
                shared_block@,
                vertex_template@,
            ),
    {
        let signals = scan_fragment_signals(fragment_shader_source);
        let variant = select_color_variant(
            self.vertex_colors.is_some(),
            self.instance_buffers.instance_color.is_some(),
        );
        compose_vertex_source(
            signals,
            variant,
            self.instance_buffers.tex_transform_row1.is_some(),
            shared_block,
            vertex_template,
        )
    }

    /// The bounding volume of the particle geometry: unbounded, because
    /// instance positions are evaluated on the graphics processor and no
    /// exact host-side bound is computed. Culling must not rely on a tight
    /// bound for this entity.
    pub fn aabb(&self) -> (r: BoundingVolume)
        ensures
            r is Infinite,
    {
        BoundingVolume::Infinite
    }
}

} // verus!
