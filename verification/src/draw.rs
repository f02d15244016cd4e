//! Draw-dispatch data: which attributes a compiled program requires, and the
//! fully decided plan for one instanced draw call.
//!
//! The external graphics context compiles (or fetches from its cache) a
//! program for a source pair and can be asked which attributes and uniforms
//! that program declares. The embedding collects those answers into a
//! [`ProgramInfo`] and hands it to the planner, which returns a [`DrawPlan`]
//! that the embedding executes against the real context.

use vstd::prelude::*;
use vstd::string::StringExecFns;
use crate::error::RendererError;
use crate::math::{Matrix3, Matrix4, Vector3};
use crate::particles::Particles;

verus! {

/// The vertex attributes a program may require, drawn from the fixed
/// candidate set the renderer binds, in binding order.
#[derive(Clone, Copy, Debug, PartialEq, Eq, Structural)]
pub enum VertexAttribute {
    Position,
    Normal,
    Tangent,
    Color,
    UvCoordinates,
}

/// The instance attributes a program may require, drawn from the fixed
/// candidate set the renderer binds, in binding order.
#[derive(Clone, Copy, Debug, PartialEq, Eq, Structural)]
pub enum InstanceAttribute {
    StartPosition,
    StartVelocity,
    TexTransformRow1,
    TexTransformRow2,
    InstanceColor,
}

/// What the embedding learned about a compiled program: which attributes it
/// requires and which optional uniforms it declares.
#[derive(Clone, Copy, Debug, PartialEq, Eq, Structural)]
pub struct ProgramInfo {
    pub requires_position: bool,
    pub requires_normal: bool,
    pub requires_tangent: bool,
    pub requires_color: bool,
    pub requires_uv_coordinates: bool,
    pub requires_start_position: bool,
    pub requires_start_velocity: bool,
    pub requires_tex_transform_row1: bool,
    pub requires_tex_transform_row2: bool,
    pub requires_instance_color: bool,
    /// Whether the program declares the global texture transform uniform.
    pub declares_texture_transform: bool,
    /// Whether the program declares the normal matrix uniform.
    pub declares_normal_matrix: bool,
}

/// One uniform the embedding must bind before dispatching the draw.
///
/// Values the renderer owns are carried directly; values only the camera or
/// a matrix inversion can produce are named symbolically and computed by the
/// embedding.
#[derive(Clone, Copy, Debug, PartialEq, Eq, Structural)]
pub enum UniformBinding {
    /// Bind the product of the camera's projection and view matrices.
    ViewProjection,
    /// Bind the local-to-world transformation of the particle geometry.
    ModelMatrix(Matrix4),
    /// Bind the global acceleration applied to every particle.
    Acceleration(Vector3),
    /// Bind the current time scalar (an opaque scalar encoding).
    Time(u32),
    /// Bind the global texture transform, applied before any per-instance
    /// texture transform.
    TextureTransform(Matrix3),
    /// Bind the inverse-transpose of the carried local-to-world matrix; the
    /// embedding performs the inversion and transposition.
    NormalMatrix(Matrix4),
}

/// The one draw call a render decision dispatches.
#[derive(Clone, Copy, Debug, PartialEq, Eq, Structural)]
pub enum DrawDispatch {
    /// Draw indexed geometry over the shared index buffer, instanced.
    ElementsInstanced { instance_count: u32 },
    /// Draw non-indexed geometry over the whole position buffer, instanced.
    ArraysInstanced { vertex_count: u32, instance_count: u32 },
}

/// A fully decided instanced draw: the uniforms to bind, the vertex and
/// instance attributes to wire up (every one backed by a buffer), and the
/// dispatch to issue. The embedding applies the pieces in field order, after
/// the material has bound its own uniforms.
#[derive(Clone, Debug, PartialEq, Eq)]
pub struct DrawPlan {
    pub uniforms: Vec<UniformBinding>,
    pub vertex_attributes: Vec<VertexAttribute>,
    pub instance_attributes: Vec<InstanceAttribute>,
    pub dispatch: DrawDispatch,
}

impl VertexAttribute {
    /// The semantic name under which the attribute's buffer is keyed.
    pub fn name(&self) -> (r: String)
        ensures
            self is Position ==> r@ == "position"@,
            self is Normal ==> r@ == "normal"@,
            self is Tangent ==> r@ == "tangent"@,
            self is Color ==> r@ == "color"@,
            self is UvCoordinates ==> r@ == "uv_coordinates"@,
    {
        match self {
            VertexAttribute::Position => String::from_str("position"),
            VertexAttribute::Normal => String::from_str("normal"),
            VertexAttribute::Tangent => String::from_str("tangent"),
            VertexAttribute::Color => String::from_str("color"),
            VertexAttribute::UvCoordinates => String::from_str("uv_coordinates"),
        }
    }
}

impl InstanceAttribute {
    /// The semantic name under which the attribute's buffer is keyed.
    pub fn name(&self) -> (r: String)
        ensures
            self is StartPosition ==> r@ == "start_position"@,
            self is StartVelocity ==> r@ == "start_velocity"@,
            self is TexTransformRow1 ==> r@ == "tex_transform_row1"@,
            self is TexTransformRow2 ==> r@ == "tex_transform_row2"@,
            self is InstanceColor ==> r@ == "instance_color"@,
    {
        match self {
            InstanceAttribute::StartPosition => String::from_str("start_position"),
            InstanceAttribute::StartVelocity => String::from_str("start_velocity"),
            InstanceAttribute::TexTransformRow1 => String::from_str("tex_transform_row1"),
            InstanceAttribute::TexTransformRow2 => String::from_str("tex_transform_row2"),
            InstanceAttribute::InstanceColor => String::from_str("instance_color"),
        }
    }
}

/// The vertex attributes a program requires, in binding order.
pub open spec fn spec_required_vertex_attributes(p: ProgramInfo) -> Seq<VertexAttribute> {
    (if p.requires_position {
        seq![VertexAttribute::Position]
    } else {
        Seq::<VertexAttribute>::empty()
    }) + (if p.requires_normal {
        seq![VertexAttribute::Normal]
    } else {
        Seq::<VertexAttribute>::empty()
    }) + (if p.requires_tangent {
        seq![VertexAttribute::Tangent]
    } else {
        Seq::<VertexAttribute>::empty()
    }) + (if p.requires_color {
        seq![VertexAttribute::Color]
    } else {
        Seq::<VertexAttribute>::empty()
    }) + (if p.requires_uv_coordinates {
        seq![VertexAttribute::UvCoordinates]
    } else {
        Seq::<VertexAttribute>::empty()
    })
}

/// The instance attributes a program requires, in binding order.
pub open spec fn spec_required_instance_attributes(p: ProgramInfo) -> Seq<InstanceAttribute> {
    (if p.requires_start_position {
        seq![InstanceAttribute::StartPosition]
    } else {
        Seq::<InstanceAttribute>::empty()
    }) + (if p.requires_start_velocity {
        seq![InstanceAttribute::StartVelocity]
    } else {
        Seq::<InstanceAttribute>::empty()
    }) + (if p.requires_tex_transform_row1 {
        seq![InstanceAttribute::TexTransformRow1]
    } else {
        Seq::<InstanceAttribute>::empty()
    }) + (if p.requires_tex_transform_row2 {
        seq![InstanceAttribute::TexTransformRow2]
    } else {
        Seq::<InstanceAttribute>::empty()
    }) + (if p.requires_instance_color {
        seq![InstanceAttribute::InstanceColor]
    } else {
        Seq::<InstanceAttribute>::empty()
    })
}

/// Collects the vertex attributes a program requires, in binding order.
fn build_vertex_attributes(program: &ProgramInfo) -> (r: Vec<VertexAttribute>)
    ensures
        r@ == spec_required_vertex_attributes(*program),
{
    let mut vertex_attributes: Vec<VertexAttribute> = Vec::new();
    if program.requires_position {
        vertex_attributes.push(VertexAttribute::Position);
    }
    if program.requires_normal {
        vertex_attributes.push(VertexAttribute::Normal);
    }
    if program.requires_tangent {
        vertex_attributes.push(VertexAttribute::Tangent);
    }
    if program.requires_color {
        vertex_attributes.push(VertexAttribute::Color);
    }
    if program.requires_uv_coordinates {
        vertex_attributes.push(VertexAttribute::UvCoordinates);
    }
    proof {
        assert(vertex_attributes@ =~= spec_required_vertex_attributes(*program));
    }
    vertex_attributes
}

/// Collects the instance attributes a program requires, in binding order.
fn build_instance_attributes(program: &ProgramInfo) -> (r: Vec<InstanceAttribute>)
    ensures
        r@ == spec_required_instance_attributes(*program),
{
    let mut instance_attributes: Vec<InstanceAttribute> = Vec::new();
    if program.requires_start_position {
        instance_attributes.push(InstanceAttribute::StartPosition);
    }
    if program.requires_start_velocity {
        instance_attributes.push(InstanceAttribute::StartVelocity);
    }
    if program.requires_tex_transform_row1 {
        instance_attributes.push(InstanceAttribute::TexTransformRow1);
    }
    if program.requires_tex_transform_row2 {
        instance_attributes.push(InstanceAttribute::TexTransformRow2);
    }
    if program.requires_instance_color {
        instance_attributes.push(InstanceAttribute::InstanceColor);
    }
    proof {
        assert(instance_attributes@ =~= spec_required_instance_attributes(*program));
    }
    instance_attributes
}

impl Particles {
    /// True when the entity holds a buffer for the vertex attribute.
    /// Positions always exist; the other channels exist when the base
    /// geometry provided them.
    pub open spec fn has_vertex_attribute(self, a: VertexAttribute) -> bool {
        match a {
            VertexAttribute::Position => true,
            VertexAttribute::Normal => self.vertex_normals is Some,
            VertexAttribute::Tangent => self.vertex_tangents is Some,
            VertexAttribute::Color => self.vertex_colors is Some,
            VertexAttribute::UvCoordinates => self.vertex_uvs is Some,
        }
    }

    /// True when the entity holds a buffer for the instance attribute.
    /// Start positions and velocities always exist; the others exist when
    /// the last snapshot carried them.
    pub open spec fn has_instance_attribute(self, a: InstanceAttribute) -> bool {
        match a {
            InstanceAttribute::StartPosition => true,
            InstanceAttribute::StartVelocity => true,
            InstanceAttribute::TexTransformRow1 => self.instance_buffers.tex_transform_row1
                is Some,
            InstanceAttribute::TexTransformRow2 => self.instance_buffers.tex_transform_row2
                is Some,
            InstanceAttribute::InstanceColor => self.instance_buffers.instance_color is Some,
        }
    }

    /// True when the program requires some vertex attribute the entity has
    /// no buffer for.
    pub open spec fn missing_vertex_attribute(self, p: ProgramInfo) -> bool {
        ||| p.requires_normal && self.vertex_normals is None
        ||| p.requires_tangent && self.vertex_tangents is None
        ||| p.requires_color && self.vertex_colors is None
        ||| p.requires_uv_coordinates && self.vertex_uvs is None
    }

    /// True when the program requires some instance attribute the entity
    /// has no buffer for.
    pub open spec fn missing_instance_attribute(self, p: ProgramInfo) -> bool {
        ||| p.requires_tex_transform_row1 && self.instance_buffers.tex_transform_row1 is None
        ||| p.requires_tex_transform_row2 && self.instance_buffers.tex_transform_row2 is None
        ||| p.requires_instance_color && self.instance_buffers.instance_color is None
    }

    /// The error reported for the first attribute, in binding order, that
    /// the program requires and the entity cannot back with a buffer.
    pub open spec fn spec_missing_attribute_error(self, p: ProgramInfo) -> RendererError {
        if p.requires_normal && self.vertex_normals is None {
            RendererError::MissingVertexBuffer(VertexAttribute::Normal)
        } else if p.requires_tangent && self.vertex_tangents is None {
            RendererError::MissingVertexBuffer(VertexAttribute::Tangent)
        } else if p.requires_color && self.vertex_colors is None {
            RendererError::MissingVertexBuffer(VertexAttribute::Color)
        } else if p.requires_uv_coordinates && self.vertex_uvs is None {
            RendererError::MissingVertexBuffer(VertexAttribute::UvCoordinates)
        } else if p.requires_tex_transform_row1 && self.instance_buffers.tex_transform_row1
            is None {
            RendererError::MissingInstanceBuffer(InstanceAttribute::TexTransformRow1)
        } else if p.requires_tex_transform_row2 && self.instance_buffers.tex_transform_row2
            is None {
            RendererError::MissingInstanceBuffer(InstanceAttribute::TexTransformRow2)
        } else {
            RendererError::MissingInstanceBuffer(InstanceAttribute::InstanceColor)
        }
    }

    /// The uniforms one draw binds, in binding order: the view-projection
    /// product, the model matrix, the acceleration and the time, then the
    /// global texture transform and the normal matrix exactly when the
    /// program declares them.
    pub open spec fn spec_uniform_bindings(self, p: ProgramInfo) -> Seq<UniformBinding> {
        seq![
            UniformBinding::ViewProjection,
            UniformBinding::ModelMatrix(self.transformation),
            UniformBinding::Acceleration(self.acceleration),
            UniformBinding::Time(self.time),
        ] + (if p.declares_texture_transform {
            seq![UniformBinding::TextureTransform(self.texture_transform)]
        } else {
            Seq::<UniformBinding>::empty()
        }) + (if p.declares_normal_matrix {
            seq![UniformBinding::NormalMatrix(self.transformation)]
        } else {
            Seq::<UniformBinding>::empty()
        })
    }

    /// Collects the uniform bindings for one draw, in binding order.
    fn build_uniform_bindings(&self, program: &ProgramInfo) -> (r: Vec<UniformBinding>)
        ensures
            r@ == self.spec_uniform_bindings(*program),
    {
        let mut uniforms: Vec<UniformBinding> = Vec::new();
        uniforms.push(UniformBinding::ViewProjection);
        uniforms.push(UniformBinding::ModelMatrix(self.transformation));
        uniforms.push(UniformBinding::Acceleration(self.acceleration));
        uniforms.push(UniformBinding::Time(self.time));
        if program.declares_texture_transform {
            uniforms.push(UniformBinding::TextureTransform(self.texture_transform));
        }
        if program.declares_normal_matrix {
            uniforms.push(UniformBinding::NormalMatrix(self.transformation));
        }
        proof {
            assert(uniforms@ =~= self.spec_uniform_bindings(*program));
        }
        uniforms
    }

    /// Decides one instanced draw for a compiled program.
    ///
    /// Fails exactly when the program requires an attribute the entity has
    /// no buffer for, naming the first such attribute in binding order; no
    /// partial state is handed out then. On success the plan carries the
    /// uniforms, every required attribute (each backed by a buffer), and
    /// exactly one dispatch: indexed-instanced over the index buffer when
    /// one exists, else non-indexed-instanced over the whole position
    /// buffer — both with the cached instance count.
    pub fn draw_plan(&self, program: &ProgramInfo) -> (r: Result<DrawPlan, RendererError>)
        requires
            self.wf(),
        ensures
            r is Err <==> self.missing_vertex_attribute(*program) || self.missing_instance_attribute(
                *program,
            ),
            r matches Err(e) ==> e == self.spec_missing_attribute_error(*program),
            r matches Ok(plan) ==> {
                &&& plan.uniforms@ == self.spec_uniform_bindings(*program)
                &&& plan.vertex_attributes@ == spec_required_vertex_attributes(*program)
                &&& plan.instance_attributes@ == spec_required_instance_attributes(*program)
                &&& (self.index_buffer is Some ==> plan.dispatch == (DrawDispatch::ElementsInstanced {
                    instance_count: self.instance_count,
                }))
                &&& (self.index_buffer is None ==> plan.dispatch == (DrawDispatch::ArraysInstanced {
                    vertex_count: self.vertex_positions@.len() as u32,
                    instance_count: self.instance_count,
                }))
            },
    {
        if program.requires_normal && self.vertex_normals.is_none() {
            return Err(RendererError::MissingVertexBuffer(VertexAttribute::Normal));
        }
        if program.requires_tangent && self.vertex_tangents.is_none() {
            return Err(RendererError::MissingVertexBuffer(VertexAttribute::Tangent));
        }
        if program.requires_color && self.vertex_colors.is_none() {
            return Err(RendererError::MissingVertexBuffer(VertexAttribute::Color));
        }
        if program.requires_uv_coordinates && self.vertex_uvs.is_none() {
            return Err(RendererError::MissingVertexBuffer(VertexAttribute::UvCoordinates));
        }
        if program.requires_tex_transform_row1 && self.instance_buffers.tex_transform_row1.is_none() {
            return Err(RendererError::MissingInstanceBuffer(InstanceAttribute::TexTransformRow1));
        }
        if program.requires_tex_transform_row2 && self.instance_buffers.tex_transform_row2.is_none() {
            return Err(RendererError::MissingInstanceBuffer(InstanceAttribute::TexTransformRow2));
        }
        if program.requires_instance_color && self.instance_buffers.instance_color.is_none() {
            return Err(RendererError::MissingInstanceBuffer(InstanceAttribute::InstanceColor));
        }
        let uniforms = self.build_uniform_bindings(program);
        let vertex_attributes = build_vertex_attributes(program);
        let instance_attributes = build_instance_attributes(program);
        let dispatch = match &self.index_buffer {
            Some(_) => DrawDispatch::ElementsInstanced { instance_count: self.instance_count },
            None => DrawDispatch::ArraysInstanced {
                vertex_count: self.vertex_positions.len() as u32,
                instance_count: self.instance_count,
            },
        };
        Ok(DrawPlan { uniforms, vertex_attributes, instance_attributes, dispatch })
    }
}

} // verus!
