//! The base geometry a particle entity draws, as plain values.
//!
//! An external provider (for example a mesh importer) supplies one attribute
//! channel per vertex datum and an optional index list; this crate does not
//! parse or validate geometry files. The particle entity takes ownership of
//! the channels at construction and treats them as read-only afterwards.

use vstd::prelude::*;
use crate::math::{Color, Vector2, Vector3, Vector4};

verus! {

/// The vertex channels of a base geometry. Positions are always present
/// and define the vertex count; every other channel is optional.
#[derive(Clone, Debug)]
pub struct CpuMesh {
    /// One position per vertex.
    pub positions: Vec<Vector3>,
    /// One normal per vertex, when the geometry provides normals.
    pub normals: Option<Vec<Vector3>>,
    /// One tangent per vertex, when the geometry provides tangents.
    pub tangents: Option<Vec<Vector4>>,
    /// One color per vertex, when the geometry provides vertex colors.
    pub colors: Option<Vec<Color>>,
    /// One texture coordinate per vertex, when the geometry provides them.
    pub uvs: Option<Vec<Vector2>>,
    /// Triangle indices into the channels; absent for non-indexed geometry.
    pub indices: Option<Vec<u32>>,
}

/// How much space a piece of geometry may occupy.
#[derive(Clone, Copy, Debug, PartialEq, Eq, Structural)]
pub enum BoundingVolume {
    /// No finite bound: the geometry may reach anywhere.
    Infinite,
    /// An axis-aligned box between two corner points.
    Box { min: Vector3, max: Vector3 },
}

} // verus!
