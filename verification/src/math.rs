//! Plain-value stand-ins for the scalar, vector, matrix and color types that
//! flow through the particle core.
//!
//! The renderer never computes on scalar components on the host: it stores
//! them, repacks them into attribute buffers and hands them to the graphics
//! processor. Components are therefore carried as opaque 32-bit scalar
//! encodings (`u32`); the embedding chooses the numeric interpretation when
//! it uploads buffers and uniforms. The named constants below are the
//! encodings of the defaults the renderer promises (zero, one and the
//! gravity constant), in the standard 32-bit binary floating-point format.

use vstd::prelude::*;

verus! {

/// Scalar encoding of the number zero.
pub const SCALAR_ZERO: u32 = 0x0000_0000;

/// Scalar encoding of the number one.
pub const SCALAR_ONE: u32 = 0x3F80_0000;

/// Scalar encoding of the default downward gravity component, -9.82.
pub const SCALAR_GRAVITY_Y: u32 = 0xC11D_1EB8;

/// A two-component vector of opaque scalar encodings (texture coordinates).
#[derive(Clone, Copy, Debug, PartialEq, Eq, Structural)]
pub struct Vector2 {
    pub x: u32,
    pub y: u32,
}

/// A three-component vector of opaque scalar encodings.
#[derive(Clone, Copy, Debug, PartialEq, Eq, Structural)]
pub struct Vector3 {
    pub x: u32,
    pub y: u32,
    pub z: u32,
}

/// A four-component vector of opaque scalar encodings.
#[derive(Clone, Copy, Debug, PartialEq, Eq, Structural)]
pub struct Vector4 {
    pub x: u32,
    pub y: u32,
    pub z: u32,
    pub w: u32,
}

/// A 3x3 matrix stored as three columns, as the texture transforms are.
#[derive(Clone, Copy, Debug, PartialEq, Eq, Structural)]
pub struct Matrix3 {
    pub x: Vector3,
    pub y: Vector3,
    pub z: Vector3,
}

/// A 4x4 matrix stored as four columns (local-to-world transformations).
#[derive(Clone, Copy, Debug, PartialEq, Eq, Structural)]
pub struct Matrix4 {
    pub x: Vector4,
    pub y: Vector4,
    pub z: Vector4,
    pub w: Vector4,
}

/// An RGBA color with 8-bit channels, one per particle when present.
#[derive(Clone, Copy, Debug, PartialEq, Eq, Structural)]
pub struct Color {
    pub r: u8,
    pub g: u8,
    pub b: u8,
    pub a: u8,
}

/// The identity 3x3 matrix (ones on the diagonal, zeroes elsewhere).
pub open spec fn spec_matrix3_identity() -> Matrix3 {
    Matrix3 {
        x: Vector3 { x: SCALAR_ONE, y: SCALAR_ZERO, z: SCALAR_ZERO },
        y: Vector3 { x: SCALAR_ZERO, y: SCALAR_ONE, z: SCALAR_ZERO },
        z: Vector3 { x: SCALAR_ZERO, y: SCALAR_ZERO, z: SCALAR_ONE },
    }
}

/// The identity 4x4 matrix (ones on the diagonal, zeroes elsewhere).
pub open spec fn spec_matrix4_identity() -> Matrix4 {
    Matrix4 {
        x: Vector4 { x: SCALAR_ONE, y: SCALAR_ZERO, z: SCALAR_ZERO, w: SCALAR_ZERO },
        y: Vector4 { x: SCALAR_ZERO, y: SCALAR_ONE, z: SCALAR_ZERO, w: SCALAR_ZERO },
        z: Vector4 { x: SCALAR_ZERO, y: SCALAR_ZERO, z: SCALAR_ONE, w: SCALAR_ZERO },
        w: Vector4 { x: SCALAR_ZERO, y: SCALAR_ZERO, z: SCALAR_ZERO, w: SCALAR_ONE },
    }
}

/// The default acceleration applied to all particles: gravity, straight down.
pub open spec fn spec_gravity() -> Vector3 {
    Vector3 { x: SCALAR_ZERO, y: SCALAR_GRAVITY_Y, z: SCALAR_ZERO }
}

impl Matrix3 {
    /// Returns the identity 3x3 matrix.
    pub fn identity() -> (r: Matrix3)
        ensures
            r == spec_matrix3_identity(),
    {
        Matrix3 {
            x: Vector3 { x: SCALAR_ONE, y: SCALAR_ZERO, z: SCALAR_ZERO },
            y: Vector3 { x: SCALAR_ZERO, y: SCALAR_ONE, z: SCALAR_ZERO },
            z: Vector3 { x: SCALAR_ZERO, y: SCALAR_ZERO, z: SCALAR_ONE },
        }
    }

    /// The first row of the matrix, read across the three columns.
    pub open spec fn spec_row1(self) -> Vector3 {
        Vector3 { x: self.x.x, y: self.y.x, z: self.z.x }
    }

    /// The second row of the matrix, read across the three columns.
    pub open spec fn spec_row2(self) -> Vector3 {
        Vector3 { x: self.x.y, y: self.y.y, z: self.z.y }
    }
}

impl Matrix4 {
    /// Returns the identity 4x4 matrix.
    pub fn identity() -> (r: Matrix4)
        ensures
            r == spec_matrix4_identity(),
    {
        Matrix4 {
            x: Vector4 { x: SCALAR_ONE, y: SCALAR_ZERO, z: SCALAR_ZERO, w: SCALAR_ZERO },
            y: Vector4 { x: SCALAR_ZERO, y: SCALAR_ONE, z: SCALAR_ZERO, w: SCALAR_ZERO },
            z: Vector4 { x: SCALAR_ZERO, y: SCALAR_ZERO, z: SCALAR_ONE, w: SCALAR_ZERO },
            w: Vector4 { x: SCALAR_ZERO, y: SCALAR_ZERO, z: SCALAR_ZERO, w: SCALAR_ONE },
        }
    }
}

/// Returns the default acceleration vector (gravity).
pub fn gravity() -> (r: Vector3)
    ensures
        r == spec_gravity(),
{
    Vector3 { x: SCALAR_ZERO, y: SCALAR_GRAVITY_Y, z: SCALAR_ZERO }
}

} // verus!
