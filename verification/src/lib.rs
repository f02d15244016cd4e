//! Verified core of a real-time particle-effect renderer.
//!
//! The crate animates large instanced geometries whose per-instance motion
//! follows a closed-form kinematic law evaluated on the graphics processor.
//! It covers per-instance data validation, the instance attribute buffer
//! lifecycle, shader-variant composition negotiated against an external
//! material's fragment-stage source text, and the draw-dispatch decisions.
//!
//! Window creation, mesh file import and the low-level graphics context are
//! external collaborators: the crate computes values and decisions, and the
//! embedding performs the GPU work they describe.

pub mod draw;
pub mod error;
pub mod frame;
pub mod math;
pub mod mesh;
pub mod particles;
pub mod shader;
