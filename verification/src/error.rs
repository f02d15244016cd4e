//! Error kinds raised by the particle core.
//!
//! Validation errors are returned to the immediate caller. Draw-time errors
//! (a broken material contract, a missing attribute buffer) abort the render
//! decision before any state would be bound, so a failed call leaves nothing
//! partially applied; the embedding decides whether to skip the frame or
//! stop.

use vstd::prelude::*;
use crate::draw::{InstanceAttribute, VertexAttribute};

verus! {

/// Everything the particle core can refuse to do, with the data needed to
/// say why.
#[derive(Clone, Debug, PartialEq, Eq)]
pub enum RendererError {
    /// A per-instance buffer is shorter than the instance count: carries the
    /// buffer's name, the expected length (the instance count) and the
    /// actual length.
    InvalidBufferLength(String, usize, usize),
    /// The material's fragment-stage source declares the tangent input but
    /// not the bitangent input, breaking the signaling contract.
    TangentWithoutBitangent,
    /// A compiled program requires a vertex attribute for which the base
    /// geometry supplied no buffer.
    MissingVertexBuffer(VertexAttribute),
    /// A compiled program requires an instance attribute for which the last
    /// update supplied no buffer.
    MissingInstanceBuffer(InstanceAttribute),
}

} // verus!
