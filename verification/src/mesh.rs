//! Meshes as a draw sees them: a buffer of vertices and the slice of indices
//! that says in which order they are drawn.

use vstd::prelude::*;
use crate::handle::Buffer;

verus! {

/// A vertex that has a position and nothing else.
#[derive(Clone, Copy, PartialEq, Eq, Debug)]
pub struct Vert {
    /// The position, as three single-precision bit patterns.
    pub pos: [u32; 3],
}

/// Where the indices of a slice come from.
#[derive(Clone, Copy, PartialEq, Eq, Debug)]
pub enum IndexBuffer {
    /// From nowhere: the vertices are drawn in the order they are stored in.
    Auto,
    /// From a buffer of 16-bit indices.
    Index16(Buffer),
    /// From a buffer of 32-bit indices.
    Index32(Buffer),
}

/// The part of an index buffer that one draw runs through.
#[derive(Clone, Copy, PartialEq, Eq, Debug)]
pub struct Slice {
    /// The first index drawn.
    pub start: u32,
    /// The index after the last one drawn.
    pub end: u32,
    /// Added to every index.
    pub base_vertex: u32,
    /// The instances drawn: their number and the first one, or no instancing.
    pub instances: Option<(u32, u32)>,
    /// The indices.
    pub buffer: IndexBuffer,
}

/// A mesh on the device.
#[derive(Clone, Copy, PartialEq, Eq, Debug)]
pub struct Mesh {
    /// All of its indices.
    pub slice: Slice,
    /// Its vertices.
    pub buf: Buffer,
}

} // verus!
