//! The ways in which building the renderer can fail.

use vstd::prelude::*;

verus! {

/// A failure of construction. Each one ends the construction that met it:
/// nothing is retried, and no half-built renderer is handed out.
#[derive(Clone, Copy, PartialEq, Eq, Debug)]
pub enum Error {
    /// A shader program did not compile or link, or a pipeline's layout does
    /// not agree with its program.
    PipelineCompile,
    /// The device could not make a texture, a view, a sampler or a buffer, or
    /// was asked for one with parameters that cannot work.
    ResourceCreation,
    /// No rotation takes the one axis onto the other.
    UnsupportedRotation,
}

} // verus!
