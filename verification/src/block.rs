//! Uniform blocks that every rendering style shares.

use vstd::prelude::*;
use crate::linear::{Matrix4, Vector4};
use crate::scalar::ZERO;

verus! {

/// The camera of one eye and the placement of one mesh, as the vertex stage
/// reads them.
#[derive(Clone, Copy, PartialEq, Eq, Debug)]
pub struct TransformBlock {
    /// Model space to world space.
    pub model: Matrix4,
    /// World space to the eye's space.
    pub view: Matrix4,
    /// The eye's space to clip space.
    pub proj: Matrix4,
    /// The position of the eye in world space.
    pub eye: Vector4,
    /// Shifts clip space sideways, so that each eye draws into its own half
    /// of the target.
    pub clip_offset: u32,
}

/// A point light.
#[derive(Clone, Copy, PartialEq, Eq, Debug)]
pub struct Light {
    /// Where it is.
    pub pos: Vector4,
    /// Its colour, with the intensity in the fourth place.
    pub color: Vector4,
}

impl Light {
    /// The light that lights nothing: at the origin, black.
    pub open spec fn dark() -> Light {
        Light { pos: [ZERO, ZERO, ZERO, ZERO], color: [ZERO, ZERO, ZERO, ZERO] }
    }
}

impl Default for Light {
    /// The light that lights nothing.
    fn default() -> (light: Light)
        ensures
            light == Light::dark(),
    {
        Light { pos: [ZERO, ZERO, ZERO, ZERO], color: [ZERO, ZERO, ZERO, ZERO] }
    }
}

} // verus!
