//! Drawing: the eyes, the targets, and the painter that draws into them.

pub mod bg;
pub mod laws;
pub mod pl;
pub mod uber;

use vstd::prelude::*;
use crate::block::TransformBlock;
use crate::encoder::Encoder;
use crate::handle::{DepthRef, TargetRef};
use crate::linear::{identity, identity_matrix, Matrix4, Vector4};
use crate::state::Rect;
use self::uber::{UberInputs, UberStyle};

verus! {

/// The camera of one eye for one frame.
#[derive(Clone, Copy, PartialEq, Eq, Debug)]
pub struct EyeParams {
    /// The position of the eye in world space.
    pub eye: Vector4,
    /// World space to the eye's space.
    pub view: Matrix4,
    /// The eye's space to clip space.
    pub proj: Matrix4,
    /// The sideways shift of clip space that puts this eye's image into its
    /// half of the target.
    pub clip_offset: u32,
    /// The rectangle of the target that belongs to this eye.
    pub clip: Rect,
}

impl EyeParams {
    /// The transform with which this eye sees what is not placed anywhere:
    /// the eye's camera as it is, and the identity for the model.
    pub open spec fn spec_transform(&self) -> TransformBlock {
        TransformBlock {
            model: identity_matrix(),
            view: self.view,
            proj: self.proj,
            eye: self.eye,
            clip_offset: self.clip_offset,
        }
    }

    /// The transform with which this eye sees what is not placed anywhere,
    /// such as the sky.
    #[verifier::when_used_as_spec(spec_transform)]
    pub fn transform(&self) -> (block: TransformBlock)
        ensures
            block == self.spec_transform(),
    {
        TransformBlock {
            model: identity(),
            view: self.view,
            proj: self.proj,
            eye: self.eye,
            clip_offset: self.clip_offset,
        }
    }
}

/// What one frame is drawn with: the stream that takes the commands, the
/// targets, and the two eyes.
pub struct DrawParams {
    pub encoder: Encoder,
    pub color: TargetRef,
    pub depth: DepthRef,
    pub left: EyeParams,
    pub right: EyeParams,
}

/// A style together with the inputs that all of its draws share.
pub struct Painter {
    pub style: UberStyle,
    pub inputs: UberInputs,
}

} // verus!
