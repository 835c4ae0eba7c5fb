//! The pipeline of the sky: what one draw with it binds.

use vstd::prelude::*;
use crate::handle::{Buffer, DepthRef, Sampler, ShaderResourceView, TargetRef};
use crate::state::Rect;

verus! {

/// Everything that a draw of the sky binds.
#[derive(Clone, Copy, PartialEq, Eq, Debug)]
pub struct Data {
    /// The vertices of the box.
    pub verts: Buffer,
    /// The buffer of the transform block.
    pub transform: Buffer,
    /// The buffer of the params block.
    pub params: Buffer,
    /// The rectangle that the draw is confined to.
    pub scissor: Rect,
    /// Where colour goes.
    pub color: TargetRef,
    /// Where depth is tested.
    pub depth: DepthRef,
    /// The environment's reflected light, which is the sky itself.
    pub radiance: (ShaderResourceView, Sampler),
}

} // verus!
