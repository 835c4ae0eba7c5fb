//! Handles: the names under which the renderer knows the device's resources.
//!
//! A handle is a small value that is copied freely. Whoever holds a copy may
//! bind the resource for reading; a draw takes copies and owns nothing. A
//! handle that a [`Factory`](crate::factory::Factory) gave out is the position
//! of the resource's description in that factory.

use vstd::prelude::*;
use crate::state::Depth;

verus! {

/// The storage of a texture.
#[derive(Clone, Copy, PartialEq, Eq, Debug)]
pub struct RawTexture {
    pub id: usize,
}

/// A view of a texture that shaders sample.
#[derive(Clone, Copy, PartialEq, Eq, Debug)]
pub struct ShaderResourceView {
    pub id: usize,
}

/// A view of a texture that draws write colour to.
#[derive(Clone, Copy, PartialEq, Eq, Debug)]
pub struct RenderTargetView {
    pub id: usize,
}

/// A view of a texture that draws test and write depth with.
#[derive(Clone, Copy, PartialEq, Eq, Debug)]
pub struct DepthStencilView {
    pub id: usize,
}

/// A sampler.
#[derive(Clone, Copy, PartialEq, Eq, Debug)]
pub struct Sampler {
    pub id: usize,
}

/// A buffer: vertices, indices, or the records of a uniform block.
#[derive(Clone, Copy, PartialEq, Eq, Debug)]
pub struct Buffer {
    pub id: usize,
}

/// The shaders of one program.
#[derive(Clone, Copy, PartialEq, Eq, Debug)]
pub struct ShaderSet {
    pub id: usize,
}

/// The two families of pipeline that the renderer draws with.
#[derive(Clone, Copy, PartialEq, Eq, Debug)]
pub enum Layout {
    /// Lit, textured meshes.
    Foreground,
    /// The sky behind them.
    Background,
}

impl Layout {
    /// The depth test that a pipeline of this family is built with.
    pub open spec fn spec_depth(self) -> Depth {
        match self {
            Layout::Foreground => Depth::spec_less_equal_write(),
            Layout::Background => Depth::spec_pass_test(),
        }
    }

    /// The depth test that a pipeline of this family is built with: meshes
    /// hide one another by depth, the sky passes always and leaves the depth
    /// buffer as it was.
    #[verifier::when_used_as_spec(spec_depth)]
    pub fn depth(self) -> (d: Depth)
        ensures
            d == self.spec_depth(),
    {
        match self {
            Layout::Foreground => Depth::less_equal_write(),
            Layout::Background => Depth::pass_test(),
        }
    }
}

/// A compiled pipeline-state object, with the family it was compiled for.
#[derive(Clone, Copy, PartialEq, Eq, Debug)]
pub struct PipelineState {
    pub id: usize,
    pub layout: Layout,
}

/// The colour target of a draw.
pub type TargetRef = RenderTargetView;

/// The depth target of a draw.
pub type DepthRef = DepthStencilView;

} // verus!
