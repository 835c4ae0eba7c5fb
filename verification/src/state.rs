//! Fixed-function pipeline state: what a pipeline-state object is configured
//! with besides its shaders, and the rectangle a draw is confined to.

use vstd::prelude::*;

verus! {

/// A comparison between a fragment's value `x` and the stored value `y`.
#[derive(Clone, Copy, PartialEq, Eq, Debug)]
pub enum Comparison {
    /// Never passes.
    Never,
    /// `x < y`
    Less,
    /// `x <= y`
    LessEqual,
    /// `x == y`
    Equal,
    /// `x >= y`
    GreaterEqual,
    /// `x > y`
    Greater,
    /// `x != y`
    NotEqual,
    /// Always passes.
    Always,
}

/// The depth test of a pipeline.
#[derive(Clone, Copy, PartialEq, Eq, Debug)]
pub struct Depth {
    /// The comparison a fragment's depth has to pass.
    pub fun: Comparison,
    /// Whether a fragment that passes writes its depth.
    pub write: bool,
}

impl Depth {
    /// Every fragment passes and none writes its depth.
    pub open spec fn spec_pass_test() -> Depth {
        Depth { fun: Comparison::Always, write: false }
    }

    /// A fragment passes where its depth is at most the stored one, and then
    /// writes it.
    pub open spec fn spec_less_equal_write() -> Depth {
        Depth { fun: Comparison::LessEqual, write: true }
    }

    /// The test of a backdrop: what is drawn with it is never hidden by what
    /// the depth buffer holds, and hides nothing that is drawn later.
    #[verifier::when_used_as_spec(spec_pass_test)]
    pub fn pass_test() -> (d: Depth)
        ensures
            d == Depth::spec_pass_test(),
    {
        Depth { fun: Comparison::Always, write: false }
    }

    /// The test of opaque geometry.
    #[verifier::when_used_as_spec(spec_less_equal_write)]
    pub fn less_equal_write() -> (d: Depth)
        ensures
            d == Depth::spec_less_equal_write(),
    {
        Depth { fun: Comparison::LessEqual, write: true }
    }
}

/// Which winding of a triangle's corners, as seen on screen, is its front.
#[derive(Clone, Copy, PartialEq, Eq, Debug)]
pub enum FrontFace {
    Clockwise,
    CounterClockwise,
}

/// Which side of a triangle is not drawn.
#[derive(Clone, Copy, PartialEq, Eq, Debug)]
pub enum CullFace {
    Nothing,
    Front,
    Back,
}

/// How a primitive is turned into fragments.
#[derive(Clone, Copy, PartialEq, Eq, Debug)]
pub enum RasterMethod {
    /// As points.
    Point,
    /// As lines of the given width.
    Line(i32),
    /// As filled faces.
    Fill,
}

/// A depth offset: slope factor, then constant units.
#[derive(Clone, Copy, PartialEq, Eq, Debug)]
pub struct Offset(pub i32, pub i32);

/// The marker of multi-sampled rasterization.
#[derive(Clone, Copy, PartialEq, Eq, Debug)]
pub struct MultiSample;

/// The rasterizer state of a pipeline.
#[derive(Clone, Copy, PartialEq, Eq, Debug)]
pub struct Rasterizer {
    /// The winding that counts as the front of a triangle.
    pub front_face: FrontFace,
    /// The side that is culled.
    pub cull_face: CullFace,
    /// Points, lines or filled faces.
    pub method: RasterMethod,
    /// The depth offset, if any.
    pub offset: Option<Offset>,
    /// Multi-sampling, if any.
    pub samples: Option<MultiSample>,
}

impl Rasterizer {
    /// Filled faces, counter-clockwise fronts, nothing culled, no offset, no
    /// multi-sampling.
    pub open spec fn spec_new_fill() -> Rasterizer {
        Rasterizer {
            front_face: FrontFace::CounterClockwise,
            cull_face: CullFace::Nothing,
            method: RasterMethod::Fill,
            offset: None,
            samples: None,
        }
    }

    /// The plain filling rasterizer. It culls nothing, so a closed mesh shows
    /// from the inside as well as from the outside.
    #[verifier::when_used_as_spec(spec_new_fill)]
    pub fn new_fill() -> (r: Rasterizer)
        ensures
            r == Rasterizer::spec_new_fill(),
    {
        Rasterizer {
            front_face: FrontFace::CounterClockwise,
            cull_face: CullFace::Nothing,
            method: RasterMethod::Fill,
            offset: None,
            samples: None,
        }
    }
}

/// How consecutive vertices are assembled into primitives.
#[derive(Clone, Copy, PartialEq, Eq, Debug)]
pub enum Primitive {
    PointList,
    LineList,
    LineStrip,
    /// Every three vertices form one triangle.
    TriangleList,
    TriangleStrip,
    LineListAdjacency,
    LineStripAdjacency,
    TriangleListAdjacency,
    TriangleStripAdjacency,
    /// Patches of the given number of control points.
    PatchList(u8),
}

/// A rectangle of pixels: corner, then width and height.
#[derive(Clone, Copy, PartialEq, Eq, Debug)]
pub struct Rect {
    pub x: u16,
    pub y: u16,
    pub w: u16,
    pub h: u16,
}

} // verus!
