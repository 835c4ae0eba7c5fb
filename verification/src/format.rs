//! Surface and channel formats of the textures that the renderer names.

use vstd::prelude::*;

verus! {

/// The bits of a texel: which channels it has and how wide each is.
#[derive(Clone, Copy, PartialEq, Eq, Debug)]
pub enum SurfaceType {
    /// Two channels of 8 bits.
    R8G8,
    /// Four channels of 8 bits.
    R8G8B8A8,
    /// Three channels of 32 bits.
    R32G32B32,
    /// 24 bits of depth and 8 of stencil.
    D24S8,
    /// 32 bits of depth.
    D32,
}

/// How a shader reads the bits of a channel.
#[derive(Clone, Copy, PartialEq, Eq, Debug)]
pub enum ChannelType {
    Int,
    Uint,
    Inorm,
    Unorm,
    Float,
    Srgb,
}

/// A surface type together with the reading of its channels.
#[derive(Clone, Copy, PartialEq, Eq, Debug)]
pub struct Format(pub SurfaceType, pub ChannelType);

impl Format {
    /// The format of a colour target.
    pub open spec fn spec_color() -> Format {
        Format(SurfaceType::R8G8B8A8, ChannelType::Unorm)
    }

    /// The format of a depth target.
    pub open spec fn spec_depth() -> Format {
        Format(SurfaceType::D24S8, ChannelType::Unorm)
    }

    /// The format of an irradiance or radiance map.
    pub open spec fn spec_lum_map() -> Format {
        Format(SurfaceType::R32G32B32, ChannelType::Float)
    }

    /// The format of the shadow map.
    pub open spec fn spec_shadow_depth() -> Format {
        Format(SurfaceType::D32, ChannelType::Float)
    }

    /// The format of a colour target: four normalized bytes.
    #[verifier::when_used_as_spec(spec_color)]
    pub fn color() -> (f: Format)
        ensures
            f == Format::spec_color(),
    {
        Format(SurfaceType::R8G8B8A8, ChannelType::Unorm)
    }

    /// The format of a depth target: 24 bits of depth beside the stencil.
    #[verifier::when_used_as_spec(spec_depth)]
    pub fn depth() -> (f: Format)
        ensures
            f == Format::spec_depth(),
    {
        Format(SurfaceType::D24S8, ChannelType::Unorm)
    }

    /// The format of an irradiance or radiance map: three floats, so that
    /// light can be brighter than white.
    #[verifier::when_used_as_spec(spec_lum_map)]
    pub fn lum_map() -> (f: Format)
        ensures
            f == Format::spec_lum_map(),
    {
        Format(SurfaceType::R32G32B32, ChannelType::Float)
    }

    /// The format of the shadow map: one float of depth.
    #[verifier::when_used_as_spec(spec_shadow_depth)]
    pub fn shadow_depth() -> (f: Format)
        ensures
            f == Format::spec_shadow_depth(),
    {
        Format(SurfaceType::D32, ChannelType::Float)
    }
}

/// Where a channel of a view takes its value from.
#[derive(Clone, Copy, PartialEq, Eq, Debug)]
pub enum ChannelSource {
    Zero,
    One,
    X,
    Y,
    Z,
    W,
}

/// The sources of the four channels of a view.
#[derive(Clone, Copy, PartialEq, Eq, Debug)]
pub struct Swizzle(pub ChannelSource, pub ChannelSource, pub ChannelSource, pub ChannelSource);

impl Swizzle {
    /// Every channel from itself.
    pub open spec fn spec_new() -> Swizzle {
        Swizzle(ChannelSource::X, ChannelSource::Y, ChannelSource::Z, ChannelSource::W)
    }

    /// The swizzle that changes nothing.
    #[verifier::when_used_as_spec(spec_new)]
    pub fn new() -> (s: Swizzle)
        ensures
            s == Swizzle::spec_new(),
    {
        Swizzle(ChannelSource::X, ChannelSource::Y, ChannelSource::Z, ChannelSource::W)
    }
}

} // verus!
