//! Textures: how their storage, their views and their samplers are described,
//! and the pair of view and sampler that a shader reads an image through.

use vstd::prelude::*;
use crate::factory::{Factory, Resource};
use crate::format::{ChannelType, Format, SurfaceType, Swizzle};
use crate::handle::{RawTexture, Sampler, ShaderResourceView};
use crate::state::Comparison;

verus! {

/// The samples inside one texel.
#[derive(Clone, Copy, PartialEq, Eq, Debug)]
pub enum AaMode {
    /// One sample.
    Single,
    /// Multi-sampling with the given number of samples.
    Multi(u8),
    /// Coverage sampling with the given numbers of samples and fragments.
    Coverage(u8, u8),
}

/// The shape of a texture's storage.
#[derive(Clone, Copy, PartialEq, Eq, Debug)]
pub enum Kind {
    /// A row of the given width.
    D1(u16),
    /// Rows of the given width, and their number.
    D1Array(u16, u16),
    /// A plane of the given width and height.
    D2(u16, u16, AaMode),
    /// Planes of the given width and height, and their number.
    D2Array(u16, u16, u16, AaMode),
    /// A volume of the given width, height and depth.
    D3(u16, u16, u16),
    /// Six square faces of the given size.
    Cube(u16),
    /// Cubes of the given size, and their number.
    CubeArray(u16, u16),
}

/// What a resource may be bound as.
#[derive(Clone, Copy, PartialEq, Eq, Debug)]
pub struct Bind {
    /// A target of colour.
    pub render_target: bool,
    /// A target of depth and stencil.
    pub depth_stencil: bool,
    /// An input of shaders.
    pub shader_resource: bool,
    /// An input and output of shaders.
    pub unordered_access: bool,
    /// The source of a copy.
    pub transfer_src: bool,
    /// The destination of a copy.
    pub transfer_dst: bool,
}

impl Bind {
    /// No binding at all.
    pub open spec fn spec_empty() -> Bind {
        Bind {
            render_target: false,
            depth_stencil: false,
            shader_resource: false,
            unordered_access: false,
            transfer_src: false,
            transfer_dst: false,
        }
    }

    /// No binding at all; set the fields that are wanted.
    #[verifier::when_used_as_spec(spec_empty)]
    pub fn empty() -> (b: Bind)
        ensures
            b == Bind::spec_empty(),
    {
        Bind {
            render_target: false,
            depth_stencil: false,
            shader_resource: false,
            unordered_access: false,
            transfer_src: false,
            transfer_dst: false,
        }
    }
}

/// Who reads and writes a resource, and how often.
#[derive(Clone, Copy, PartialEq, Eq, Debug)]
pub enum Usage {
    /// The device alone, at full speed.
    Data,
    /// The host writes by update commands.
    Dynamic,
    /// The host writes through a mapping.
    Upload,
    /// The host reads through a mapping.
    Download,
}

/// The description of a texture's storage.
#[derive(Clone, Copy, PartialEq, Eq, Debug)]
pub struct Info {
    /// Shape and size.
    pub kind: Kind,
    /// The number of mip levels.
    pub levels: u8,
    /// The bits of a texel.
    pub format: SurfaceType,
    /// What the texture may be bound as.
    pub bind: Bind,
    /// Who reads and writes it.
    pub usage: Usage,
}

/// The description of a view that shaders sample.
#[derive(Clone, Copy, PartialEq, Eq, Debug)]
pub struct ResourceDesc {
    /// The reading of the channels.
    pub channel: ChannelType,
    /// The one layer viewed, or all.
    pub layer: Option<u16>,
    /// The first mip level viewed.
    pub min: u8,
    /// The last mip level viewed.
    pub max: u8,
    /// The sources of the channels.
    pub swizzle: Swizzle,
}

/// Which parts of a depth-stencil view are read only.
#[derive(Clone, Copy, PartialEq, Eq, Debug)]
pub struct DepthStencilFlags {
    pub ro_depth: bool,
    pub ro_stencil: bool,
}

impl DepthStencilFlags {
    /// Depth and stencil are both written.
    pub open spec fn spec_empty() -> DepthStencilFlags {
        DepthStencilFlags { ro_depth: false, ro_stencil: false }
    }

    /// Depth and stencil are both written.
    #[verifier::when_used_as_spec(spec_empty)]
    pub fn empty() -> (f: DepthStencilFlags)
        ensures
            f == DepthStencilFlags::spec_empty(),
    {
        DepthStencilFlags { ro_depth: false, ro_stencil: false }
    }
}

/// The description of a view that draws test and write depth with.
#[derive(Clone, Copy, PartialEq, Eq, Debug)]
pub struct DepthStencilDesc {
    /// The mip level viewed.
    pub level: u8,
    /// The one layer viewed, or all.
    pub layer: Option<u16>,
    /// What is read only.
    pub flags: DepthStencilFlags,
}

/// How a sampler blends the texels around a sample point.
#[derive(Clone, Copy, PartialEq, Eq, Debug)]
pub enum FilterMethod {
    /// The nearest texel.
    Scale,
    /// The nearest texel of the nearest mip level.
    Mipmap,
    /// The texels around the point, within one mip level.
    Bilinear,
    /// The texels around the point, across two mip levels.
    Trilinear,
    /// Anisotropic, with the given maximum.
    Anisotropic(u8),
}

/// What a sampler does with a coordinate outside the texture.
#[derive(Clone, Copy, PartialEq, Eq, Debug)]
pub enum WrapMode {
    /// Repeat the texture.
    Tile,
    /// Repeat it, every other time mirrored.
    Mirror,
    /// Take the texel at the edge.
    Clamp,
    /// Take the border colour.
    Border,
}

/// The description of a sampler.
#[derive(Clone, Copy, PartialEq, Eq, Debug)]
pub struct SamplerInfo {
    /// The blending of texels.
    pub filter: FilterMethod,
    /// The wrapping along each of the three axes.
    pub wrap_mode: (WrapMode, WrapMode, WrapMode),
    /// Added to every computed mip level, in eighths of a level.
    pub lod_bias: i16,
    /// The range that the mip level is clamped to, in eighths of a level.
    pub lod_range: (i16, i16),
    /// With a comparison, a sample is the outcome of comparing a reference
    /// with the stored value: the sampling that shadow tests use.
    pub comparison: Option<Comparison>,
    /// The border colour, four bytes packed.
    pub border: u32,
}

impl SamplerInfo {
    /// The given filter, the given wrapping along every axis, and otherwise
    /// nothing special: no bias, the full range of levels, no comparison, a
    /// black transparent border.
    pub open spec fn spec_new(filter: FilterMethod, wrap: WrapMode) -> SamplerInfo {
        SamplerInfo {
            filter,
            wrap_mode: (wrap, wrap, wrap),
            lod_bias: 0,
            lod_range: (-8000i16, 8000i16),
            comparison: None,
            border: 0,
        }
    }

    /// A sampler description from a filter and a wrapping alone.
    #[verifier::when_used_as_spec(spec_new)]
    pub fn new(filter: FilterMethod, wrap: WrapMode) -> (info: SamplerInfo)
        ensures
            info == SamplerInfo::spec_new(filter, wrap),
    {
        SamplerInfo {
            filter,
            wrap_mode: (wrap, wrap, wrap),
            lod_bias: 0,
            lod_range: (-8000i16, 8000i16),
            comparison: None,
            border: 0,
        }
    }
}

/// A sampled image: the view that shows it and the sampler that reads it.
///
/// The two travel together. A draw binds both from one `Texture`; nothing
/// pairs the view of one with the sampler of another.
#[derive(Clone, Copy, PartialEq, Eq, Debug)]
pub struct Texture {
    pub sampler: Sampler,
    pub buffer: ShaderResourceView,
}

/// What [`Texture::uniform_value`] asks a factory for, where `base`
/// descriptions came before: storage for a single texel that holds `val`,
/// a view of it, and a sampler that takes the nearest texel and tiles.
pub open spec fn uniform_texture_requests(base: int, val: [u32; 3]) -> Seq<Resource> {
    seq![
        Resource::Texture {
            info: Info {
                kind: Kind::D2(1, 1, AaMode::Single),
                levels: 1,
                format: SurfaceType::R32G32B32,
                bind: Bind { shader_resource: true, ..Bind::spec_empty() },
                usage: Usage::Data,
            },
            channel: Some(ChannelType::Float),
            fill: Some(val),
        },
        Resource::ShaderResource {
            texture: RawTexture { id: base as usize },
            sampled: ResourceDesc {
                channel: ChannelType::Float,
                layer: None,
                min: 0,
                max: 0,
                swizzle: Swizzle::spec_new(),
            },
        },
        Resource::Sampler(SamplerInfo::spec_new(FilterMethod::Scale, WrapMode::Tile)),
    ]
}

impl Texture {
    /// The view and the sampler, in the order in which a pipeline's texture
    /// slot takes them.
    pub fn into_tuple(self) -> (pair: (ShaderResourceView, Sampler))
        ensures
            pair == (self.buffer, self.sampler),
    {
        (self.buffer, self.sampler)
    }

    /// Asks for a texture of a single texel that holds `val`: three floats,
    /// given as their bit patterns.
    ///
    /// Sampled anywhere, such a texture gives `val`, and the factory answers
    /// with `val` when it is asked what fills the texture behind the view.
    pub fn uniform_value(f: &mut Factory, val: [u32; 3]) -> (texture: Texture)
        ensures
            final(f)@ == old(f)@ + uniform_texture_requests(old(f)@.len() as int, val),
            final(f).spec_realized() == old(f).spec_realized(),
            texture.buffer.id == old(f)@.len() + 1,
            texture.sampler.id == old(f)@.len() + 2,
            final(f).spec_uniform_value(texture.buffer) == Some(val),
    {
        let ghost before = f@;
        let (_, buffer) = f.create_texture_uniform(Kind::D2(1, 1, AaMode::Single), Format::lum_map(), val);
        let sampler = f.create_sampler(SamplerInfo::new(FilterMethod::Scale, WrapMode::Tile));
        assert(f@ =~= before + uniform_texture_requests(before.len() as int, val));
        Texture { sampler, buffer }
    }
}

} // verus!
