//! The physically based style: materials, the environment that lights them,
//! and the bookkeeping that keeps the shared uniform buffers up to date.

use vstd::prelude::*;
use crate::block::TransformBlock;
use crate::cube::{box_mesh, box_requests, upload};
use crate::draw::bg;
use crate::draw::pl;
use crate::draw::{DrawParams, EyeParams, Painter};
use crate::encoder::{Command, Encoder};
use crate::error::Error;
use crate::factory::{Block, Factory, Program, Resource};
use crate::format::{ChannelType, Format, SurfaceType, Swizzle};
use crate::handle::{
    Buffer, DepthRef, DepthStencilView, Layout, PipelineState, RawTexture, Sampler,
    ShaderResourceView, ShaderSet, TargetRef,
};
use crate::linear::{homogeneous_matrix, to_homogeneous, Matrix3, Matrix4, Vector3, Vector4};
use crate::mesh::{Mesh, Slice};
use crate::scalar::{NEG_ONE, ONE, TWO, ZERO};
use crate::state::{Comparison, Primitive, Rasterizer, Rect};
use crate::texture::{
    uniform_texture_requests, AaMode, Bind, DepthStencilDesc, DepthStencilFlags, FilterMethod,
    Info, Kind, ResourceDesc, SamplerInfo, Texture, Usage, WrapMode,
};

verus! {

/// The textures of a mesh's surface.
#[derive(Clone, Copy, PartialEq, Eq, Debug)]
pub struct UberMaterial {
    /// The normal map.
    pub normal: Texture,
    /// The base colour.
    pub albedo: Texture,
    /// Metalness (1 metal, 0 dielectric), roughness, and flatness (0 lit,
    /// 1 flat colour), one per channel.
    pub knobs: Texture,
}

/// The light of the scene.
#[derive(Clone, Copy, PartialEq, Eq, Debug)]
pub struct UberEnv {
    /// The diffuse light from every direction.
    pub irradiance: Texture,
    /// The reflected light from every direction, blurrier with every mip
    /// level. It is also what the sky shows.
    pub radiance: Texture,
    /// Whether the radiance map already shows the sun.
    pub sun_included: bool,
    /// The colour of the sun, with its intensity in the fourth place.
    pub sun_color: Vector4,
    /// The rotation that turns the forward axis into the direction of the
    /// sun's light.
    pub sun_rotation: Matrix3,
    /// The number of mip levels of the radiance map.
    pub radiance_levels: u8,
}

/// Sun, exposure and gamma, as the fragment stage reads them.
#[derive(Clone, Copy, PartialEq, Eq, Debug)]
pub struct ParamsBlock {
    /// The sun's rotation in homogeneous form.
    pub sun_matrix: Matrix4,
    /// The colour of the sun, with its intensity in the fourth place.
    pub sun_color: Vector4,
    /// `1.0` where the radiance map already shows the sun, else `0.0`.
    pub sun_in_env: u32,
    /// The number of mip levels of the radiance map.
    pub radiance_levels: i32,
    /// The gamma of the display.
    pub gamma: u32,
    /// The factor on all light before tone mapping.
    pub exposure: u32,
}

/// The default exposure, `1.0`.
pub const DEFAULT_EXPOSURE: u32 = 0x3F80_0000;

/// The default gamma, `2.2`.
pub const DEFAULT_GAMMA: u32 = 0x400C_CCCD;

impl ParamsBlock {
    /// The params block of an environment under an exposure and a gamma.
    /// Every field is made anew; nothing of an earlier block enters.
    pub open spec fn derived(env: UberEnv, exposure: u32, gamma: u32) -> ParamsBlock {
        ParamsBlock {
            sun_matrix: homogeneous_matrix(env.sun_rotation),
            sun_color: env.sun_color,
            sun_in_env: if env.sun_included { ONE } else { ZERO },
            radiance_levels: env.radiance_levels as i32,
            gamma,
            exposure,
        }
    }

    /// Derives the params block of an environment under an exposure and a
    /// gamma.
    pub fn derive(env: &UberEnv, exposure: u32, gamma: u32) -> (params: ParamsBlock)
        ensures
            params == ParamsBlock::derived(*env, exposure, gamma),
    {
        ParamsBlock {
            sun_matrix: to_homogeneous(&env.sun_rotation),
            sun_color: env.sun_color,
            sun_in_env: if env.sun_included { ONE } else { ZERO },
            radiance_levels: env.radiance_levels as i32,
            gamma,
            exposure,
        }
    }
}

/// The sky: its pipeline and the box it is drawn on.
pub struct UberBackground {
    pso: PipelineState,
    mesh: Mesh,
}

impl UberBackground {
    /// The pipeline is one of the sky's family, and the slice runs through
    /// the thirty-six indices of a box.
    #[verifier::type_invariant]
    spec fn well_formed(self) -> bool {
        &&& self.pso.layout == Layout::Background
        &&& self.mesh.slice.start == 0
        &&& self.mesh.slice.end == 36
    }

    /// The pipeline that the sky is drawn with.
    pub closed spec fn spec_pso(&self) -> PipelineState {
        self.pso
    }

    /// The box that the sky is drawn on.
    pub closed spec fn spec_mesh(&self) -> Mesh {
        self.mesh
    }

    /// Puts a pipeline of the sky's family together with a box.
    fn new(pso: PipelineState, mesh: Mesh) -> (background: UberBackground)
        requires
            pso.layout == Layout::Background,
            mesh.slice.start == 0,
            mesh.slice.end == 36,
        ensures
            background.spec_pso() == pso,
            background.spec_mesh() == mesh,
    {
        UberBackground { pso, mesh }
    }

    /// The pipeline that the sky is drawn with. It is of the sky's family, so
    /// its depth test lets everything pass and writes nothing.
    #[verifier::when_used_as_spec(spec_pso)]
    pub fn pso(&self) -> (pso: PipelineState)
        ensures
            pso == self.spec_pso(),
            pso.layout == Layout::Background,
    {
        proof {
            use_type_invariant(self);
        }
        self.pso
    }

    /// The box that the sky is drawn on, with the slice that runs through
    /// all of its thirty-six indices.
    #[verifier::when_used_as_spec(spec_mesh)]
    pub fn mesh(&self) -> (mesh: Mesh)
        ensures
            mesh == self.spec_mesh(),
            mesh.slice.start == 0,
            mesh.slice.end == 36,
    {
        proof {
            use_type_invariant(self);
        }
        self.mesh
    }
}

/// What all draws of the style share: the environment, exposure and gamma,
/// the pending transform, and the device's resources behind them.
///
/// The transform block and the params block each live in one buffer on the
/// device, which every draw reads. These inputs keep track of what has to be
/// written there before the next draw: a transform that was set and not yet
/// written, and whether anything that the params block is derived from has
/// changed since the block was last written.
pub struct UberInputs {
    shaders: ShaderSet,
    background: UberBackground,
    transform: Option<TransformBlock>,
    transform_block: Buffer,
    transform_uploaded: bool,
    env: UberEnv,
    exposure: u32,
    gamma: u32,
    params_update: bool,
    params_block: Buffer,
    integrated_brdf: Texture,
    shadow_depth: Texture,
}

/// The inputs as a plain record.
pub ghost struct UberInputsView {
    /// The shaders of the style's program.
    pub shaders: ShaderSet,
    /// The pipeline that the sky is drawn with.
    pub background_pso: PipelineState,
    /// The box that the sky is drawn on.
    pub background_mesh: Mesh,
    /// The transform that was set and not yet written to the device. There
    /// is at most one.
    pub transform: Option<TransformBlock>,
    /// The buffer of the transform block.
    pub transform_block: Buffer,
    /// Whether the buffer of the transform block was ever written.
    pub transform_uploaded: bool,
    /// The light of the scene.
    pub env: UberEnv,
    /// The factor on all light before tone mapping.
    pub exposure: u32,
    /// The gamma of the display.
    pub gamma: u32,
    /// Whether the params block on the device is out of date.
    pub params_update: bool,
    /// The buffer of the params block.
    pub params_block: Buffer,
    /// The lookup table of the integrated BRDF.
    pub integrated_brdf: Texture,
    /// The shadow map.
    pub shadow_depth: Texture,
}

impl View for UberInputs {
    type V = UberInputsView;

    closed spec fn view(&self) -> UberInputsView {
        UberInputsView {
            shaders: self.shaders,
            background_pso: self.background.spec_pso(),
            background_mesh: self.background.spec_mesh(),
            transform: self.transform,
            transform_block: self.transform_block,
            transform_uploaded: self.transform_uploaded,
            env: self.env,
            exposure: self.exposure,
            gamma: self.gamma,
            params_update: self.params_update,
            params_block: self.params_block,
            integrated_brdf: self.integrated_brdf,
            shadow_depth: self.shadow_depth,
        }
    }
}

impl UberInputsView {
    /// The inputs after a transform was set: it is the pending one, whatever
    /// was pending before.
    pub open spec fn with_transform(self, block: TransformBlock) -> UberInputsView {
        UberInputsView { transform: Some(block), ..self }
    }

    /// The inputs after the environment was replaced.
    pub open spec fn with_env(self, env: UberEnv) -> UberInputsView {
        UberInputsView { env, params_update: true, ..self }
    }

    /// The inputs after the exposure was set.
    pub open spec fn with_exposure(self, exposure: u32) -> UberInputsView {
        UberInputsView { exposure, params_update: true, ..self }
    }

    /// The inputs after the gamma was set.
    pub open spec fn with_gamma(self, gamma: u32) -> UberInputsView {
        UberInputsView { gamma, params_update: true, ..self }
    }

    /// The params block that belongs to these inputs.
    pub open spec fn params(self) -> ParamsBlock {
        ParamsBlock::derived(self.env, self.exposure, self.gamma)
    }

    /// A mesh can be drawn: the transform buffer holds a transform, or will
    /// hold one once the pending transform is written.
    pub open spec fn ready(self) -> bool {
        self.transform is Some || self.transform_uploaded
    }

    /// The write of the pending transform, if there is one.
    pub open spec fn transform_flush(self) -> Seq<Command> {
        match self.transform {
            Some(block) => seq![Command::UpdateTransform { buffer: self.transform_block, block }],
            None => Seq::empty(),
        }
    }

    /// The write of the params block, if the one on the device is out of
    /// date.
    pub open spec fn params_flush(self) -> Seq<Command> {
        if self.params_update {
            seq![Command::UpdateParams { buffer: self.params_block, params: self.params() }]
        } else {
            Seq::empty()
        }
    }

    /// The inputs after a draw of a mesh: nothing is pending any more.
    pub open spec fn flushed(self) -> UberInputsView {
        UberInputsView {
            transform: None,
            transform_uploaded: self.ready(),
            params_update: false,
            ..self
        }
    }

    /// What the draw of a mesh binds.
    pub open spec fn mesh_data(
        self,
        color: TargetRef,
        depth: DepthRef,
        scissor: Rect,
        buf: Buffer,
        mat: UberMaterial,
    ) -> pl::Data {
        pl::Data {
            verts: buf,
            transform: self.transform_block,
            params: self.params_block,
            scissor,
            color,
            depth,
            normal: (mat.normal.buffer, mat.normal.sampler),
            albedo: (mat.albedo.buffer, mat.albedo.sampler),
            knobs: (mat.knobs.buffer, mat.knobs.sampler),
            irradiance: (self.env.irradiance.buffer, self.env.irradiance.sampler),
            radiance: (self.env.radiance.buffer, self.env.radiance.sampler),
            integrated_brdf: (self.integrated_brdf.buffer, self.integrated_brdf.sampler),
            shadow_depth: (self.shadow_depth.buffer, self.shadow_depth.sampler),
        }
    }

    /// What the draw of a mesh records: the transform if one is pending,
    /// then the params if they are out of date, then the draw itself.
    pub open spec fn mesh_draw(
        self,
        pso: PipelineState,
        color: TargetRef,
        depth: DepthRef,
        scissor: Rect,
        slice: Slice,
        buf: Buffer,
        mat: UberMaterial,
    ) -> Seq<Command> {
        self.transform_flush() + self.params_flush() + seq![
            Command::Draw { slice, pso, mesh: self.mesh_data(color, depth, scissor, buf, mat) },
        ]
    }

    /// What the draw of the sky binds for one eye.
    pub open spec fn sky_data(self, eye: EyeParams, color: TargetRef, depth: DepthRef) -> bg::Data {
        bg::Data {
            verts: self.background_mesh.buf,
            transform: self.transform_block,
            params: self.params_block,
            scissor: eye.clip,
            color,
            depth,
            radiance: (self.env.radiance.buffer, self.env.radiance.sampler),
        }
    }

    /// What the draw of the sky records for one eye: the eye's transform,
    /// then the draw of the box, confined to the eye's rectangle.
    pub open spec fn sky_eye(self, eye: EyeParams, color: TargetRef, depth: DepthRef) -> Seq<
        Command,
    > {
        seq![
            Command::UpdateTransform { buffer: self.transform_block, block: eye.spec_transform() },
            Command::DrawBackground {
                slice: self.background_mesh.slice,
                pso: self.background_pso,
                sky: self.sky_data(eye, color, depth),
            },
        ]
    }

    /// What the draw of the sky records: the params, whether out of date or
    /// not, then the left eye, then the right eye.
    pub open spec fn sky_pass(
        self,
        left: EyeParams,
        right: EyeParams,
        color: TargetRef,
        depth: DepthRef,
    ) -> Seq<Command> {
        seq![Command::UpdateParams { buffer: self.params_block, params: self.params() }]
            + self.sky_eye(left, color, depth) + self.sky_eye(right, color, depth)
    }

    /// The inputs after a draw of the sky: the params on the device are up to
    /// date, and the transform buffer holds the right eye's transform. A
    /// transform that was pending still is.
    pub open spec fn after_sky(self) -> UberInputsView {
        UberInputsView { transform_uploaded: true, params_update: false, ..self }
    }
}

impl UberInputs {
    /// Replaces the environment. The params block is out of date from then
    /// on.
    pub fn set_env(&mut self, env: UberEnv)
        ensures
            final(self)@ == old(self)@.with_env(env),
    {
        self.env = env;
        self.params_update = true;
    }

    /// Lends the environment for changes. The params block counts as out of
    /// date from then on, whether anything is changed or not.
    pub fn mut_env(&mut self) -> (env: &mut UberEnv)
        ensures
            *env == old(self)@.env,
            final(self)@ == old(self)@.with_env(*final(env)),
    {
        self.params_update = true;
        &mut self.env
    }

    /// Sets the exposure. The params block is out of date from then on.
    pub fn set_exposure(&mut self, exposure: u32)
        ensures
            final(self)@ == old(self)@.with_exposure(exposure),
    {
        self.exposure = exposure;
        self.params_update = true;
    }

    /// Sets the gamma. The params block is out of date from then on.
    pub fn set_gamma(&mut self, gamma: u32)
        ensures
            final(self)@ == old(self)@.with_gamma(gamma),
    {
        self.gamma = gamma;
        self.params_update = true;
    }

    /// Sets the transform of the next draw. It is kept until a draw writes it
    /// to the device; a transform that was set before and not yet written is
    /// dropped.
    pub fn transform(&mut self, block: TransformBlock)
        ensures
            final(self)@ == old(self)@.with_transform(block),
    {
        self.transform = Some(block);
    }

    /// The shaders of the style's program.
    pub fn shader_set(&self) -> (shaders: &ShaderSet)
        ensures
            *shaders == self@.shaders,
    {
        &self.shaders
    }

    /// The light of the scene.
    pub fn env(&self) -> (env: &UberEnv)
        ensures
            *env == self@.env,
    {
        &self.env
    }

    /// The exposure.
    pub fn exposure(&self) -> (exposure: u32)
        ensures
            exposure == self@.exposure,
    {
        self.exposure
    }

    /// The gamma.
    pub fn gamma(&self) -> (gamma: u32)
        ensures
            gamma == self@.gamma,
    {
        self.gamma
    }

    /// The transform that was set and not yet written to the device.
    pub fn pending_transform(&self) -> (pending: Option<TransformBlock>)
        ensures
            pending == self@.transform,
    {
        self.transform
    }

    /// Whether the next draw writes the params block.
    pub fn params_pending(&self) -> (pending: bool)
        ensures
            pending == self@.params_update,
    {
        self.params_update
    }

    /// Whether a mesh can be drawn: whether a transform is pending or the
    /// device already holds one.
    pub fn transform_ready(&self) -> (ready: bool)
        ensures
            ready == self@.ready(),
    {
        self.transform.is_some() || self.transform_uploaded
    }

    /// The sky's pipeline and box.
    pub fn background(&self) -> (background: &UberBackground)
        ensures
            background.spec_pso() == self@.background_pso,
            background.spec_mesh() == self@.background_mesh,
    {
        &self.background
    }

    /// The buffer of the transform block.
    pub fn transform_block(&self) -> (buffer: Buffer)
        ensures
            buffer == self@.transform_block,
    {
        self.transform_block
    }

    /// The buffer of the params block.
    pub fn params_block(&self) -> (buffer: Buffer)
        ensures
            buffer == self@.params_block,
    {
        self.params_block
    }

    /// The lookup table of the integrated BRDF.
    pub fn integrated_brdf(&self) -> (texture: Texture)
        ensures
            texture == self@.integrated_brdf,
    {
        self.integrated_brdf
    }

    /// The shadow map.
    pub fn shadow_depth(&self) -> (texture: Texture)
        ensures
            texture == self@.shadow_depth,
    {
        self.shadow_depth
    }
}

/// The style that draws meshes with the physically based pipeline.
pub struct UberStyle {
    pso: PipelineState,
}

/// The colour of a clear sky, as the bit patterns of `0.529`, `0.808` and
/// `0.980`.
pub open spec fn spec_sky_blue() -> [u32; 3] {
    [0x3F07_6C8B, 0x3F4E_D917, 0x3F7A_E148]
}

/// The colour that both maps of the default environment are filled with.
#[verifier::when_used_as_spec(spec_sky_blue)]
pub fn sky_blue() -> (color: [u32; 3])
    ensures
        color == spec_sky_blue(),
{
    [0x3F07_6C8B, 0x3F4E_D917, 0x3F7A_E148]
}

/// The forward axis `(0, 0, -1)` and the axis straight down `(0, -1, 0)`.
pub open spec fn spec_sun_axes() -> (Vector3, Vector3) {
    ([ZERO, ZERO, NEG_ONE], [ZERO, NEG_ONE, ZERO])
}

/// The two axes between which the default sun turns: it shines where the
/// rotation takes the first, and that is to be the second. The rotation
/// itself is floating-point work, done by whoever calls [`UberStyle::init`].
#[verifier::when_used_as_spec(spec_sun_axes)]
pub fn sun_axes() -> (axes: (Vector3, Vector3))
    ensures
        axes == spec_sun_axes(),
{
    ([ZERO, ZERO, NEG_ONE], [ZERO, NEG_ONE, ZERO])
}

/// What [`shadow_texture`] asks a factory for, where `base` descriptions came
/// before: 512 by 512 single-sampled texels of float depth that can be both
/// sampled and drawn to, a view for sampling, a sampler that compares, and a
/// view for drawing.
pub open spec fn shadow_requests(base: int) -> Seq<Resource> {
    seq![
        Resource::Texture {
            info: Info {
                kind: Kind::D2(512, 512, AaMode::Single),
                levels: 1,
                format: SurfaceType::D32,
                bind: Bind { shader_resource: true, depth_stencil: true, ..Bind::spec_empty() },
                usage: Usage::Data,
            },
            channel: Some(ChannelType::Float),
            fill: None,
        },
        Resource::ShaderResource {
            texture: RawTexture { id: base as usize },
            sampled: ResourceDesc {
                channel: ChannelType::Float,
                layer: None,
                min: 0,
                max: 0,
                swizzle: Swizzle::spec_new(),
            },
        },
        Resource::Sampler(
            SamplerInfo {
                comparison: Some(Comparison::LessEqual),
                ..SamplerInfo::spec_new(FilterMethod::Bilinear, WrapMode::Clamp)
            },
        ),
        Resource::DepthStencil {
            texture: RawTexture { id: base as usize },
            target: DepthStencilDesc {
                level: 0,
                layer: None,
                flags: DepthStencilFlags::spec_empty(),
            },
        },
    ]
}

/// Asks for the shadow map: the target that the shadow pass draws depth to,
/// and the texture through which meshes test against it.
///
/// Both views are of one texture that is made for both uses, so the factory
/// refuses neither.
pub fn shadow_texture(f: &mut Factory) -> (made: (DepthStencilView, Texture))
    ensures
        final(f)@ == old(f)@ + shadow_requests(old(f)@.len() as int),
        final(f).spec_realized() == old(f).spec_realized(),
        made.0.id == old(f)@.len() + 3,
        made.1.buffer.id == old(f)@.len() + 1,
        made.1.sampler.id == old(f)@.len() + 2,
{
    let ghost before = f@;
    let mut bind = Bind::empty();
    bind.shader_resource = true;
    bind.depth_stencil = true;
    let shadow_tex = f.create_texture(
        Kind::D2(512, 512, AaMode::Single),
        1,
        Format::shadow_depth(),
        bind,
        Usage::Data,
    );
    let resource = f.view_texture_as_shader_resource(
        shadow_tex,
        ChannelType::Float,
        (0, 0),
        Swizzle::new(),
    ).unwrap();
    let mut sampler_info = SamplerInfo::new(FilterMethod::Bilinear, WrapMode::Clamp);
    sampler_info.comparison = Some(Comparison::LessEqual);
    let sampler = f.create_sampler(sampler_info);
    assert(f.spec_texture_info(shadow_tex) matches Some(info) && info.bind.depth_stencil);
    let shadow_depth_target = f.view_texture_as_depth_stencil(
        shadow_tex,
        0,
        None,
        DepthStencilFlags::empty(),
    ).unwrap();
    assert(f@ =~= before + shadow_requests(before.len() as int));
    (shadow_depth_target, Texture { buffer: resource, sampler })
}

/// What [`UberStyle::init`] asks a factory for, where `base` descriptions
/// came before.
pub open spec fn init_requests(base: int) -> Seq<Resource> {
    shadow_requests(base) + seq![
        Resource::Shaders(Program::Background),
        Resource::Shaders(Program::Uber),
        Resource::Pipeline {
            shaders: ShaderSet { id: (base + 4) as usize },
            primitive: Primitive::TriangleList,
            rasterizer: Rasterizer::spec_new_fill(),
            layout: Layout::Background,
        },
    ] + box_requests() + seq![
        Resource::ConstantBuffer { block: Block::Transform, len: 1 },
        Resource::ConstantBuffer { block: Block::Params, len: 1 },
        Resource::IntegratedBrdf,
    ] + uniform_texture_requests(base + 12, spec_sky_blue()) + uniform_texture_requests(
        base + 15,
        spec_sky_blue(),
    )
}

/// The environment that the inputs start with: both maps a single texel of
/// sky blue, a white sun of intensity 2 that the maps do not show, and one
/// level of radiance.
pub open spec fn default_env(base: int, sun_rotation: Matrix3) -> UberEnv {
    UberEnv {
        irradiance: Texture {
            sampler: Sampler { id: (base + 17) as usize },
            buffer: ShaderResourceView { id: (base + 16) as usize },
        },
        radiance: Texture {
            sampler: Sampler { id: (base + 14) as usize },
            buffer: ShaderResourceView { id: (base + 13) as usize },
        },
        sun_included: false,
        sun_color: [ONE, ONE, ONE, TWO],
        sun_rotation,
        radiance_levels: 1,
    }
}

/// The inputs that [`UberStyle::init`] returns, where `base` descriptions
/// came before: the default environment, exposure 1 and gamma 2.2, no
/// transform pending or written, and the params block out of date, so that
/// the first draw writes it.
pub open spec fn initial_inputs(base: int, sun_rotation: Matrix3) -> UberInputsView {
    UberInputsView {
        shaders: ShaderSet { id: (base + 5) as usize },
        background_pso: PipelineState { id: (base + 6) as usize, layout: Layout::Background },
        background_mesh: box_mesh(base + 7),
        transform: None,
        transform_block: Buffer { id: (base + 9) as usize },
        transform_uploaded: false,
        env: default_env(base, sun_rotation),
        exposure: DEFAULT_EXPOSURE,
        gamma: DEFAULT_GAMMA,
        params_update: true,
        params_block: Buffer { id: (base + 10) as usize },
        integrated_brdf: Texture {
            sampler: Sampler { id: (base + 11) as usize },
            buffer: ShaderResourceView { id: (base + 11) as usize },
        },
        shadow_depth: Texture {
            sampler: Sampler { id: (base + 2) as usize },
            buffer: ShaderResourceView { id: (base + 1) as usize },
        },
    }
}

impl UberStyle {
    /// The pipeline is one of the family of meshes.
    #[verifier::type_invariant]
    spec fn well_formed(self) -> bool {
        self.pso.layout == Layout::Foreground
    }

    /// The pipeline that meshes are drawn with.
    pub closed spec fn spec_pso(&self) -> PipelineState {
        self.pso
    }

    /// The pipeline that meshes are drawn with. It is of the family of
    /// meshes, so its depth test hides what lies behind.
    #[verifier::when_used_as_spec(spec_pso)]
    pub fn pso(&self) -> (pso: PipelineState)
        ensures
            pso == self.spec_pso(),
            pso.layout == Layout::Foreground,
    {
        proof {
            use_type_invariant(self);
        }
        self.pso
    }

    /// Makes the style: asks for its pipeline, from the shaders of the
    /// inputs and the caller's choice of primitive and rasterizer.
    pub fn new(f: &mut Factory, i: &mut UberInputs, p: Primitive, r: Rasterizer) -> (style:
        UberStyle)
        ensures
            final(f)@ == old(f)@.push(
                Resource::Pipeline {
                    shaders: old(i)@.shaders,
                    primitive: p,
                    rasterizer: r,
                    layout: Layout::Foreground,
                },
            ),
            final(f).spec_realized() == old(f).spec_realized(),
            style.spec_pso() == (PipelineState {
                id: old(f)@.len() as usize,
                layout: Layout::Foreground,
            }),
            final(i)@ == old(i)@,
    {
        UberStyle { pso: f.create_pipeline_state(i.shaders, p, r, Layout::Foreground) }
    }

    /// Makes the inputs, with everything on the device that they need.
    ///
    /// `sun_rotation` is the rotation that takes the first of the
    /// [`sun_axes`] onto the second, or `None` where there is none. Without
    /// a rotation there are no inputs, and the factory is asked for nothing.
    pub fn init(f: &mut Factory, sun_rotation: Option<Matrix3>) -> (r: Result<UberInputs, Error>)
        ensures
            sun_rotation is None ==> r is Err && r->Err_0 == Error::UnsupportedRotation
                && final(f)@ == old(f)@,
            sun_rotation matches Some(rotation) ==> r is Ok && r->Ok_0@ == initial_inputs(
                old(f)@.len() as int,
                rotation,
            ) && final(f)@ == old(f)@ + init_requests(old(f)@.len() as int),
            final(f).spec_realized() == old(f).spec_realized(),
    {
        let sun_rotation = match sun_rotation {
            Some(rotation) => rotation,
            None => {
                return Err(Error::UnsupportedRotation);
            },
        };
        let ghost before = f@;
        let ghost base = before.len() as int;
        let bg_color = sky_blue();
        let (_, shadow_depth) = shadow_texture(f);
        let bg_shaders = f.create_shader_set(Program::Background);
        let shaders = f.create_shader_set(Program::Uber);
        let bg_pso = f.create_pipeline_state(
            bg_shaders,
            Primitive::TriangleList,
            Rasterizer::new_fill(),
            Layout::Background,
        );
        let mesh = upload(f);
        let transform_block = f.create_constant_buffer(Block::Transform, 1);
        let params_block = f.create_constant_buffer(Block::Params, 1);
        let brdf = f.create(Resource::IntegratedBrdf);
        let radiance = Texture::uniform_value(f, bg_color);
        let irradiance = Texture::uniform_value(f, bg_color);
        assert(f@ =~= before + init_requests(base));
        let inputs = UberInputs {
            shaders,
            background: UberBackground::new(bg_pso, mesh),
            transform: None,
            transform_block,
            transform_uploaded: false,
            params_update: true,
            params_block,
            gamma: DEFAULT_GAMMA,
            exposure: DEFAULT_EXPOSURE,
            integrated_brdf: Texture {
                sampler: Sampler { id: brdf },
                buffer: ShaderResourceView { id: brdf },
            },
            env: UberEnv {
                radiance,
                irradiance,
                sun_color: [ONE, ONE, ONE, TWO],
                sun_rotation,
                sun_included: false,
                radiance_levels: 1,
            },
            shadow_depth,
        };
        assert(inputs@ == initial_inputs(base, sun_rotation));
        Ok(inputs)
    }

    /// Draws a slice of a mesh with a material.
    ///
    /// What is pending is written first, the transform before the params,
    /// and then the draw is recorded: one command, behind the writes it
    /// depends on. Nothing is pending afterwards.
    ///
    /// A transform has to be set before the first mesh is drawn.
    pub fn draw_raw(
        &self,
        inputs: &mut UberInputs,
        enc: &mut Encoder,
        color: TargetRef,
        depth: DepthRef,
        scissor: Rect,
        slice: &Slice,
        buf: Buffer,
        mat: &UberMaterial,
    ) -> (r: Result<(), Error>)
        requires
            old(inputs)@.ready(),
        ensures
            r is Ok,
            final(enc)@ == old(enc)@ + old(inputs)@.mesh_draw(
                self.spec_pso(),
                color,
                depth,
                scissor,
                *slice,
                buf,
                *mat,
            ),
            final(inputs)@ == old(inputs)@.flushed(),
            self.spec_pso().layout == Layout::Foreground,
    {
        let ghost before = enc@;
        let ghost start = inputs@;
        let pso = self.pso();
        if let Some(t) = inputs.transform.take() {
            enc.update_transform(&inputs.transform_block, &t);
            inputs.transform_uploaded = true;
        }
        if inputs.params_update {
            let params = ParamsBlock::derive(&inputs.env, inputs.exposure, inputs.gamma);
            enc.update_params(&inputs.params_block, &params);
            inputs.params_update = false;
        }
        enc.draw(
            slice,
            &pso,
            &pl::Data {
                color,
                depth,
                verts: buf,
                scissor,
                transform: inputs.transform_block,
                params: inputs.params_block,
                normal: mat.normal.into_tuple(),
                albedo: mat.albedo.into_tuple(),
                knobs: mat.knobs.into_tuple(),
                integrated_brdf: inputs.integrated_brdf.into_tuple(),
                irradiance: inputs.env.irradiance.into_tuple(),
                radiance: inputs.env.radiance.into_tuple(),
                shadow_depth: inputs.shadow_depth.into_tuple(),
            },
        );
        assert(enc@ =~= before + start.mesh_draw(pso, color, depth, scissor, *slice, buf, *mat));
        Ok(())
    }
}

/// Records the sky for one eye: the eye's transform, then the draw of the
/// box.
fn draw_sky_eye(
    inputs: &UberInputs,
    encoder: &mut Encoder,
    eye: &EyeParams,
    color: TargetRef,
    depth: DepthRef,
)
    ensures
        final(encoder)@ == old(encoder)@ + inputs@.sky_eye(*eye, color, depth),
        inputs@.background_pso.layout == Layout::Background,
        inputs@.background_mesh.slice.start == 0,
        inputs@.background_mesh.slice.end == 36,
{
    let ghost before = encoder@;
    let trans = eye.transform();
    encoder.update_transform(&inputs.transform_block, &trans);
    let mesh = inputs.background.mesh();
    encoder.draw_background(
        &mesh.slice,
        &inputs.background.pso(),
        &bg::Data {
            color,
            depth,
            verts: mesh.buf,
            scissor: eye.clip,
            transform: inputs.transform_block,
            params: inputs.params_block,
            radiance: inputs.env.radiance.into_tuple(),
        },
    );
    assert(encoder@ =~= before + inputs@.sky_eye(*eye, color, depth));
}

impl Painter {
    /// Draws the sky behind everything, once for each eye.
    ///
    /// The params block is written first, whether it is out of date or not:
    /// what is changed in the environment shows in the sky even in a frame
    /// without any mesh. Then the left eye is drawn, then the right eye,
    /// each confined to its own rectangle and with a depth test that lets
    /// everything pass and writes nothing.
    pub fn clear_env(&mut self, ctx: &mut DrawParams)
        ensures
            final(ctx).encoder@ == old(ctx).encoder@ + old(self).inputs@.sky_pass(
                old(ctx).left,
                old(ctx).right,
                old(ctx).color,
                old(ctx).depth,
            ),
            final(ctx).left == old(ctx).left,
            final(ctx).right == old(ctx).right,
            final(ctx).color == old(ctx).color,
            final(ctx).depth == old(ctx).depth,
            final(self).inputs@ == old(self).inputs@.after_sky(),
            final(self).style == old(self).style,
            old(self).inputs@.background_pso.layout == Layout::Background,
            old(self).inputs@.background_mesh.slice.start == 0,
            old(self).inputs@.background_mesh.slice.end == 36,
    {
        let ghost before = ctx.encoder@;
        let ghost start = self.inputs@;
        let params = ParamsBlock::derive(&self.inputs.env, self.inputs.exposure, self.inputs.gamma);
        ctx.encoder.update_params(&self.inputs.params_block, &params);
        self.inputs.params_update = false;
        self.inputs.transform_uploaded = true;
        let left = ctx.left;
        let right = ctx.right;
        draw_sky_eye(&self.inputs, &mut ctx.encoder, &left, ctx.color, ctx.depth);
        draw_sky_eye(&self.inputs, &mut ctx.encoder, &right, ctx.color, ctx.depth);
        assert(ctx.encoder@ =~= before + start.sky_pass(left, right, ctx.color, ctx.depth));
    }
}

} // verus!
