use stereo_pbr::draw::uber::{shadow_texture, sky_blue, sun_axes, UberStyle};
use stereo_pbr::factory::{Block, Factory, Program, Resource};
use stereo_pbr::format::{ChannelType, Format, SurfaceType, Swizzle};
use stereo_pbr::handle::{Layout, RawTexture, Sampler, ShaderResourceView};
use stereo_pbr::state::{Comparison, Primitive, Rasterizer};
use stereo_pbr::texture::{
    AaMode, Bind, DepthStencilFlags, FilterMethod, Kind, SamplerInfo, Texture, Usage, WrapMode,
};
use stereo_pbr::{Error, Light};

fn bits(x: f32) -> u32 {
    x.to_bits()
}

fn rotation() -> [[u32; 3]; 3] {
    [
        [bits(1.0), bits(0.0), bits(0.0)],
        [bits(0.0), bits(0.0), bits(-1.0)],
        [bits(0.0), bits(1.0), bits(0.0)],
    ]
}

#[test]
fn uniform_value_round_trips() {
    let mut f = Factory::new();
    let val = [bits(0.25), bits(-3.5), bits(1.0e-20)];
    let t = Texture::uniform_value(&mut f, val);
    assert_eq!(f.sampled_value(t.buffer), Some(val));
    assert_eq!(f.len(), 3);
    match f.get(0) {
        Some(Resource::Texture { info, channel, fill }) => {
            assert_eq!(info.kind, Kind::D2(1, 1, AaMode::Single));
            assert_eq!(info.levels, 1);
            assert_eq!(info.format, SurfaceType::R32G32B32);
            assert!(info.bind.shader_resource);
            assert_eq!(info.usage, Usage::Data);
            assert_eq!(channel, Some(ChannelType::Float));
            assert_eq!(fill, Some(val));
        }
        other => panic!("expected a texture, found {:?}", other),
    }
    match f.get(t.buffer.id) {
        Some(Resource::ShaderResource { texture, sampled }) => {
            assert_eq!(texture, RawTexture { id: 0 });
            assert_eq!((sampled.min, sampled.max), (0, 0));
            assert_eq!(sampled.swizzle, Swizzle::new());
        }
        other => panic!("expected a view, found {:?}", other),
    }
    assert_eq!(
        f.get(t.sampler.id),
        Some(Resource::Sampler(SamplerInfo::new(FilterMethod::Scale, WrapMode::Tile)))
    );
}

#[test]
fn uniform_values_are_kept_apart() {
    let mut f = Factory::new();
    let a = Texture::uniform_value(&mut f, [1, 2, 3]);
    let b = Texture::uniform_value(&mut f, [4, 5, 6]);
    assert_eq!(f.sampled_value(a.buffer), Some([1, 2, 3]));
    assert_eq!(f.sampled_value(b.buffer), Some([4, 5, 6]));
    assert_eq!(f.sampled_value(ShaderResourceView { id: a.sampler.id }), None);
    assert_eq!(f.sampled_value(ShaderResourceView { id: 99 }), None);
}

#[test]
fn into_tuple_gives_view_then_sampler() {
    let t = Texture { sampler: Sampler { id: 4 }, buffer: ShaderResourceView { id: 7 } };
    assert_eq!(t.into_tuple(), (ShaderResourceView { id: 7 }, Sampler { id: 4 }));
}

#[test]
fn sampler_info_new_has_no_extras() {
    let s = SamplerInfo::new(FilterMethod::Trilinear, WrapMode::Mirror);
    assert_eq!(s.filter, FilterMethod::Trilinear);
    assert_eq!(s.wrap_mode, (WrapMode::Mirror, WrapMode::Mirror, WrapMode::Mirror));
    assert_eq!(s.lod_bias, 0);
    assert_eq!(s.lod_range, (-8000, 8000));
    assert_eq!(s.comparison, None);
    assert_eq!(s.border, 0);
}

#[test]
fn sky_blue_has_the_bits_of_its_channels() {
    assert_eq!(sky_blue(), [0.529f32, 0.808, 0.980].map(f32::to_bits));
    assert_eq!(sky_blue(), [0x3F07_6C8B, 0x3F4E_D917, 0x3F7A_E148]);
    let bytes: Vec<u8> = sky_blue().iter().flat_map(|w| w.to_le_bytes()).collect();
    assert_eq!(
        bytes,
        vec![0x8B, 0x6C, 0x07, 0x3F, 0x17, 0xD9, 0x4E, 0x3F, 0x48, 0xE1, 0x7A, 0x3F]
    );
}

#[test]
fn sun_axes_are_forward_and_down() {
    let (from, to) = sun_axes();
    assert_eq!(from.map(f32::from_bits), [0.0, 0.0, -1.0]);
    assert_eq!(to.map(f32::from_bits), [0.0, -1.0, 0.0]);
}

#[test]
fn shadow_map_is_512_square_float_depth() {
    let mut f = Factory::new();
    let (target, texture) = shadow_texture(&mut f);
    assert_eq!(f.len(), 4);
    match f.get(0) {
        Some(Resource::Texture { info, channel, fill }) => {
            assert_eq!(info.kind, Kind::D2(512, 512, AaMode::Single));
            assert_eq!(info.levels, 1);
            assert_eq!(info.format, SurfaceType::D32);
            assert_eq!(
                info.bind,
                Bind { shader_resource: true, depth_stencil: true, ..Bind::empty() }
            );
            assert_eq!(info.usage, Usage::Data);
            assert_eq!(channel, Some(ChannelType::Float));
            assert_eq!(fill, None);
        }
        other => panic!("expected a texture, found {:?}", other),
    }
    match f.get(texture.buffer.id) {
        Some(Resource::ShaderResource { texture, sampled }) => {
            assert_eq!(texture, RawTexture { id: 0 });
            assert_eq!(sampled.channel, ChannelType::Float);
            assert_eq!((sampled.min, sampled.max, sampled.layer), (0, 0, None));
        }
        other => panic!("expected a view, found {:?}", other),
    }
    match f.get(texture.sampler.id) {
        Some(Resource::Sampler(info)) => {
            assert_eq!(info.filter, FilterMethod::Bilinear);
            assert_eq!(info.wrap_mode, (WrapMode::Clamp, WrapMode::Clamp, WrapMode::Clamp));
            assert_eq!(info.comparison, Some(Comparison::LessEqual));
        }
        other => panic!("expected a sampler, found {:?}", other),
    }
    match f.get(target.id) {
        Some(Resource::DepthStencil { texture, target }) => {
            assert_eq!(texture, RawTexture { id: 0 });
            assert_eq!((target.level, target.layer), (0, None));
            assert_eq!(target.flags, DepthStencilFlags::empty());
        }
        other => panic!("expected a depth view, found {:?}", other),
    }
}

#[test]
fn views_need_the_matching_bind() {
    let mut f = Factory::new();
    let mut bind = Bind::empty();
    bind.shader_resource = true;
    let sampled_only =
        f.create_texture(Kind::D2(4, 4, AaMode::Single), 1, Format::lum_map(), bind, Usage::Data);
    let mut bind = Bind::empty();
    bind.depth_stencil = true;
    let depth_only = f.create_texture(
        Kind::D2(4, 4, AaMode::Single),
        1,
        Format::shadow_depth(),
        bind,
        Usage::Data,
    );
    assert_eq!(
        f.view_texture_as_depth_stencil(sampled_only, 0, None, DepthStencilFlags::empty()),
        Err(Error::ResourceCreation)
    );
    assert_eq!(
        f.view_texture_as_shader_resource(depth_only, ChannelType::Float, (0, 0), Swizzle::new()),
        Err(Error::ResourceCreation)
    );
    assert_eq!(f.len(), 2);
    assert!(f
        .view_texture_as_shader_resource(sampled_only, ChannelType::Float, (0, 0), Swizzle::new())
        .is_ok());
    assert!(f
        .view_texture_as_depth_stencil(depth_only, 0, None, DepthStencilFlags::empty())
        .is_ok());
    assert_eq!(f.len(), 4);
}

#[test]
fn views_need_a_texture() {
    let mut f = Factory::new();
    let s = f.create_sampler(SamplerInfo::new(FilterMethod::Scale, WrapMode::Tile));
    let not_a_texture = RawTexture { id: s.id };
    let nowhere = RawTexture { id: 17 };
    for t in [not_a_texture, nowhere] {
        assert_eq!(
            f.view_texture_as_shader_resource(t, ChannelType::Float, (0, 0), Swizzle::new()),
            Err(Error::ResourceCreation)
        );
        assert_eq!(
            f.view_texture_as_depth_stencil(t, 0, None, DepthStencilFlags::empty()),
            Err(Error::ResourceCreation)
        );
    }
    assert_eq!(f.len(), 1);
}

#[test]
fn init_without_rotation_is_refused() {
    let mut f = Factory::new();
    let r = UberStyle::init(&mut f, None);
    assert_eq!(r.err(), Some(Error::UnsupportedRotation));
    assert_eq!(f.len(), 0);
}

#[test]
fn init_defaults() {
    let mut f = Factory::new();
    let inputs = UberStyle::init(&mut f, Some(rotation())).unwrap();
    let env = inputs.env();
    assert!(!env.sun_included);
    assert_eq!(env.sun_color.map(f32::from_bits), [1.0, 1.0, 1.0, 2.0]);
    assert_eq!(env.radiance_levels, 1);
    assert_eq!(env.sun_rotation, rotation());
    assert_eq!(f32::from_bits(inputs.exposure()), 1.0);
    assert_eq!(f32::from_bits(inputs.gamma()), 2.2);
    assert!(inputs.params_pending());
    assert_eq!(inputs.pending_transform(), None);
    assert!(!inputs.transform_ready());
    assert_eq!(f.sampled_value(env.radiance.buffer), Some(sky_blue()));
    assert_eq!(f.sampled_value(env.irradiance.buffer), Some(sky_blue()));
    assert_ne!(env.radiance, env.irradiance);
}

#[test]
fn init_asks_for_everything_once() {
    let mut f = Factory::new();
    f.create(Resource::External);
    let inputs = UberStyle::init(&mut f, Some(rotation())).unwrap();
    assert_eq!(f.len(), 19);
    assert_eq!(f.get(5), Some(Resource::Shaders(Program::Background)));
    assert_eq!(f.get(6), Some(Resource::Shaders(Program::Uber)));
    assert_eq!(inputs.shader_set().id, 6);
    match f.get(inputs.background().pso().id) {
        Some(Resource::Pipeline { shaders, primitive, rasterizer, layout }) => {
            assert_eq!(shaders.id, 5);
            assert_eq!(primitive, Primitive::TriangleList);
            assert_eq!(rasterizer, Rasterizer::new_fill());
            assert_eq!(layout, Layout::Background);
        }
        other => panic!("expected a pipeline, found {:?}", other),
    }
    assert_eq!(
        f.get(inputs.transform_block().id),
        Some(Resource::ConstantBuffer { block: Block::Transform, len: 1 })
    );
    assert_eq!(
        f.get(inputs.params_block().id),
        Some(Resource::ConstantBuffer { block: Block::Params, len: 1 })
    );
    assert_eq!(f.get(inputs.integrated_brdf().buffer.id), Some(Resource::IntegratedBrdf));
    assert_eq!(inputs.integrated_brdf().sampler.id, inputs.integrated_brdf().buffer.id);
    assert!(matches!(
        f.get(inputs.background().mesh().buf.id),
        Some(Resource::BoxVertices(_))
    ));
    assert!(matches!(
        f.get(inputs.shadow_depth().buffer.id),
        Some(Resource::ShaderResource { texture: RawTexture { id: 1 }, .. })
    ));
    let mut kinds = [0; 4];
    for i in 1..f.len() {
        match f.get(i).unwrap() {
            Resource::Texture { .. } => kinds[0] += 1,
            Resource::Sampler(_) => kinds[1] += 1,
            Resource::ShaderResource { .. } => kinds[2] += 1,
            Resource::ConstantBuffer { .. } => kinds[3] += 1,
            _ => {}
        }
    }
    assert_eq!(kinds, [3, 3, 3, 2]);
}

#[test]
fn style_asks_for_the_mesh_pipeline() {
    let mut f = Factory::new();
    let mut inputs = UberStyle::init(&mut f, Some(rotation())).unwrap();
    let mut rasterizer = Rasterizer::new_fill();
    rasterizer.cull_face = stereo_pbr::state::CullFace::Back;
    let style = UberStyle::new(&mut f, &mut inputs, Primitive::TriangleStrip, rasterizer);
    assert_eq!(f.len(), 19);
    assert_eq!(style.pso().id, 18);
    assert_eq!(style.pso().layout, Layout::Foreground);
    assert_eq!(
        f.get(18),
        Some(Resource::Pipeline {
            shaders: *inputs.shader_set(),
            primitive: Primitive::TriangleStrip,
            rasterizer,
            layout: Layout::Foreground,
        })
    );
}

#[test]
fn device_outcomes_are_taken_in_order() {
    let mut f = Factory::new();
    assert_eq!(f.pending(), None);
    let mut inputs = UberStyle::init(&mut f, Some(rotation())).unwrap();
    let _ = UberStyle::new(&mut f, &mut inputs, Primitive::TriangleList, Rasterizer::new_fill());
    let mut seen = 0;
    while let Some((id, resource)) = f.pending() {
        assert_eq!(id, seen);
        assert_eq!(Some(resource), f.get(id));
        assert_eq!(f.complete(true), Ok(()));
        seen += 1;
    }
    assert_eq!(seen, 19);
    assert_eq!(f.pending(), None);
}

#[test]
fn device_failures_are_named_by_kind() {
    let mut f = Factory::new();
    let mut inputs = UberStyle::init(&mut f, Some(rotation())).unwrap();
    let _ = UberStyle::new(&mut f, &mut inputs, Primitive::TriangleList, Rasterizer::new_fill());
    let mut failures = Vec::new();
    while let Some((id, _)) = f.pending() {
        failures.push(f.complete(false).unwrap_err());
        assert_eq!(f.pending().map(|p| p.0), Some(id));
        f.complete(true).unwrap();
    }
    let compile: Vec<usize> = (0..failures.len())
        .filter(|&i| failures[i] == Error::PipelineCompile)
        .collect();
    assert_eq!(compile, vec![4, 5, 6, 18]);
    assert!(failures
        .iter()
        .all(|e| *e == Error::PipelineCompile || *e == Error::ResourceCreation));
    assert_eq!(Resource::Shaders(Program::Uber).failure(), Error::PipelineCompile);
    assert_eq!(Resource::IntegratedBrdf.failure(), Error::ResourceCreation);
    assert_eq!(Resource::External.failure(), Error::ResourceCreation);
}

#[test]
fn default_light_is_dark() {
    let l = Light::default();
    assert_eq!(l.pos.map(f32::from_bits), [0.0; 4]);
    assert_eq!(l.color.map(f32::from_bits), [0.0; 4]);
    assert_eq!(l.pos, [0; 4]);
}
