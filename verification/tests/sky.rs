use stereo_pbr::block::TransformBlock;
use stereo_pbr::draw::uber::{UberInputs, UberMaterial, UberStyle};
use stereo_pbr::draw::{DrawParams, EyeParams, Painter};
use stereo_pbr::encoder::{Command, Encoder};
use stereo_pbr::factory::Factory;
use stereo_pbr::handle::{
    Buffer, DepthStencilView, Layout, RenderTargetView, Sampler, ShaderResourceView,
};
use stereo_pbr::mesh::{IndexBuffer, Slice};
use stereo_pbr::state::{Comparison, Depth, Primitive, Rasterizer, Rect};
use stereo_pbr::texture::Texture;

fn bits(x: f32) -> u32 {
    x.to_bits()
}

fn rotation() -> [[u32; 3]; 3] {
    [
        [bits(1.0), bits(0.0), bits(0.0)],
        [bits(0.0), bits(0.0), bits(-1.0)],
        [bits(0.0), bits(1.0), bits(0.0)],
    ]
}

fn eye(x: f32, clip: Rect) -> EyeParams {
    EyeParams {
        eye: [bits(x), bits(1.5), bits(0.0), bits(1.0)],
        view: [[bits(x); 4]; 4],
        proj: [[bits(x * 2.0); 4]; 4],
        clip_offset: bits(x),
        clip,
    }
}

fn left() -> EyeParams {
    eye(-0.5, Rect { x: 0, y: 0, w: 960, h: 1080 })
}

fn right() -> EyeParams {
    eye(0.5, Rect { x: 960, y: 0, w: 960, h: 1080 })
}

fn painter() -> Painter {
    let mut f = Factory::new();
    let mut inputs: UberInputs = UberStyle::init(&mut f, Some(rotation())).unwrap();
    let style = UberStyle::new(&mut f, &mut inputs, Primitive::TriangleList, Rasterizer::new_fill());
    Painter { style, inputs }
}

fn context() -> DrawParams {
    DrawParams {
        encoder: Encoder::new(),
        color: RenderTargetView { id: 70 },
        depth: DepthStencilView { id: 71 },
        left: left(),
        right: right(),
    }
}

fn commands(ctx: &DrawParams) -> Vec<Command> {
    (0..ctx.encoder.len()).map(|i| ctx.encoder.get(i).unwrap()).collect()
}

fn sky_draws(ctx: &DrawParams) -> Vec<Rect> {
    commands(ctx)
        .into_iter()
        .filter_map(|c| match c {
            Command::DrawBackground { sky, .. } => Some(sky.scissor),
            _ => None,
        })
        .collect()
}

fn sun_flags(ctx: &DrawParams) -> Vec<f32> {
    commands(ctx)
        .into_iter()
        .filter_map(|c| match c {
            Command::UpdateParams { params, .. } => Some(f32::from_bits(params.sun_in_env)),
            _ => None,
        })
        .collect()
}

#[test]
fn sky_is_drawn_left_then_right() {
    let mut p = painter();
    let mut ctx = context();
    p.clear_env(&mut ctx);
    assert_eq!(sky_draws(&ctx), vec![left().clip, right().clip]);
    assert_eq!(ctx.encoder.len(), 5);
}

#[test]
fn sky_is_drawn_twice_when_nothing_is_pending() {
    let mut p = painter();
    let mut ctx = context();
    p.clear_env(&mut ctx);
    assert!(!p.inputs.params_pending());
    ctx.encoder.take();
    p.clear_env(&mut ctx);
    assert_eq!(sky_draws(&ctx), vec![left().clip, right().clip]);
    assert_eq!(sun_flags(&ctx).len(), 1);
    assert_eq!(ctx.encoder.len(), 5);
}

#[test]
fn sky_writes_params_first_and_each_eye_before_its_draw() {
    let mut p = painter();
    let mut ctx = context();
    p.clear_env(&mut ctx);
    let c = commands(&ctx);
    assert!(matches!(c[0], Command::UpdateParams { .. }));
    let expect = |e: EyeParams| TransformBlock {
        model: [
            [1.0f32, 0.0, 0.0, 0.0].map(f32::to_bits),
            [0.0f32, 1.0, 0.0, 0.0].map(f32::to_bits),
            [0.0f32, 0.0, 1.0, 0.0].map(f32::to_bits),
            [0.0f32, 0.0, 0.0, 1.0].map(f32::to_bits),
        ],
        view: e.view,
        proj: e.proj,
        eye: e.eye,
        clip_offset: e.clip_offset,
    };
    assert_eq!(
        c[1],
        Command::UpdateTransform { buffer: p.inputs.transform_block(), block: expect(left()) }
    );
    assert!(matches!(c[2], Command::DrawBackground { .. }));
    assert_eq!(
        c[3],
        Command::UpdateTransform { buffer: p.inputs.transform_block(), block: expect(right()) }
    );
    assert!(matches!(c[4], Command::DrawBackground { .. }));
    assert_eq!(left().transform(), expect(left()));
}

#[test]
fn sky_draws_the_box_with_the_radiance_map_and_passes_depth() {
    let mut p = painter();
    let mut ctx = context();
    p.clear_env(&mut ctx);
    for c in commands(&ctx) {
        if let Command::DrawBackground { slice, pso, sky } = c {
            assert_eq!(pso, p.inputs.background().pso());
            assert_eq!(pso.layout, Layout::Background);
            assert_eq!(pso.layout.depth(), Depth { fun: Comparison::Always, write: false });
            assert_eq!(slice, p.inputs.background().mesh().slice);
            assert_eq!(slice.end - slice.start, 36);
            assert_eq!(sky.verts, p.inputs.background().mesh().buf);
            assert_eq!(sky.radiance, p.inputs.env().radiance.into_tuple());
            assert_eq!(sky.transform, p.inputs.transform_block());
            assert_eq!(sky.params, p.inputs.params_block());
            assert_eq!(sky.color, RenderTargetView { id: 70 });
            assert_eq!(sky.depth, DepthStencilView { id: 71 });
        }
    }
}

#[test]
fn sky_shows_the_sun_flag_of_the_moment() {
    let mut p = painter();
    let mut ctx = context();
    p.inputs.mut_env().sun_included = true;
    p.clear_env(&mut ctx);
    assert_eq!(sun_flags(&ctx), vec![1.0]);
    ctx.encoder.take();
    p.inputs.mut_env().sun_included = false;
    p.clear_env(&mut ctx);
    assert_eq!(sun_flags(&ctx), vec![0.0]);
}

#[test]
fn sky_leaves_a_pending_transform_pending() {
    let mut p = painter();
    let mut ctx = context();
    let block = left().transform();
    p.inputs.transform(block);
    p.clear_env(&mut ctx);
    assert_eq!(p.inputs.pending_transform(), Some(block));
    assert!(!p.inputs.params_pending());
    assert_eq!(ctx.left, left());
    assert_eq!(ctx.right, right());
}

#[test]
fn mesh_after_sky_does_not_write_params_again() {
    let mut p = painter();
    let mut ctx = context();
    p.inputs.set_exposure(bits(2.0));
    p.clear_env(&mut ctx);
    ctx.encoder.take();
    p.inputs.transform(left().transform());
    let texture = |id: usize| Texture {
        sampler: Sampler { id },
        buffer: ShaderResourceView { id },
    };
    let mat = UberMaterial { normal: texture(1), albedo: texture(2), knobs: texture(3) };
    let slice = Slice { start: 0, end: 3, base_vertex: 0, instances: None, buffer: IndexBuffer::Auto };
    assert!(p.inputs.transform_ready());
    p.style
        .draw_raw(
            &mut p.inputs,
            &mut ctx.encoder,
            ctx.color,
            ctx.depth,
            left().clip,
            &slice,
            Buffer { id: 9 },
            &mat,
        )
        .unwrap();
    assert_eq!(sun_flags(&ctx).len(), 0);
    assert_eq!(ctx.encoder.len(), 2);
}
