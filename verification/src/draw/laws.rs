//! What holds of the style whatever it is asked to draw.

use vstd::prelude::*;
use crate::block::TransformBlock;
use crate::draw::uber::{
    initial_inputs, spec_sky_blue, ParamsBlock, UberEnv, UberInputsView, UberMaterial,
    DEFAULT_EXPOSURE,
};
use crate::draw::EyeParams;
use crate::encoder::{
    draws, lemma_count_push, lemma_device_push, params_on_device, params_writes,
    transform_on_device, Command,
};
use crate::handle::{Buffer, DepthRef, Layout, PipelineState, TargetRef};
use crate::linear::Matrix3;
use crate::mesh::Slice;
use crate::scalar::{closest_to, integral, lemma_named_integers, ONE, ZERO};
use crate::state::{Depth, Rect};
use vstd::arithmetic::power2::lemma2_to64;

verus! {

/// Of two transforms set one after the other, with no draw between them,
/// the second is the one that is pending: nothing queues up, and the inputs
/// are as if the first had never been set.
pub proof fn law_second_transform_wins(s: UberInputsView, a: TransformBlock, b: TransformBlock)
    ensures
        s.with_transform(a).with_transform(b).transform == Some(b),
        s.with_transform(a).with_transform(b) == s.with_transform(b),
{
}

/// Whatever is changed of environment, exposure or gamma, the params block
/// is out of date afterwards, and it stays so under further changes and
/// under a new transform.
pub proof fn law_changes_outdate_params(
    s: UberInputsView,
    env: UberEnv,
    exposure: u32,
    gamma: u32,
    block: TransformBlock,
)
    ensures
        s.with_env(env).params_update,
        s.with_exposure(exposure).params_update,
        s.with_gamma(gamma).params_update,
        s.params_update ==> s.with_env(env).params_update && s.with_exposure(
            exposure,
        ).params_update && s.with_gamma(gamma).params_update && s.with_transform(
            block,
        ).params_update,
{
}

/// A draw of a mesh records exactly one draw, as its last command. Where
/// the params block is out of date it is written exactly once before that,
/// with the block derived from the inputs as they are; where it is not, it
/// is not written. A pending transform is written before the params.
pub proof fn law_mesh_draw(
    s: UberInputsView,
    pso: PipelineState,
    color: TargetRef,
    depth: DepthRef,
    scissor: Rect,
    slice: Slice,
    buf: Buffer,
    mat: UberMaterial,
)
    ensures
        ({
            let recorded = s.mesh_draw(pso, color, depth, scissor, slice, buf, mat);
            &&& draws(recorded) == 1
            &&& recorded.last() is Draw
            &&& params_writes(recorded) == (if s.params_update {
                1nat
            } else {
                0nat
            })
            &&& s.params_update ==> recorded[recorded.len() - 2] == (Command::UpdateParams {
                buffer: s.params_block,
                params: s.params(),
            })
            &&& s.transform matches Some(block) ==> recorded[0] == (Command::UpdateTransform {
                buffer: s.transform_block,
                block,
            })
        }),
{
    let draw = Command::Draw { slice, pso, mesh: s.mesh_data(color, depth, scissor, buf, mat) };
    let flush = s.transform_flush() + s.params_flush();
    let recorded = s.mesh_draw(pso, color, depth, scissor, slice, buf, mat);
    assert(recorded =~= flush.push(draw));
    lemma_count_push(flush, draw);
    let empty = Seq::<Command>::empty();
    if s.transform is Some {
        let t = Command::UpdateTransform { buffer: s.transform_block, block: s.transform->Some_0 };
        assert(s.transform_flush() =~= empty.push(t));
        lemma_count_push(empty, t);
        if s.params_update {
            let p = Command::UpdateParams { buffer: s.params_block, params: s.params() };
            assert(flush =~= empty.push(t).push(p));
            lemma_count_push(empty.push(t), p);
        } else {
            assert(flush =~= empty.push(t));
        }
    } else {
        if s.params_update {
            let p = Command::UpdateParams { buffer: s.params_block, params: s.params() };
            assert(flush =~= empty.push(p));
            lemma_count_push(empty, p);
        } else {
            assert(flush =~= empty);
        }
    }
}

/// After a change of environment, exposure or gamma the next draw of a mesh
/// writes the params block once, and the draw after that, with nothing
/// changed in between, does not write it again.
pub proof fn law_params_written_once(
    s: UberInputsView,
    pso: PipelineState,
    color: TargetRef,
    depth: DepthRef,
    scissor: Rect,
    slice: Slice,
    buf: Buffer,
    mat: UberMaterial,
)
    requires
        s.params_update,
    ensures
        params_writes(s.mesh_draw(pso, color, depth, scissor, slice, buf, mat)) == 1,
        !s.flushed().params_update,
        params_writes(s.flushed().mesh_draw(pso, color, depth, scissor, slice, buf, mat)) == 0,
        s.flushed().params() == s.params(),
{
    law_mesh_draw(s, pso, color, depth, scissor, slice, buf, mat);
    law_mesh_draw(s.flushed(), pso, color, depth, scissor, slice, buf, mat);
}

/// A draw of the sky records exactly two draws, the left eye's before the
/// right eye's, and writes the params block exactly once before both,
/// whether the block was out of date or not and whether a transform was
/// pending or not. Each draw is preceded by the write of its eye's
/// transform and confined to its eye's rectangle, and where the pipeline is
/// of the sky's family its depth test lets everything pass and writes
/// nothing.
pub proof fn law_sky_pass(
    s: UberInputsView,
    left: EyeParams,
    right: EyeParams,
    color: TargetRef,
    depth: DepthRef,
)
    ensures
        ({
            let recorded = s.sky_pass(left, right, color, depth);
            &&& recorded.len() == 5
            &&& draws(recorded) == 2
            &&& params_writes(recorded) == 1
            &&& recorded[0] == (Command::UpdateParams {
                buffer: s.params_block,
                params: s.params(),
            })
            &&& recorded[1] == (Command::UpdateTransform {
                buffer: s.transform_block,
                block: left.spec_transform(),
            })
            &&& recorded[2] == (Command::DrawBackground {
                slice: s.background_mesh.slice,
                pso: s.background_pso,
                sky: s.sky_data(left, color, depth),
            })
            &&& recorded[3] == (Command::UpdateTransform {
                buffer: s.transform_block,
                block: right.spec_transform(),
            })
            &&& recorded[4] == (Command::DrawBackground {
                slice: s.background_mesh.slice,
                pso: s.background_pso,
                sky: s.sky_data(right, color, depth),
            })
            &&& s.sky_data(left, color, depth).scissor == left.clip
            &&& s.sky_data(right, color, depth).scissor == right.clip
            &&& s.background_pso.layout == Layout::Background
                ==> s.background_pso.layout.spec_depth() == Depth::spec_pass_test()
        }),
        !s.after_sky().params_update,
        s.after_sky().transform == s.transform,
{
    let recorded = s.sky_pass(left, right, color, depth);
    let empty = Seq::<Command>::empty();
    let c0 = recorded[0];
    let c1 = recorded[1];
    let c2 = recorded[2];
    let c3 = recorded[3];
    let c4 = recorded[4];
    assert(recorded =~= empty.push(c0).push(c1).push(c2).push(c3).push(c4));
    lemma_count_push(empty, c0);
    lemma_count_push(empty.push(c0), c1);
    lemma_count_push(empty.push(c0).push(c1), c2);
    lemma_count_push(empty.push(c0).push(c1).push(c2), c3);
    lemma_count_push(empty.push(c0).push(c1).push(c2).push(c3), c4);
}

/// The sky brings the params block up to date for the meshes too: a mesh
/// that is drawn after the sky, with nothing changed in between, does not
/// write the block again.
pub proof fn law_sky_settles_params(
    s: UberInputsView,
    pso: PipelineState,
    color: TargetRef,
    depth: DepthRef,
    scissor: Rect,
    slice: Slice,
    buf: Buffer,
    mat: UberMaterial,
)
    ensures
        params_writes(s.after_sky().mesh_draw(pso, color, depth, scissor, slice, buf, mat)) == 0,
        s.after_sky().params() == s.params(),
        s.after_sky().ready(),
{
    law_mesh_draw(s.after_sky(), pso, color, depth, scissor, slice, buf, mat);
}

/// The params block says that the environment shows the sun exactly where
/// the environment says so: `1.0` where it does, `0.0` where it does not.
pub proof fn law_sun_in_env(env: UberEnv, exposure: u32, gamma: u32)
    ensures
        ParamsBlock::derived(env, exposure, gamma).sun_in_env == (if env.sun_included {
            ONE
        } else {
            ZERO
        }),
        integral(ParamsBlock::derived(env, exposure, gamma).sun_in_env) == Some(
            if env.sun_included {
                1int
            } else {
                0int
            },
        ),
{
    lemma_named_integers();
}

/// The inputs start with a sun that the maps do not show, a white sun of
/// intensity 2, one level of radiance, exposure 1 and gamma 2.2, with maps
/// of the sky's blue, with no transform pending and with the params block
/// out of date.
pub proof fn law_defaults(base: int, sun_rotation: Matrix3)
    ensures
        ({
            let s = initial_inputs(base, sun_rotation);
            &&& !s.env.sun_included
            &&& integral(s.env.sun_color[0]) == Some(1int)
            &&& integral(s.env.sun_color[1]) == Some(1int)
            &&& integral(s.env.sun_color[2]) == Some(1int)
            &&& integral(s.env.sun_color[3]) == Some(2int)
            &&& s.env.sun_rotation == sun_rotation
            &&& s.env.radiance_levels == 1
            &&& integral(s.exposure) == Some(1int)
            &&& closest_to(s.gamma, 22, 10)
            &&& s.transform is None
            &&& !s.ready()
            &&& s.params_update
        }),
        closest_to(spec_sky_blue()[0], 529, 1000),
        closest_to(spec_sky_blue()[1], 808, 1000),
        closest_to(spec_sky_blue()[2], 980, 1000),
{
    lemma_named_integers();
    lemma2_to64();
    assert(DEFAULT_EXPOSURE == ONE);
}

/// The inputs agree with the device after a history of commands: unless the
/// params block is marked out of date, its buffer holds the block that
/// belongs to the inputs, and if the transform buffer counts as written, it
/// holds a transform.
pub open spec fn coherent(s: UberInputsView, history: Seq<Command>) -> bool {
    &&& !s.params_update ==> params_on_device(history, s.params_block) == Some(s.params())
    &&& s.transform_uploaded ==> transform_on_device(history, s.transform_block) is Some
}

/// Fresh inputs agree with the device whatever it holds: they claim nothing
/// about it.
pub proof fn law_coherent_at_start(base: int, sun_rotation: Matrix3, history: Seq<Command>)
    ensures
        coherent(initial_inputs(base, sun_rotation), history),
{
}

/// Setting a transform, the environment, the exposure or the gamma keeps
/// the inputs in agreement with the device.
pub proof fn law_changes_keep_coherent(
    s: UberInputsView,
    history: Seq<Command>,
    env: UberEnv,
    exposure: u32,
    gamma: u32,
    block: TransformBlock,
)
    requires
        coherent(s, history),
    ensures
        coherent(s.with_env(env), history),
        coherent(s.with_exposure(exposure), history),
        coherent(s.with_gamma(gamma), history),
        coherent(s.with_transform(block), history),
{
}

/// What the draw of a mesh reads is up to date. When the draw runs, the
/// buffer of the params block holds the block that belongs to the inputs,
/// written now or still there from before, and the buffer of the transform
/// block holds the transform that was pending, or where none was pending
/// what it held already. Afterwards the inputs agree with the device again.
pub proof fn law_mesh_draw_reads_current(
    s: UberInputsView,
    history: Seq<Command>,
    pso: PipelineState,
    color: TargetRef,
    depth: DepthRef,
    scissor: Rect,
    slice: Slice,
    buf: Buffer,
    mat: UberMaterial,
)
    requires
        coherent(s, history),
        s.ready(),
    ensures
        ({
            let all = history + s.mesh_draw(pso, color, depth, scissor, slice, buf, mat);
            let before_draw = all.drop_last();
            &&& all.last() is Draw
            &&& params_on_device(before_draw, s.params_block) == Some(s.params())
            &&& transform_on_device(before_draw, s.transform_block) is Some
            &&& s.transform matches Some(block) ==> transform_on_device(
                before_draw,
                s.transform_block,
            ) == Some(block)
            &&& s.transform is None ==> transform_on_device(before_draw, s.transform_block)
                == transform_on_device(history, s.transform_block)
            &&& coherent(s.flushed(), all)
        }),
{
    let draw = Command::Draw { slice, pso, mesh: s.mesh_data(color, depth, scissor, buf, mat) };
    let all = history + s.mesh_draw(pso, color, depth, scissor, slice, buf, mat);
    let t = Command::UpdateTransform { buffer: s.transform_block, block: s.transform->Some_0 };
    let p = Command::UpdateParams { buffer: s.params_block, params: s.params() };
    let after_transform = if s.transform is Some {
        history.push(t)
    } else {
        history
    };
    let after_params = if s.params_update {
        after_transform.push(p)
    } else {
        after_transform
    };
    assert(all =~= after_params.push(draw));
    assert(all.drop_last() =~= after_params);
    lemma_device_push(history, t, s.params_block);
    lemma_device_push(history, t, s.transform_block);
    lemma_device_push(after_transform, p, s.params_block);
    lemma_device_push(after_transform, p, s.transform_block);
    lemma_device_push(after_params, draw, s.params_block);
    lemma_device_push(after_params, draw, s.transform_block);
}

/// What the draws of the sky read is up to date. When the left eye's draw
/// runs, the buffers hold the params block that belongs to the inputs and
/// the left eye's transform; when the right eye's draw runs, the same params
/// block and the right eye's transform. Afterwards the inputs agree with the
/// device, whatever the device held before.
pub proof fn law_sky_pass_reads_current(
    s: UberInputsView,
    history: Seq<Command>,
    left: EyeParams,
    right: EyeParams,
    color: TargetRef,
    depth: DepthRef,
)
    ensures
        ({
            let all = history + s.sky_pass(left, right, color, depth);
            let before_left = all.subrange(0, history.len() as int + 2);
            let before_right = all.subrange(0, history.len() as int + 4);
            &&& all[history.len() as int + 2] is DrawBackground
            &&& all[history.len() as int + 4] is DrawBackground
            &&& params_on_device(before_left, s.params_block) == Some(s.params())
            &&& transform_on_device(before_left, s.transform_block) == Some(
                left.spec_transform(),
            )
            &&& params_on_device(before_right, s.params_block) == Some(s.params())
            &&& transform_on_device(before_right, s.transform_block) == Some(
                right.spec_transform(),
            )
            &&& coherent(s.after_sky(), all)
        }),
{
    let recorded = s.sky_pass(left, right, color, depth);
    let all = history + recorded;
    let c0 = recorded[0];
    let c1 = recorded[1];
    let c2 = recorded[2];
    let c3 = recorded[3];
    let c4 = recorded[4];
    let h1 = history.push(c0);
    let h2 = h1.push(c1);
    let h3 = h2.push(c2);
    let h4 = h3.push(c3);
    let h5 = h4.push(c4);
    assert(all =~= h5);
    assert(all.subrange(0, history.len() as int + 2) =~= h2);
    assert(all.subrange(0, history.len() as int + 4) =~= h4);
    lemma_device_push(history, c0, s.params_block);
    lemma_device_push(history, c0, s.transform_block);
    lemma_device_push(h1, c1, s.params_block);
    lemma_device_push(h1, c1, s.transform_block);
    lemma_device_push(h2, c2, s.params_block);
    lemma_device_push(h2, c2, s.transform_block);
    lemma_device_push(h3, c3, s.params_block);
    lemma_device_push(h3, c3, s.transform_block);
    lemma_device_push(h4, c4, s.params_block);
    lemma_device_push(h4, c4, s.transform_block);
}

} // verus!
