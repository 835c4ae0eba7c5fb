//! The pipeline of lit, textured meshes: what one draw with it binds.

use vstd::prelude::*;
use crate::handle::{Buffer, DepthRef, Sampler, ShaderResourceView, TargetRef};
use crate::state::Rect;

verus! {

/// Everything that a draw of a mesh binds.
#[derive(Clone, Copy, PartialEq, Eq, Debug)]
pub struct Data {
    /// The vertices: position, normal, texture coordinate and tangent.
    pub verts: Buffer,
    /// The buffer of the transform block.
    pub transform: Buffer,
    /// The buffer of the params block.
    pub params: Buffer,
    /// The rectangle that the draw is confined to.
    pub scissor: Rect,
    /// Where colour goes.
    pub color: TargetRef,
    /// Where depth is tested and written.
    pub depth: DepthRef,
    /// The material's normal map.
    pub normal: (ShaderResourceView, Sampler),
    /// The material's base colour.
    pub albedo: (ShaderResourceView, Sampler),
    /// The material's metalness, roughness and flatness.
    pub knobs: (ShaderResourceView, Sampler),
    /// The environment's diffuse light.
    pub irradiance: (ShaderResourceView, Sampler),
    /// The environment's reflected light.
    pub radiance: (ShaderResourceView, Sampler),
    /// The lookup table of the integrated BRDF.
    pub integrated_brdf: (ShaderResourceView, Sampler),
    /// The shadow map.
    pub shadow_depth: (ShaderResourceView, Sampler),
}

} // verus!
