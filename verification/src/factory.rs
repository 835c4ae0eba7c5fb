//! The factory: where the renderer asks for the device's resources.
//!
//! The factory makes nothing on a device. It keeps the description of every
//! resource it was asked for, in the order of the requests, and hands out the
//! position of the description as the resource's handle. Whoever owns a device
//! walks the descriptions in that order, makes each resource, and reports how
//! it went with [`Factory::complete`]; a failure there comes back as the
//! [`Error`] of the resource's kind.
//!
//! What it refuses itself is what no device would accept: a view of a texture
//! that was not made to be viewed that way.

use vstd::prelude::*;
use crate::error::Error;
use crate::format::{ChannelType, Format, Swizzle};
use crate::handle::{
    Buffer, DepthStencilView, Layout, PipelineState, RawTexture, Sampler, ShaderResourceView,
    ShaderSet,
};
use crate::mesh::Vert;
use crate::state::{Primitive, Rasterizer};
use crate::texture::{
    Bind, DepthStencilDesc, DepthStencilFlags, Info, Kind, ResourceDesc, SamplerInfo, Usage,
};

verus! {

/// The shader programs of the renderer. Their source text is kept elsewhere;
/// the renderer asks for them by name.
#[derive(Clone, Copy, PartialEq, Eq, Debug)]
pub enum Program {
    /// Lit, textured meshes.
    Uber,
    /// The sky.
    Background,
}

/// The uniform blocks of the renderer.
#[derive(Clone, Copy, PartialEq, Eq, Debug)]
pub enum Block {
    /// The camera of one eye and the placement of one mesh.
    Transform,
    /// Sun, exposure and gamma.
    Params,
}

/// The description of one resource.
#[derive(Clone, Copy, PartialEq, Eq, Debug)]
pub enum Resource {
    /// The storage of a texture.
    Texture {
        info: Info,
        /// How the channels will be read, for devices that must know.
        channel: Option<ChannelType>,
        /// The value that every texel starts with, one pattern per channel,
        /// or `None` for storage that starts undefined.
        fill: Option<[u32; 3]>,
    },
    /// A view of a texture that shaders sample.
    ShaderResource { texture: RawTexture, sampled: ResourceDesc },
    /// A view of a texture that draws test and write depth with.
    DepthStencil { texture: RawTexture, target: DepthStencilDesc },
    /// A sampler.
    Sampler(SamplerInfo),
    /// A buffer of `len` records of a uniform block.
    ConstantBuffer { block: Block, len: usize },
    /// The eight vertices of a box.
    BoxVertices([Vert; 8]),
    /// The thirty-six indices of the twelve triangles of a box.
    BoxIndices([u32; 36]),
    /// The shaders of a program.
    Shaders(Program),
    /// A pipeline-state object.
    Pipeline { shaders: ShaderSet, primitive: Primitive, rasterizer: Rasterizer, layout: Layout },
    /// The lookup table of the integrated BRDF, loaded together with its
    /// sampler: view and sampler share the position.
    IntegratedBrdf,
    /// A resource that was made elsewhere and is only known here.
    External,
}

impl Resource {
    /// The failure that is reported when a device cannot make this resource:
    /// for shaders and pipelines that they did not compile, for everything
    /// else that it could not be created.
    pub open spec fn spec_failure(self) -> Error {
        match self {
            Resource::Shaders(_) => Error::PipelineCompile,
            Resource::Pipeline { .. } => Error::PipelineCompile,
            _ => Error::ResourceCreation,
        }
    }

    /// The failure that is reported when a device cannot make this resource.
    #[verifier::when_used_as_spec(spec_failure)]
    pub fn failure(self) -> (e: Error)
        ensures
            e == self.spec_failure(),
    {
        match self {
            Resource::Shaders(_) => Error::PipelineCompile,
            Resource::Pipeline { .. } => Error::PipelineCompile,
            _ => Error::ResourceCreation,
        }
    }
}

/// The descriptions of all resources asked for so far, and how many of them a
/// device has made.
pub struct Factory {
    resources: Vec<Resource>,
    realized: usize,
}

impl View for Factory {
    type V = Seq<Resource>;

    /// The descriptions, in the order of the requests.
    closed spec fn view(&self) -> Seq<Resource> {
        self.resources@
    }
}

impl Factory {
    /// The number of descriptions, counted from the first, whose resources a
    /// device has made.
    pub closed spec fn spec_realized(&self) -> nat {
        self.realized as nat
    }

    /// The storage description under a texture handle, if it names one.
    pub open spec fn spec_texture_info(&self, texture: RawTexture) -> Option<Info> {
        if texture.id < self@.len() {
            match self@[texture.id as int] {
                Resource::Texture { info, .. } => Some(info),
                _ => None,
            }
        } else {
            None
        }
    }

    /// The value that fills the texture which a view shows, if the handle
    /// names a view of a texture that was filled with one value.
    pub open spec fn spec_uniform_value(&self, view: ShaderResourceView) -> Option<[u32; 3]> {
        if view.id < self@.len() {
            match self@[view.id as int] {
                Resource::ShaderResource { texture, .. } => {
                    if texture.id < self@.len() {
                        match self@[texture.id as int] {
                            Resource::Texture { fill, .. } => fill,
                            _ => None,
                        }
                    } else {
                        None
                    }
                },
                _ => None,
            }
        } else {
            None
        }
    }

    /// A factory that has been asked for nothing.
    pub fn new() -> (f: Factory)
        ensures
            f@ == Seq::<Resource>::empty(),
            f.spec_realized() == 0,
    {
        Factory { resources: Vec::new(), realized: 0 }
    }

    /// The number of descriptions.
    pub fn len(&self) -> (n: usize)
        ensures
            n == self@.len(),
    {
        self.resources.len()
    }

    /// The description at a position.
    pub fn get(&self, id: usize) -> (r: Option<Resource>)
        ensures
            r == (if id < self@.len() { Some(self@[id as int]) } else { None }),
    {
        if id < self.resources.len() {
            Some(self.resources[id])
        } else {
            None
        }
    }

    /// The value that fills the texture which a view shows, if the handle
    /// names a view of a texture that was filled with one value.
    #[verifier::when_used_as_spec(spec_uniform_value)]
    pub fn sampled_value(&self, view: ShaderResourceView) -> (value: Option<[u32; 3]>)
        ensures
            value == self.spec_uniform_value(view),
    {
        match self.get(view.id) {
            Some(Resource::ShaderResource { texture, .. }) => match self.get(texture.id) {
                Some(Resource::Texture { fill, .. }) => fill,
                _ => None,
            },
            _ => None,
        }
    }

    /// Adds a description and returns its position.
    pub fn create(&mut self, resource: Resource) -> (id: usize)
        ensures
            final(self)@ == old(self)@.push(resource),
            final(self).spec_realized() == old(self).spec_realized(),
            id == old(self)@.len(),
    {
        let id = self.resources.len();
        self.resources.push(resource);
        id
    }

    /// Asks for the storage of a texture that starts undefined.
    pub fn create_texture(
        &mut self,
        kind: Kind,
        levels: u8,
        format: Format,
        bind: Bind,
        usage: Usage,
    ) -> (texture: RawTexture)
        ensures
            final(self)@ == old(self)@.push(
                Resource::Texture {
                    info: Info { kind, levels, format: format.0, bind, usage },
                    channel: Some(format.1),
                    fill: None,
                },
            ),
            final(self).spec_realized() == old(self).spec_realized(),
            texture.id == old(self)@.len(),
    {
        let info = Info { kind, levels, format: format.0, bind, usage };
        RawTexture { id: self.create(Resource::Texture { info, channel: Some(format.1), fill: None }) }
    }

    /// Asks for a view through which shaders sample the mip levels
    /// `levels.0 ..= levels.1` of a texture.
    ///
    /// Refused, with nothing recorded, where the handle names no texture of
    /// this factory or the texture was not made to be a shader resource.
    pub fn view_texture_as_shader_resource(
        &mut self,
        texture: RawTexture,
        channel: ChannelType,
        levels: (u8, u8),
        swizzle: Swizzle,
    ) -> (r: Result<ShaderResourceView, Error>)
        requires
            levels.0 <= levels.1,
        ensures
            r is Ok <==> (old(self).spec_texture_info(texture) matches Some(info)
                && info.bind.shader_resource),
            r matches Ok(view) ==> {
                &&& view.id == old(self)@.len()
                &&& final(self)@ == old(self)@.push(
                    Resource::ShaderResource {
                        texture,
                        sampled: ResourceDesc {
                            channel,
                            layer: None,
                            min: levels.0,
                            max: levels.1,
                            swizzle,
                        },
                    },
                )
            },
            r matches Err(e) ==> e == Error::ResourceCreation && final(self)@ == old(self)@,
            final(self).spec_realized() == old(self).spec_realized(),
    {
        match self.get(texture.id) {
            Some(Resource::Texture { info, .. }) => {
                if info.bind.shader_resource {
                    let sampled = ResourceDesc {
                        channel,
                        layer: None,
                        min: levels.0,
                        max: levels.1,
                        swizzle,
                    };
                    let id = self.create(Resource::ShaderResource { texture, sampled });
                    Ok(ShaderResourceView { id })
                } else {
                    Err(Error::ResourceCreation)
                }
            },
            _ => Err(Error::ResourceCreation),
        }
    }

    /// Asks for a view through which draws test and write the depth of one
    /// mip level of a texture.
    ///
    /// Refused, with nothing recorded, where the handle names no texture of
    /// this factory or the texture was not made to be a depth target.
    pub fn view_texture_as_depth_stencil(
        &mut self,
        texture: RawTexture,
        level: u8,
        layer: Option<u16>,
        flags: DepthStencilFlags,
    ) -> (r: Result<DepthStencilView, Error>)
        ensures
            r is Ok <==> (old(self).spec_texture_info(texture) matches Some(info)
                && info.bind.depth_stencil),
            r matches Ok(view) ==> {
                &&& view.id == old(self)@.len()
                &&& final(self)@ == old(self)@.push(
                    Resource::DepthStencil {
                        texture,
                        target: DepthStencilDesc { level, layer, flags },
                    },
                )
            },
            r matches Err(e) ==> e == Error::ResourceCreation && final(self)@ == old(self)@,
            final(self).spec_realized() == old(self).spec_realized(),
    {
        match self.get(texture.id) {
            Some(Resource::Texture { info, .. }) => {
                if info.bind.depth_stencil {
                    let target = DepthStencilDesc { level, layer, flags };
                    let id = self.create(Resource::DepthStencil { texture, target });
                    Ok(DepthStencilView { id })
                } else {
                    Err(Error::ResourceCreation)
                }
            },
            _ => Err(Error::ResourceCreation),
        }
    }

    /// Asks for the storage of a texture whose every texel holds `value`, one
    /// pattern per channel, and for a view of all of it that shaders sample.
    /// Such a texture cannot be written later.
    pub fn create_texture_uniform(&mut self, kind: Kind, format: Format, value: [u32; 3]) -> (made: (
        RawTexture,
        ShaderResourceView,
    ))
        ensures
            final(self)@ == old(self)@.push(
                Resource::Texture {
                    info: Info {
                        kind,
                        levels: 1,
                        format: format.0,
                        bind: Bind { shader_resource: true, ..Bind::spec_empty() },
                        usage: Usage::Data,
                    },
                    channel: Some(format.1),
                    fill: Some(value),
                },
            ).push(
                Resource::ShaderResource {
                    texture: made.0,
                    sampled: ResourceDesc {
                        channel: format.1,
                        layer: None,
                        min: 0,
                        max: 0,
                        swizzle: Swizzle::spec_new(),
                    },
                },
            ),
            final(self).spec_realized() == old(self).spec_realized(),
            made.0.id == old(self)@.len(),
            made.1.id == old(self)@.len() + 1,
            final(self).spec_uniform_value(made.1) == Some(value),
    {
        let mut bind = Bind::empty();
        bind.shader_resource = true;
        let info = Info { kind, levels: 1, format: format.0, bind, usage: Usage::Data };
        let texture = RawTexture {
            id: self.create(Resource::Texture { info, channel: Some(format.1), fill: Some(value) }),
        };
        let view = self.view_texture_as_shader_resource(texture, format.1, (0, 0), Swizzle::new());
        (texture, view.unwrap())
    }

    /// Asks for a sampler.
    pub fn create_sampler(&mut self, info: SamplerInfo) -> (sampler: Sampler)
        ensures
            final(self)@ == old(self)@.push(Resource::Sampler(info)),
            final(self).spec_realized() == old(self).spec_realized(),
            sampler.id == old(self)@.len(),
    {
        Sampler { id: self.create(Resource::Sampler(info)) }
    }

    /// Asks for a buffer of `len` records of a uniform block.
    pub fn create_constant_buffer(&mut self, block: Block, len: usize) -> (buffer: Buffer)
        ensures
            final(self)@ == old(self)@.push(Resource::ConstantBuffer { block, len }),
            final(self).spec_realized() == old(self).spec_realized(),
            buffer.id == old(self)@.len(),
    {
        Buffer { id: self.create(Resource::ConstantBuffer { block, len }) }
    }

    /// Asks for the shaders of a program.
    pub fn create_shader_set(&mut self, program: Program) -> (shaders: ShaderSet)
        ensures
            final(self)@ == old(self)@.push(Resource::Shaders(program)),
            final(self).spec_realized() == old(self).spec_realized(),
            shaders.id == old(self)@.len(),
    {
        ShaderSet { id: self.create(Resource::Shaders(program)) }
    }

    /// Asks for a pipeline-state object of the given family.
    pub fn create_pipeline_state(
        &mut self,
        shaders: ShaderSet,
        primitive: Primitive,
        rasterizer: Rasterizer,
        layout: Layout,
    ) -> (pso: PipelineState)
        ensures
            final(self)@ == old(self)@.push(
                Resource::Pipeline { shaders, primitive, rasterizer, layout },
            ),
            final(self).spec_realized() == old(self).spec_realized(),
            pso == (PipelineState { id: old(self)@.len() as usize, layout }),
    {
        let id = self.create(Resource::Pipeline { shaders, primitive, rasterizer, layout });
        PipelineState { id, layout }
    }

    /// The description that a device has to work on next, with its position,
    /// or `None` when everything asked for has been made.
    pub fn pending(&self) -> (next: Option<(usize, Resource)>)
        ensures
            next == (if self.spec_realized() < self@.len() {
                Some((self.spec_realized() as usize, self@[self.spec_realized() as int]))
            } else {
                None
            }),
    {
        if self.realized < self.resources.len() {
            Some((self.realized, self.resources[self.realized]))
        } else {
            None
        }
    }

    /// Takes the outcome of a device's work on the pending description.
    ///
    /// `created` moves on to the next description. Otherwise the failure of
    /// the description's kind is returned, and the description stays pending:
    /// the factory tries nothing again by itself.
    pub fn complete(&mut self, created: bool) -> (r: Result<(), Error>)
        requires
            old(self).spec_realized() < old(self)@.len(),
        ensures
            final(self)@ == old(self)@,
            created ==> r is Ok && final(self).spec_realized() == old(self).spec_realized() + 1,
            !created ==> r == Err::<(), Error>(
                old(self)@[old(self).spec_realized() as int].spec_failure(),
            ) && final(self).spec_realized() == old(self).spec_realized(),
    {
        let len = self.resources.len();
        assert(self.realized < len);
        if created {
            self.realized = self.realized + 1;
            Ok(())
        } else {
            Err(self.resources[self.realized].failure())
        }
    }
}

} // verus!
