//! Render-state orchestration for a stereo, physically based rendering
//! pipeline.
//!
//! The crate decides what is drawn and in which order; it touches no device.
//! Resources are asked of a [`factory::Factory`] that records the requests,
//! and draws are recorded into an [`encoder::Encoder`]. Whoever owns a device
//! makes the resources and submits the commands.
//!
//! Numbers that shaders read are single-precision floats. The crate holds them
//! as their bit patterns, see [`scalar`].

pub mod block;
pub mod cube;
pub mod draw;
pub mod encoder;
pub mod error;
pub mod factory;
pub mod format;
pub mod handle;
pub mod linear;
pub mod mesh;
pub mod scalar;
pub mod state;
pub mod texture;

pub use block::{Light, TransformBlock};
pub use error::Error;
pub use handle::{DepthRef, TargetRef};
pub use texture::Texture;
