//! GPU resource construction and per-frame rendering for a small OpenGL
//! scene: a turning cube, or a quad that cross-fades two textures.
//!
//! The library decides; a caller holding the GL context acts. Construction of
//! a scene's shaders, program, buffers and textures is a machine
//! ([`resources::Builder`]) that asks for one GPU or disk operation at a time
//! and either ends with every object made and every location found or fails
//! with the first error. Each frame is a list of commands
//! ([`frame::frame_commands`]) that binds, draws once and unbinds.
use vstd::prelude::*;

pub mod animation;
pub mod frame;
pub mod frame_loop;
pub mod geometry;
pub mod handles;
pub mod resources;
pub mod scene;
pub mod texture;

verus! {

} // verus!
