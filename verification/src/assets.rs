//! Asset-facing data types.  Model loading itself is an external
//! collaborator; the core only describes the texture and material data it
//! hands through to the renderer.

use vstd::prelude::*;

verus! {

/// What a texture is used for.
#[derive(Clone, Copy, Debug, PartialEq, Eq, Structural, Hash)]
pub enum TextureType {
    Albedo,
    Normal,
    Roughness,
}

/// The pixel layout of a texture's raw data.
#[derive(Clone, Copy, Debug, PartialEq, Eq, Structural, Hash)]
pub enum ImageFormat {
    R8G8B8,
    R8G8B8A8,
}

/// A decoded texture: its role, layout, dimensions and raw pixel data.
#[derive(Clone, Debug, PartialEq, Eq)]
pub struct Texture {
    pub texture_type: TextureType,
    pub image_format: ImageFormat,
    pub width: u32,
    pub height: u32,
    pub data: Vec<u8>,
}

/// A material: an albedo texture and an optional normal map.
#[derive(Clone, Debug, PartialEq, Eq)]
pub struct Material {
    pub albedo: Texture,
    pub normals: Option<Texture>,
}

} // verus!
