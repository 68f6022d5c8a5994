use vstd::prelude::*;
use std::rc::Rc;

verus! {

/// How an object is shaded: a shared shader and, optionally, a texture.
#[derive(Debug, Clone)]
pub struct Material {
    pub shader: Rc<ShaderDefinition>,
    pub texture: Option<Texture>,
}

/// An RGBA8 image. Its name is its cache key: two textures with the same name are
/// taken to be the same, and only the first is uploaded.
#[derive(Debug, Clone)]
pub struct Texture {
    pub name: String,
    pub width: u32,
    pub height: u32,
    /// Pixel data, four bytes per pixel, row by row.
    pub data: Vec<u8>,
}

/// Shader source text, known by its name.
#[derive(Debug, Clone)]
pub struct ShaderDefinition {
    pub name: String,
    pub source: String,
}

} // verus!
