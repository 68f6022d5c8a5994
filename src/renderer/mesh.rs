use vstd::prelude::*;

verus! {

/// Named geometry: a list of vertices drawn as a triangle list.
#[derive(Debug, Clone)]
pub struct Mesh {
    pub name: String,
    pub vertices: Vec<Vertex>,
}

/// One vertex, laid out as the GPU reads it. Every component is an `f32` bit pattern.
#[derive(Debug, Clone, Copy)]
pub struct Vertex {
    /// Local-space coordinates, from -0.5 to 0.5.
    pub position: [u32; 3],
    pub color: [u32; 4],
    /// Texture coordinates, from 0 to 1.
    pub tex_coords: [u32; 2],
}

} // verus!
