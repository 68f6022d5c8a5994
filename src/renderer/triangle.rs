//! A single triangle drawn straight from its shader.
use vstd::prelude::*;
use super::material::ShaderDefinition;

verus! {

/// WGSL source that draws one triangle from the vertex index alone.
pub const TRIANGLE_SHADER_SOURCE: &'static str = "@vertex
fn vs_main(@builtin(vertex_index) index: u32) -> @builtin(position) vec4<f32> {
    let x = f32(i32(index) - 1);
    let y = f32(i32(index & 1u) * 2 - 1);
    return vec4<f32>(x, y, 0.0, 1.0);
}

@fragment
fn fs_main() -> @location(0) vec4<f32> {
    return vec4<f32>(1.0, 0.0, 0.0, 1.0);
}
";

/// A triangle that needs no vertex buffer: its shader places three vertices.
#[derive(Debug, Clone)]
pub struct TriangleDefinition {
    label: String,
    shader: ShaderDefinition,
}

impl TriangleDefinition {
    pub closed spec fn label_view(&self) -> Seq<char> {
        self.label@
    }

    pub closed spec fn shader_view(&self) -> ShaderDefinition {
        self.shader
    }

    pub fn new() -> (r: TriangleDefinition)
        ensures
            r.label_view() == "Triangle"@,
            r.shader_view().name@ == "Triangle Shader"@,
            r.shader_view().source@ == TRIANGLE_SHADER_SOURCE@,
    {
        TriangleDefinition {
            label: "Triangle".to_owned(),
            shader: ShaderDefinition { name: "Triangle Shader".to_owned(), source: TRIANGLE_SHADER_SOURCE.to_owned() },
        }
    }

    pub fn label(&self) -> (r: &str)
        ensures
            r@ == self.label_view(),
    {
        self.label.as_str()
    }

    pub fn shader(&self) -> (r: &ShaderDefinition)
        ensures
            *r == self.shader_view(),
    {
        &self.shader
    }

    /// The vertices drawn: indices 0, 1 and 2.
    pub fn vertices(&self) -> (r: std::ops::Range<u32>)
        ensures
            r.start == 0,
            r.end == 3,
    {
        0..3
    }
}

} // verus!
