//! GPU-agnostic descriptions of what is drawn, and the planning of each frame.
//!
//! Floating-point quantities (vertex attributes, transforms, camera extents) are held
//! as IEEE-754 `f32` bit patterns (`f32::to_bits`): this crate moves them around
//! without computing with them, and the bytes are exactly those the GPU receives.
pub mod material;
pub mod mesh;
pub mod transform;
pub mod camera;
pub mod texture_cache;
pub mod frame;
pub mod triangle;
pub mod texture_upload;

use vstd::prelude::*;
use self::camera::Camera2D;
use self::material::Material;
use self::mesh::Mesh;
use self::transform::Transform2D;

verus! {

/// One drawable object: a mesh, the material it is drawn with, and where it stands
/// in the world.
#[derive(Debug, Clone)]
pub struct Renderable {
    pub name: String,
    pub mesh: Mesh,
    pub material: Material,
    /// Placement in world space.
    pub transform: Transform2D,
}

impl Renderable {
    /// The cache key of the texture this object is drawn with, if any.
    pub open spec fn texture_key(&self) -> Option<Seq<char>> {
        match self.material.texture {
            Some(t) => Some(t.name@),
            None => None,
        }
    }

    /// The number of vertices the object's draw call covers.
    pub open spec fn vertex_count(&self) -> nat {
        self.mesh.vertices@.len()
    }
}

/// What a layer exposes to be drawn: its objects, in drawing order, and its camera.
///
/// `renderables` and `camera` describe what the two getters return. Implementations
/// written in ordinary Rust provide them as plain methods returning the same values.
pub trait Scene {
    /// The scene's objects, in drawing order.
    spec fn renderables(&self) -> Vec<Renderable>;

    /// The scene's camera.
    spec fn camera(&self) -> Camera2D;

    fn get_renderables(&self) -> (r: Vec<Renderable>)
        ensures
            r == self.renderables(),
    ;

    fn get_camera(&self) -> (r: Camera2D)
        ensures
            r == self.camera(),
    ;
}

/// The state of a scene for one frame.
#[derive(Debug, Clone)]
pub struct SceneSnapshot {
    pub camera: Camera2D,
    pub renderables: Vec<Renderable>,
}

impl SceneSnapshot {
    /// Reads the camera and the objects of `scene`.
    pub fn of<S: Scene>(scene: &S) -> (r: SceneSnapshot)
        ensures
            r == (SceneSnapshot { camera: scene.camera(), renderables: scene.renderables() }),
    {
        SceneSnapshot { camera: scene.get_camera(), renderables: scene.get_renderables() }
    }
}

} // verus!
