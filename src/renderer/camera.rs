use vstd::prelude::*;

verus! {

/// A 2D camera: the world-space point it is centred on, the world units it spans
/// (`f32` bit patterns), and the size in pixels of the surface it draws to.
///
/// The view matrix translates by the negated position. The projection is orthographic
/// with left 0, bottom 0, top `size[1]`, right `size[1]` times the viewport's aspect
/// ratio (width over height, unrounded), near 0 and far 100.
#[derive(Debug, Clone, Copy)]
pub struct Camera2D {
    pub position: [u32; 2],
    pub size: [u32; 2],
    pub viewport_size: [u32; 2],
}

impl Camera2D {
    /// Follows a resize of the surface.
    pub fn update_viewport_size(&mut self, new_size: [u32; 2])
        ensures
            final(self).viewport_size == new_size,
            final(self).position == old(self).position,
            final(self).size == old(self).size,
    {
        self.viewport_size = new_size;
    }
}

} // verus!
