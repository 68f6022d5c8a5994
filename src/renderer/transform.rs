use vstd::prelude::*;

verus! {

/// Placement of an object in the world: the position of its lower-left corner and its
/// scale, in world units (`f32` bit patterns).
///
/// The model matrix maps local space (-0.5 to 0.5) first to 0 to 1, then scales, then
/// translates by the position.
#[derive(Debug, Clone, Copy)]
pub struct Transform2D {
    pub position: [u32; 2],
    pub scale: [u32; 2],
}

impl Transform2D {
    /// The same transform moved to another position.
    pub fn position_to(&self, x_bits: u32, y_bits: u32) -> (r: Transform2D)
        ensures
            r.position == [x_bits, y_bits],
            r.scale == self.scale,
    {
        Transform2D { position: [x_bits, y_bits], scale: self.scale }
    }
}

} // verus!
