//! Objects of a game that can be drawn.
use vstd::prelude::*;
use crate::renderer::Renderable;

verus! {

/// Something in the game world with a drawable form.
pub trait GameObject {
    fn get_renderable(&self) -> &Renderable;
}

} // verus!
