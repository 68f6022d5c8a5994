use vstd::prelude::*;
use crate::events::Event;
use crate::layers::Layer;
use crate::renderer::SceneSnapshot;

verus! {

/// An overlay that watches events without consuming any.
pub struct DebugOverlay {
    pub name: String,
}

impl Layer for DebugOverlay {
    open spec fn consumes(&self, event: Event) -> bool {
        false
    }

    open spec fn after_update(&self) -> Self {
        *self
    }

    open spec fn scene(&self) -> Option<SceneSnapshot> {
        None
    }

    fn update(&mut self) {
    }

    fn as_scene(&self) -> (r: Option<SceneSnapshot>) {
        None
    }

    fn handle_event(&mut self, event: &Event) -> (handled: bool) {
        false
    }

    fn get_name(&self) -> &str {
        self.name.as_str()
    }
}

} // verus!
