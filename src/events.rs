//! The closed set of events that travel through the engine.
//!
//! Events carry data only. Cursor positions and scroll offsets are floating-point
//! quantities on the platform side; they travel here as the IEEE-754 bit pattern
//! of the `f64` (`f64::to_bits`), which this crate carries without interpreting.
pub mod event;
pub mod application_event;
pub mod key_event;
pub mod mouse_event;
pub mod mapper;
pub mod handling;

use vstd::prelude::*;
use crate::input::{KeyCode, MouseCode};

verus! {

/// One event, as produced by the platform mapping and consumed by the application
/// and its layers.
#[derive(Debug, Clone, Copy, PartialEq, Eq, Structural)]
pub enum Event {
    ApplicationEvent(ApplicationEvent),
    MouseEvent(MouseEvent),
    KeyboardEvent(KeyboardEvent),
    /// An event defined by the embedding program, identified by its own tag.
    UserEvent(u64),
}

/// Window lifecycle and frame requests.
#[derive(Debug, Clone, Copy, PartialEq, Eq, Structural)]
pub enum ApplicationEvent {
    WindowClosed,
    /// The window's drawable area now has these absolute pixel dimensions.
    WindowResized { width: u32, height: u32 },
    RenderRequested,
}

/// Mouse input. Coordinates and offsets are `f64` bit patterns in window-local pixels.
#[derive(Debug, Clone, Copy, PartialEq, Eq, Structural)]
pub enum MouseEvent {
    MouseButtonPressed { button: MouseCode },
    MouseButtonReleased { button: MouseCode },
    MouseMoved { x_bits: u64, y_bits: u64 },
    MouseScrolled { x_offset_bits: u64, y_offset_bits: u64 },
}

/// Keyboard input.
#[derive(Debug, Clone, Copy, PartialEq, Eq, Structural)]
pub enum KeyboardEvent {
    /// `is_repeat` is true only for the automatic repeats of a key that is held down.
    KeyPressed { key_code: KeyCode, is_repeat: bool },
    KeyReleased { key_code: KeyCode },
}

impl Event {
    /// The event that closes the window and ends the application loop.
    pub open spec fn is_window_closed_spec(&self) -> bool {
        self == Event::ApplicationEvent(ApplicationEvent::WindowClosed)
    }

    /// The event that asks for layers to be updated and a frame to be drawn.
    pub open spec fn is_render_requested_spec(&self) -> bool {
        self == Event::ApplicationEvent(ApplicationEvent::RenderRequested)
    }

    #[verifier::when_used_as_spec(is_window_closed_spec)]
    pub fn is_window_closed(&self) -> (r: bool)
        ensures
            r == self.is_window_closed_spec(),
    {
        matches!(self, Event::ApplicationEvent(ApplicationEvent::WindowClosed))
    }

    #[verifier::when_used_as_spec(is_render_requested_spec)]
    pub fn is_render_requested(&self) -> (r: bool)
        ensures
            r == self.is_render_requested_spec(),
    {
        matches!(self, Event::ApplicationEvent(ApplicationEvent::RenderRequested))
    }
}

} // verus!
