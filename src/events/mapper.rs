//! From platform window input to engine events.
use vstd::prelude::*;
use crate::input::{KeyCode, MouseCode};
use super::{ApplicationEvent, Event, KeyboardEvent, MouseEvent};

verus! {

/// Whether a key or button went down or up.
#[derive(Debug, Clone, Copy, PartialEq, Eq, Structural)]
pub enum ElementState {
    Pressed,
    Released,
}

/// How the platform measured a scroll.
#[derive(Debug, Clone, Copy, PartialEq, Eq, Structural)]
pub enum ScrollDelta {
    /// Lines and rows (`f32` bit patterns).
    LineDelta { columns_bits: u32, rows_bits: u32 },
    /// Pixels (`f64` bit patterns).
    PixelDelta { x_bits: u64, y_bits: u64 },
}

/// The window input that the platform delivers, as far as the engine reads it.
///
/// `key` and `button` are `None` where the platform reports a key or button that has
/// no [`KeyCode`] or [`MouseCode`].
#[derive(Debug, Clone, Copy, PartialEq, Eq, Structural)]
pub enum WindowInput {
    CloseRequested,
    Resized { width: u32, height: u32 },
    KeyboardInput { key: Option<KeyCode>, state: ElementState, repeat: bool },
    CursorMoved { x_bits: u64, y_bits: u64 },
    MouseInput { button: Option<MouseCode>, state: ElementState },
    MouseWheel { delta: ScrollDelta },
    RedrawRequested,
    /// Any other window input; the engine has no event for it.
    Other,
}

/// The engine event for one piece of window input, or `None` where it is dropped:
/// unknown input, keys and buttons without a code, and scrolls measured in lines.
pub open spec fn mapped_event(input: WindowInput) -> Option<Event> {
    match input {
        WindowInput::CloseRequested => Some(Event::ApplicationEvent(ApplicationEvent::WindowClosed)),
        WindowInput::Resized { width, height } =>
            Some(Event::ApplicationEvent(ApplicationEvent::WindowResized { width, height })),
        WindowInput::KeyboardInput { key, state, repeat } => match key {
            None => None,
            Some(key_code) => match state {
                ElementState::Pressed =>
                    Some(Event::KeyboardEvent(KeyboardEvent::KeyPressed { key_code, is_repeat: repeat })),
                ElementState::Released =>
                    Some(Event::KeyboardEvent(KeyboardEvent::KeyReleased { key_code })),
            },
        },
        WindowInput::CursorMoved { x_bits, y_bits } =>
            Some(Event::MouseEvent(MouseEvent::MouseMoved { x_bits, y_bits })),
        WindowInput::MouseInput { button, state } => match button {
            None => None,
            Some(button) => match state {
                ElementState::Pressed => Some(Event::MouseEvent(MouseEvent::MouseButtonPressed { button })),
                ElementState::Released => Some(Event::MouseEvent(MouseEvent::MouseButtonReleased { button })),
            },
        },
        WindowInput::MouseWheel { delta } => match delta {
            ScrollDelta::LineDelta { .. } => None,
            ScrollDelta::PixelDelta { x_bits, y_bits } =>
                Some(Event::MouseEvent(MouseEvent::MouseScrolled { x_offset_bits: x_bits, y_offset_bits: y_bits })),
        },
        WindowInput::RedrawRequested => Some(Event::ApplicationEvent(ApplicationEvent::RenderRequested)),
        WindowInput::Other => None,
    }
}

/// Maps one piece of window input to the engine event for it.
pub fn map_event(input: &WindowInput) -> (r: Option<Event>)
    ensures
        r == mapped_event(*input),
{
    match *input {
        WindowInput::CloseRequested => Some(Event::ApplicationEvent(ApplicationEvent::WindowClosed)),
        WindowInput::Resized { width, height } => {
            Some(Event::ApplicationEvent(ApplicationEvent::WindowResized { width, height }))
        },
        WindowInput::KeyboardInput { key, state, repeat } => {
            match key {
                None => None,
                Some(key_code) => {
                    match state {
                        ElementState::Pressed => Some(
                            Event::KeyboardEvent(KeyboardEvent::KeyPressed { key_code, is_repeat: repeat }),
                        ),
                        ElementState::Released => Some(
                            Event::KeyboardEvent(KeyboardEvent::KeyReleased { key_code }),
                        ),
                    }
                },
            }
        },
        WindowInput::CursorMoved { x_bits, y_bits } => {
            Some(Event::MouseEvent(MouseEvent::MouseMoved { x_bits, y_bits }))
        },
        WindowInput::MouseInput { button, state } => {
            match button {
                None => None,
                Some(button) => {
                    match state {
                        ElementState::Pressed => Some(
                            Event::MouseEvent(MouseEvent::MouseButtonPressed { button }),
                        ),
                        ElementState::Released => Some(
                            Event::MouseEvent(MouseEvent::MouseButtonReleased { button }),
                        ),
                    }
                },
            }
        },
        WindowInput::MouseWheel { delta } => {
            match delta {
                ScrollDelta::LineDelta { .. } => None,
                ScrollDelta::PixelDelta { x_bits, y_bits } => Some(
                    Event::MouseEvent(MouseEvent::MouseScrolled { x_offset_bits: x_bits, y_offset_bits: y_bits }),
                ),
            }
        },
        WindowInput::RedrawRequested => Some(Event::ApplicationEvent(ApplicationEvent::RenderRequested)),
        WindowInput::Other => None,
    }
}

} // verus!
