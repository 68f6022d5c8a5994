//! What the sample scene does with each event.
use vstd::prelude::*;
use crate::events::{ApplicationEvent, Event, KeyboardEvent};
use crate::input::KeyCode;

verus! {

/// A direction the player moves in, one world unit per key press.
#[derive(Debug, Clone, Copy, PartialEq, Eq, Structural)]
pub enum Direction {
    Up,
    Down,
    Left,
    Right,
}

/// How the sample scene reacts to an event it consumes.
#[derive(Debug, Clone, Copy, PartialEq, Eq, Structural)]
pub enum SceneAction {
    /// Follow the new surface size with the camera's viewport.
    ResizeViewport { width: u32, height: u32 },
    /// Move the player.
    MovePlayer(Direction),
}

/// The scene's reaction to `event`: resizes reach the camera, and the arrow keys (held
/// or not) move the player. Everything else passes through.
pub open spec fn scene_action_of(event: Event) -> Option<SceneAction> {
    match event {
        Event::ApplicationEvent(ApplicationEvent::WindowResized { width, height }) =>
            Some(SceneAction::ResizeViewport { width, height }),
        Event::KeyboardEvent(KeyboardEvent::KeyPressed { key_code, .. }) => match key_code {
            KeyCode::Up => Some(SceneAction::MovePlayer(Direction::Up)),
            KeyCode::Down => Some(SceneAction::MovePlayer(Direction::Down)),
            KeyCode::Left => Some(SceneAction::MovePlayer(Direction::Left)),
            KeyCode::Right => Some(SceneAction::MovePlayer(Direction::Right)),
            _ => None,
        },
        _ => None,
    }
}

/// Decides how the sample scene reacts to `event`; the scene consumes exactly the
/// events this returns an action for.
pub fn scene_action(event: &Event) -> (r: Option<SceneAction>)
    ensures
        r == scene_action_of(*event),
{
    match event {
        Event::ApplicationEvent(ApplicationEvent::WindowResized { width, height }) => {
            Some(SceneAction::ResizeViewport { width: *width, height: *height })
        },
        Event::KeyboardEvent(KeyboardEvent::KeyPressed { key_code, .. }) => {
            match key_code {
                KeyCode::Up => Some(SceneAction::MovePlayer(Direction::Up)),
                KeyCode::Down => Some(SceneAction::MovePlayer(Direction::Down)),
                KeyCode::Left => Some(SceneAction::MovePlayer(Direction::Left)),
                KeyCode::Right => Some(SceneAction::MovePlayer(Direction::Right)),
                _ => None,
            }
        },
        _ => None,
    }
}

} // verus!
