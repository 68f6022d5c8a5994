use buffengine::events::{ApplicationEvent, Event, KeyboardEvent, MouseEvent};
use buffengine::input::{KeyCode, MouseCode};
use buffengine::sample_game::controls::{scene_action, Direction, SceneAction};

fn pressed(key_code: KeyCode, is_repeat: bool) -> Event {
    Event::KeyboardEvent(KeyboardEvent::KeyPressed { key_code, is_repeat })
}

#[test]
fn arrow_keys_move_the_player() {
    assert_eq!(scene_action(&pressed(KeyCode::Up, false)), Some(SceneAction::MovePlayer(Direction::Up)));
    assert_eq!(scene_action(&pressed(KeyCode::Down, false)), Some(SceneAction::MovePlayer(Direction::Down)));
    assert_eq!(scene_action(&pressed(KeyCode::Left, true)), Some(SceneAction::MovePlayer(Direction::Left)));
    assert_eq!(scene_action(&pressed(KeyCode::Right, false)), Some(SceneAction::MovePlayer(Direction::Right)));
}

#[test]
fn resize_reaches_the_camera() {
    let resize = Event::ApplicationEvent(ApplicationEvent::WindowResized { width: 1920, height: 1080 });
    assert_eq!(scene_action(&resize), Some(SceneAction::ResizeViewport { width: 1920, height: 1080 }));
}

#[test]
fn other_events_pass_through_the_scene() {
    assert_eq!(scene_action(&pressed(KeyCode::W, false)), None);
    assert_eq!(scene_action(&Event::KeyboardEvent(KeyboardEvent::KeyReleased { key_code: KeyCode::Up })), None);
    assert_eq!(scene_action(&Event::ApplicationEvent(ApplicationEvent::WindowClosed)), None);
    assert_eq!(scene_action(&Event::MouseEvent(MouseEvent::MouseButtonPressed { button: MouseCode::ButtonLeft })), None);
    assert_eq!(scene_action(&Event::UserEvent(3)), None);
}
