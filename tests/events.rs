use std::cell::Cell;

use buffengine::events::event::{
    Event as TypedEvent, EventCategory, EventDispatcher as TypedEventDispatcher, EventHandler as TypedEventHandler,
    EventType,
};
use buffengine::events::application_event::{WindowCloseEvent, WindowResizeEvent};
use buffengine::events::handling::{EventDispatcher, EventHandler};
use buffengine::events::key_event::{KeyEvent, KeyPressedEvent};
use buffengine::events::mapper::{map_event, ElementState, ScrollDelta, WindowInput};
use buffengine::events::mouse_event::{MouseButtonEvent, MouseButtonPressedEvent, MouseButtonReleasedEvent};
use buffengine::events::{ApplicationEvent, Event, KeyboardEvent, MouseEvent};
use buffengine::input::{KeyCode, MouseCode};

struct EventHandlerStub {
    called: Cell<bool>,
}

impl EventHandlerStub {
    fn new() -> Self {
        Self { called: Cell::new(false) }
    }

    fn was_called(&self) -> bool {
        self.called.get()
    }
}

impl EventHandler for EventHandlerStub {
    fn handle(&self, _event: &Event) {
        self.called.set(true);
    }
}

impl<T: TypedEvent> TypedEventHandler<T> for EventHandlerStub {
    fn handle(&self, _event: &T) {
        self.called.set(true);
    }
}

#[test]
fn event_handling_event_dispatcher_should_dispatch_event_to_registered_handlers() {
    // given
    let mut event_dispatcher = EventDispatcher::new();
    let event = Event::MouseEvent(MouseEvent::MouseButtonPressed { button: MouseCode::ButtonLeft });
    let event_handler = EventHandlerStub::new();
    event_dispatcher.add_event_handler(&event_handler);

    // when
    event_dispatcher.dispatch(&event);

    // then
    assert!(event_handler.was_called());
}

#[test]
fn event_event_dispatcher_should_dispatch_event_to_registered_handlers() {
    // given
    let mut event_dispatcher = TypedEventDispatcher::<MouseButtonReleasedEvent>::new();
    let event = MouseButtonReleasedEvent { button: MouseCode::ButtonLeft };
    let event_handler = EventHandlerStub::new();
    event_dispatcher.add_event_handler(&event_handler);

    // when
    event_dispatcher.dispatch(&event);

    // then
    assert!(event_handler.was_called());
}

#[test]
fn dispatcher_without_handlers_does_nothing() {
    let event_dispatcher = EventDispatcher::new();
    event_dispatcher.dispatch(&Event::UserEvent(7));
}

#[test]
fn close_request_maps_to_window_closed() {
    assert_eq!(
        map_event(&WindowInput::CloseRequested),
        Some(Event::ApplicationEvent(ApplicationEvent::WindowClosed))
    );
}

#[test]
fn resize_carries_absolute_dimensions() {
    assert_eq!(
        map_event(&WindowInput::Resized { width: 800, height: 600 }),
        Some(Event::ApplicationEvent(ApplicationEvent::WindowResized { width: 800, height: 600 }))
    );
}

#[test]
fn redraw_maps_to_render_requested() {
    assert_eq!(
        map_event(&WindowInput::RedrawRequested),
        Some(Event::ApplicationEvent(ApplicationEvent::RenderRequested))
    );
}

#[test]
fn key_press_keeps_repeat_flag() {
    let input = WindowInput::KeyboardInput { key: Some(KeyCode::Up), state: ElementState::Pressed, repeat: true };
    assert_eq!(
        map_event(&input),
        Some(Event::KeyboardEvent(KeyboardEvent::KeyPressed { key_code: KeyCode::Up, is_repeat: true }))
    );
    let input = WindowInput::KeyboardInput { key: Some(KeyCode::A), state: ElementState::Pressed, repeat: false };
    assert_eq!(
        map_event(&input),
        Some(Event::KeyboardEvent(KeyboardEvent::KeyPressed { key_code: KeyCode::A, is_repeat: false }))
    );
}

#[test]
fn key_release_maps_to_key_released() {
    let input = WindowInput::KeyboardInput { key: Some(KeyCode::Escape), state: ElementState::Released, repeat: false };
    assert_eq!(map_event(&input), Some(Event::KeyboardEvent(KeyboardEvent::KeyReleased { key_code: KeyCode::Escape })));
}

#[test]
fn unknown_key_is_dropped() {
    let input = WindowInput::KeyboardInput { key: None, state: ElementState::Pressed, repeat: false };
    assert_eq!(map_event(&input), None);
}

#[test]
fn mouse_buttons_map_to_press_and_release() {
    let press = WindowInput::MouseInput { button: Some(MouseCode::ButtonRight), state: ElementState::Pressed };
    assert_eq!(
        map_event(&press),
        Some(Event::MouseEvent(MouseEvent::MouseButtonPressed { button: MouseCode::ButtonRight }))
    );
    let release = WindowInput::MouseInput { button: Some(MouseCode::ButtonMiddle), state: ElementState::Released };
    assert_eq!(
        map_event(&release),
        Some(Event::MouseEvent(MouseEvent::MouseButtonReleased { button: MouseCode::ButtonMiddle }))
    );
}

#[test]
fn unknown_mouse_button_is_dropped() {
    let input = WindowInput::MouseInput { button: None, state: ElementState::Pressed };
    assert_eq!(map_event(&input), None);
}

#[test]
fn cursor_position_is_carried_exactly() {
    let (x, y) = (12.5f64, 300.25f64);
    let input = WindowInput::CursorMoved { x_bits: x.to_bits(), y_bits: y.to_bits() };
    match map_event(&input) {
        Some(Event::MouseEvent(MouseEvent::MouseMoved { x_bits, y_bits })) => {
            assert_eq!(f64::from_bits(x_bits), 12.5);
            assert_eq!(f64::from_bits(y_bits), 300.25);
        },
        other => panic!("unexpected mapping: {:?}", other),
    }
}

#[test]
fn pixel_scroll_is_kept_and_line_scroll_dropped() {
    let pixel = WindowInput::MouseWheel { delta: ScrollDelta::PixelDelta { x_bits: 3.0f64.to_bits(), y_bits: (-4.0f64).to_bits() } };
    assert_eq!(
        map_event(&pixel),
        Some(Event::MouseEvent(MouseEvent::MouseScrolled {
            x_offset_bits: 3.0f64.to_bits(),
            y_offset_bits: (-4.0f64).to_bits()
        }))
    );
    let line = WindowInput::MouseWheel { delta: ScrollDelta::LineDelta { columns_bits: 1.0f32.to_bits(), rows_bits: 2.0f32.to_bits() } };
    assert_eq!(map_event(&line), None);
}

#[test]
fn other_window_input_is_dropped() {
    assert_eq!(map_event(&WindowInput::Other), None);
}

#[test]
fn window_closed_and_render_requested_are_recognised() {
    let closed = Event::ApplicationEvent(ApplicationEvent::WindowClosed);
    let render = Event::ApplicationEvent(ApplicationEvent::RenderRequested);
    assert!(closed.is_window_closed());
    assert!(!closed.is_render_requested());
    assert!(render.is_render_requested());
    assert!(!Event::UserEvent(1).is_window_closed());
}

#[test]
fn typed_events_report_kind_name_and_categories() {
    let resize = WindowResizeEvent { width: 4, height: 3 };
    assert_eq!(resize.get_event_type(), EventType::WindowResize);
    assert_eq!(resize.get_name(), "WindowResizeEvent");
    assert!(resize.is_in_category(EventCategory::application()));
    assert!(!resize.is_in_category(EventCategory::input()));
    assert_eq!(TypedEvent::to_string(&WindowCloseEvent), "WindowCloseEvent");

    let key = KeyPressedEvent { key_code: KeyCode::Space, is_repeat: false };
    assert_eq!(*key.get_key_code(), KeyCode::Space);
    assert!(key.is_in_category(EventCategory::keyboard()));
    assert!(key.is_in_category(EventCategory::keyboard().or(EventCategory::input())));
    assert!(!key.is_in_category(EventCategory::mouse()));

    let button = MouseButtonPressedEvent { button: MouseCode::ButtonBack };
    assert_eq!(*button.get_mouse_button(), MouseCode::ButtonBack);
    assert_eq!(button.get_category_flags().bits, 8 | 2 | 16);
    assert!(button.is_in_category(EventCategory::mouse_button()));
}

#[test]
fn category_sets_combine_bitwise() {
    let both = EventCategory::mouse().or(EventCategory::input());
    assert_eq!(both.bits, 10);
    assert!(both.contains(EventCategory::mouse()));
    assert!(!both.contains(EventCategory::keyboard()));
    assert!(both.contains(EventCategory::none()));
    assert!(both.intersects(EventCategory::input()));
    assert!(!both.intersects(EventCategory::application()));
    assert_eq!(both.and(EventCategory::input()).bits, 2);
}
