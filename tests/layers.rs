use std::cell::RefCell;
use std::rc::Rc;

use buffengine::events::{ApplicationEvent, Event, KeyboardEvent};
use buffengine::input::KeyCode;
use buffengine::layers::{Layer, LayerSlot, LayerStack};
use buffengine::sample_game::debug_overlay::DebugOverlay;
use buffengine::renderer::SceneSnapshot;
use buffengine::sample_game::sample_layer::SampleLayer;

type Log = Rc<RefCell<Vec<String>>>;

#[derive(Clone)]
struct RecordingLayer {
    name: String,
    answer: bool,
    log: Log,
}

impl RecordingLayer {
    fn new(name: &str, answer: bool, log: &Log) -> Self {
        Self { name: name.to_string(), answer, log: Rc::clone(log) }
    }
}

impl Layer for RecordingLayer {
    fn consumes(&self, _event: Event) -> bool {
        self.answer
    }

    fn after_update(&self) -> Self {
        self.clone()
    }

    fn scene(&self) -> Option<SceneSnapshot> {
        None
    }

    fn as_scene(&self) -> Option<SceneSnapshot> {
        None
    }

    fn update(&mut self) {
        self.log.borrow_mut().push(format!("update {}", self.name));
    }

    fn handle_event(&mut self, _event: &Event) -> bool {
        self.log.borrow_mut().push(format!("event {}", self.name));
        self.answer
    }

    fn get_name(&self) -> &str {
        self.name.as_str()
    }
}

fn key_up() -> Event {
    Event::KeyboardEvent(KeyboardEvent::KeyPressed { key_code: KeyCode::Up, is_repeat: false })
}

fn entries(log: &Log) -> Vec<String> {
    log.borrow().clone()
}

#[test]
fn consuming_overlay_keeps_event_from_layer() {
    let log: Log = Rc::new(RefCell::new(Vec::new()));
    let mut stack = LayerStack::new();
    stack.push_layer(RecordingLayer::new("layer", true, &log));
    stack.push_overlay(RecordingLayer::new("overlay", true, &log));

    let handled_by = stack.dispatch(&key_up());

    assert_eq!(handled_by, Some(LayerSlot::Overlay(0)));
    assert_eq!(entries(&log), vec!["event overlay"]);
}

#[test]
fn newer_overlay_is_asked_before_older_one() {
    let log: Log = Rc::new(RefCell::new(Vec::new()));
    let mut stack = LayerStack::new();
    stack.push_overlay(RecordingLayer::new("older", true, &log));
    stack.push_overlay(RecordingLayer::new("newer", false, &log));
    stack.push_layer(RecordingLayer::new("layer", true, &log));

    let handled_by = stack.dispatch(&key_up());

    assert_eq!(handled_by, Some(LayerSlot::Overlay(0)));
    assert_eq!(entries(&log), vec!["event newer", "event older"]);
}

#[test]
fn consuming_newer_overlay_stops_before_older_one() {
    let log: Log = Rc::new(RefCell::new(Vec::new()));
    let mut stack = LayerStack::new();
    stack.push_overlay(RecordingLayer::new("older", false, &log));
    stack.push_overlay(RecordingLayer::new("newer", true, &log));

    let handled_by = stack.dispatch(&key_up());

    assert_eq!(handled_by, Some(LayerSlot::Overlay(1)));
    assert_eq!(entries(&log), vec!["event newer"]);
}

#[test]
fn layers_are_asked_newest_first_after_all_overlays() {
    let log: Log = Rc::new(RefCell::new(Vec::new()));
    let mut stack = LayerStack::new();
    stack.push_layer(RecordingLayer::new("first layer", false, &log));
    stack.push_layer(RecordingLayer::new("second layer", true, &log));
    stack.push_overlay(RecordingLayer::new("overlay", false, &log));

    let handled_by = stack.dispatch(&key_up());

    assert_eq!(handled_by, Some(LayerSlot::Layer(1)));
    assert_eq!(entries(&log), vec!["event overlay", "event second layer"]);
}

#[test]
fn unhandled_event_is_offered_to_everyone() {
    let log: Log = Rc::new(RefCell::new(Vec::new()));
    let mut stack = LayerStack::new();
    stack.push_layer(RecordingLayer::new("a", false, &log));
    stack.push_layer(RecordingLayer::new("b", false, &log));
    stack.push_overlay(RecordingLayer::new("c", false, &log));
    stack.push_overlay(RecordingLayer::new("d", false, &log));

    assert_eq!(stack.dispatch(&key_up()), None);
    assert_eq!(entries(&log), vec!["event d", "event c", "event b", "event a"]);
}

#[test]
fn empty_stack_handles_nothing() {
    let mut stack: LayerStack<RecordingLayer> = LayerStack::new();
    assert_eq!(stack.dispatch(&Event::ApplicationEvent(ApplicationEvent::RenderRequested)), None);
}

#[test]
fn update_runs_layers_then_overlays_in_push_order() {
    let log: Log = Rc::new(RefCell::new(Vec::new()));
    let mut stack = LayerStack::new();
    stack.push_overlay(RecordingLayer::new("o1", false, &log));
    stack.push_layer(RecordingLayer::new("l1", false, &log));
    stack.push_layer(RecordingLayer::new("l2", false, &log));
    stack.push_overlay(RecordingLayer::new("o2", false, &log));

    stack.update();

    assert_eq!(entries(&log), vec!["update l1", "update l2", "update o1", "update o2"]);
}

#[test]
fn pop_removes_the_newest_entry() {
    let log: Log = Rc::new(RefCell::new(Vec::new()));
    let mut stack = LayerStack::new();
    stack.push_layer(RecordingLayer::new("l1", false, &log));
    stack.push_layer(RecordingLayer::new("l2", false, &log));
    stack.push_overlay(RecordingLayer::new("o1", false, &log));
    stack.pop_layer();
    stack.pop_overlay();
    stack.pop_overlay();

    assert_eq!(stack.layers().len(), 1);
    assert_eq!(stack.layers()[0].get_name(), "l1");
    assert_eq!(stack.overlays().len(), 0);
}

#[test]
fn sample_layers_consume_nothing() {
    let mut overlay = DebugOverlay { name: String::from("Debug Overlay") };
    let mut layer = SampleLayer { name: String::from("Sample Layer") };
    assert!(!overlay.handle_event(&key_up()));
    assert!(!layer.handle_event(&key_up()));
    assert_eq!(overlay.get_name(), "Debug Overlay");
    assert_eq!(layer.get_name(), "Sample Layer");
    assert!(overlay.as_scene().is_none());
}
