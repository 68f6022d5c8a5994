//! Mouse events as individual types. Positions and offsets are `f32` bit patterns.
use vstd::prelude::*;
use crate::input::MouseCode;
use super::event::{Event, EventCategory, EventType, INPUT_BIT, MOUSE_BIT, MOUSE_BUTTON_BIT};

verus! {

pub struct MouseMovedEvent {
    pub x_bits: u32,
    pub y_bits: u32,
}

impl Event for MouseMovedEvent {
    open spec fn kind(&self) -> EventType {
        EventType::MouseMoved
    }

    open spec fn name(&self) -> Seq<char> {
        "MouseMoved"@
    }

    open spec fn categories(&self) -> EventCategory {
        EventCategory { bits: MOUSE_BIT | INPUT_BIT }
    }

    fn get_event_type(&self) -> (r: EventType) {
        EventType::MouseMoved
    }

    fn get_name(&self) -> (r: &str) {
        "MouseMoved"
    }

    fn get_category_flags(&self) -> (r: EventCategory) {
        EventCategory::mouse().or(EventCategory::input())
    }
}

pub struct MouseScrolledEvent {
    pub x_offset_bits: u32,
    pub y_offset_bits: u32,
}

impl Event for MouseScrolledEvent {
    open spec fn kind(&self) -> EventType {
        EventType::MouseScrolled
    }

    open spec fn name(&self) -> Seq<char> {
        "MouseScrolled"@
    }

    open spec fn categories(&self) -> EventCategory {
        EventCategory { bits: MOUSE_BIT | INPUT_BIT }
    }

    fn get_event_type(&self) -> (r: EventType) {
        EventType::MouseScrolled
    }

    fn get_name(&self) -> (r: &str) {
        "MouseScrolled"
    }

    fn get_category_flags(&self) -> (r: EventCategory) {
        EventCategory::mouse().or(EventCategory::input())
    }
}

/// An event about one mouse button.
pub trait MouseButtonEvent: Event {
    spec fn button(&self) -> MouseCode;

    fn get_mouse_button(&self) -> (r: &MouseCode)
        ensures
            *r == self.button(),
    ;
}

pub struct MouseButtonPressedEvent {
    pub button: MouseCode,
}

impl MouseButtonEvent for MouseButtonPressedEvent {
    open spec fn button(&self) -> MouseCode {
        self.button
    }

    fn get_mouse_button(&self) -> (r: &MouseCode) {
        &self.button
    }
}

impl Event for MouseButtonPressedEvent {
    open spec fn kind(&self) -> EventType {
        EventType::MouseButtonPressed
    }

    open spec fn name(&self) -> Seq<char> {
        "MouseButtonPressed"@
    }

    open spec fn categories(&self) -> EventCategory {
        EventCategory { bits: MOUSE_BIT | INPUT_BIT | MOUSE_BUTTON_BIT }
    }

    fn get_event_type(&self) -> (r: EventType) {
        EventType::MouseButtonPressed
    }

    fn get_name(&self) -> (r: &str) {
        "MouseButtonPressed"
    }

    fn get_category_flags(&self) -> (r: EventCategory) {
        EventCategory::mouse().or(EventCategory::input()).or(EventCategory::mouse_button())
    }
}

pub struct MouseButtonReleasedEvent {
    pub button: MouseCode,
}

impl MouseButtonEvent for MouseButtonReleasedEvent {
    open spec fn button(&self) -> MouseCode {
        self.button
    }

    fn get_mouse_button(&self) -> (r: &MouseCode) {
        &self.button
    }
}

impl Event for MouseButtonReleasedEvent {
    open spec fn kind(&self) -> EventType {
        EventType::MouseButtonReleased
    }

    open spec fn name(&self) -> Seq<char> {
        "MouseButtonReleased"@
    }

    open spec fn categories(&self) -> EventCategory {
        EventCategory { bits: MOUSE_BIT | INPUT_BIT | MOUSE_BUTTON_BIT }
    }

    fn get_event_type(&self) -> (r: EventType) {
        EventType::MouseButtonReleased
    }

    fn get_name(&self) -> (r: &str) {
        "MouseButtonReleased"
    }

    fn get_category_flags(&self) -> (r: EventCategory) {
        EventCategory::mouse().or(EventCategory::input()).or(EventCategory::mouse_button())
    }
}

} // verus!
