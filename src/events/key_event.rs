//! Keyboard events as individual types.
use vstd::prelude::*;
use crate::input::KeyCode;
use super::event::{Event, EventCategory, EventType, INPUT_BIT, KEYBOARD_BIT};

verus! {

/// An event about one key.
pub trait KeyEvent: Event {
    spec fn key(&self) -> KeyCode;

    fn get_key_code(&self) -> (r: &KeyCode)
        ensures
            *r == self.key(),
    ;
}

pub struct KeyPressedEvent {
    pub key_code: KeyCode,
    pub is_repeat: bool,
}

impl KeyEvent for KeyPressedEvent {
    open spec fn key(&self) -> KeyCode {
        self.key_code
    }

    fn get_key_code(&self) -> (r: &KeyCode) {
        &self.key_code
    }
}

impl Event for KeyPressedEvent {
    open spec fn kind(&self) -> EventType {
        EventType::KeyPressed
    }

    open spec fn name(&self) -> Seq<char> {
        "KeyPressed"@
    }

    open spec fn categories(&self) -> EventCategory {
        EventCategory { bits: KEYBOARD_BIT | INPUT_BIT }
    }

    fn get_event_type(&self) -> (r: EventType) {
        EventType::KeyPressed
    }

    fn get_name(&self) -> (r: &str) {
        "KeyPressed"
    }

    fn get_category_flags(&self) -> (r: EventCategory) {
        EventCategory::keyboard().or(EventCategory::input())
    }
}

pub struct KeyReleasedEvent {
    pub key_code: KeyCode,
}

impl KeyEvent for KeyReleasedEvent {
    open spec fn key(&self) -> KeyCode {
        self.key_code
    }

    fn get_key_code(&self) -> (r: &KeyCode) {
        &self.key_code
    }
}

impl Event for KeyReleasedEvent {
    open spec fn kind(&self) -> EventType {
        EventType::KeyReleased
    }

    open spec fn name(&self) -> Seq<char> {
        "KeyReleased"@
    }

    open spec fn categories(&self) -> EventCategory {
        EventCategory { bits: KEYBOARD_BIT | INPUT_BIT }
    }

    fn get_event_type(&self) -> (r: EventType) {
        EventType::KeyReleased
    }

    fn get_name(&self) -> (r: &str) {
        "KeyReleased"
    }

    fn get_category_flags(&self) -> (r: EventCategory) {
        EventCategory::keyboard().or(EventCategory::input())
    }
}

/// A key typed as text.
pub struct KeyTypedEvent {
    pub key_code: KeyCode,
}

impl KeyEvent for KeyTypedEvent {
    open spec fn key(&self) -> KeyCode {
        self.key_code
    }

    fn get_key_code(&self) -> (r: &KeyCode) {
        &self.key_code
    }
}

impl Event for KeyTypedEvent {
    open spec fn kind(&self) -> EventType {
        EventType::KeyTyped
    }

    open spec fn name(&self) -> Seq<char> {
        "KeyTyped"@
    }

    open spec fn categories(&self) -> EventCategory {
        EventCategory { bits: KEYBOARD_BIT | INPUT_BIT }
    }

    fn get_event_type(&self) -> (r: EventType) {
        EventType::KeyTyped
    }

    fn get_name(&self) -> (r: &str) {
        "KeyTyped"
    }

    fn get_category_flags(&self) -> (r: EventCategory) {
        EventCategory::keyboard().or(EventCategory::input())
    }
}

} // verus!
