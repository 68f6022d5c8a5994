//! Window and application events as individual types.
use vstd::prelude::*;
use super::event::{Event, EventCategory, EventType, APPLICATION_BIT};

verus! {

pub struct WindowResizeEvent {
    pub width: u32,
    pub height: u32,
}

impl Event for WindowResizeEvent {
    open spec fn kind(&self) -> EventType {
        EventType::WindowResize
    }

    open spec fn name(&self) -> Seq<char> {
        "WindowResizeEvent"@
    }

    open spec fn categories(&self) -> EventCategory {
        EventCategory { bits: APPLICATION_BIT }
    }

    fn get_event_type(&self) -> (r: EventType) {
        EventType::WindowResize
    }

    fn get_name(&self) -> (r: &str) {
        "WindowResizeEvent"
    }

    fn get_category_flags(&self) -> (r: EventCategory) {
        EventCategory::application()
    }
}

pub struct WindowCloseEvent;

impl Event for WindowCloseEvent {
    open spec fn kind(&self) -> EventType {
        EventType::WindowClose
    }

    open spec fn name(&self) -> Seq<char> {
        "WindowCloseEvent"@
    }

    open spec fn categories(&self) -> EventCategory {
        EventCategory { bits: APPLICATION_BIT }
    }

    fn get_event_type(&self) -> (r: EventType) {
        EventType::WindowClose
    }

    fn get_name(&self) -> (r: &str) {
        "WindowCloseEvent"
    }

    fn get_category_flags(&self) -> (r: EventCategory) {
        EventCategory::application()
    }
}

pub struct AppTickEvent;

impl Event for AppTickEvent {
    open spec fn kind(&self) -> EventType {
        EventType::AppTick
    }

    open spec fn name(&self) -> Seq<char> {
        "AppTickEvent"@
    }

    open spec fn categories(&self) -> EventCategory {
        EventCategory { bits: APPLICATION_BIT }
    }

    fn get_event_type(&self) -> (r: EventType) {
        EventType::AppTick
    }

    fn get_name(&self) -> (r: &str) {
        "AppTickEvent"
    }

    fn get_category_flags(&self) -> (r: EventCategory) {
        EventCategory::application()
    }
}

pub struct AppUpdateEvent;

impl Event for AppUpdateEvent {
    open spec fn kind(&self) -> EventType {
        EventType::AppUpdate
    }

    open spec fn name(&self) -> Seq<char> {
        "AppUpdateEvent"@
    }

    open spec fn categories(&self) -> EventCategory {
        EventCategory { bits: APPLICATION_BIT }
    }

    fn get_event_type(&self) -> (r: EventType) {
        EventType::AppUpdate
    }

    fn get_name(&self) -> (r: &str) {
        "AppUpdateEvent"
    }

    fn get_category_flags(&self) -> (r: EventCategory) {
        EventCategory::application()
    }
}

pub struct AppRenderEvent;

impl Event for AppRenderEvent {
    open spec fn kind(&self) -> EventType {
        EventType::AppRender
    }

    open spec fn name(&self) -> Seq<char> {
        "AppRenderEvent"@
    }

    open spec fn categories(&self) -> EventCategory {
        EventCategory { bits: APPLICATION_BIT }
    }

    fn get_event_type(&self) -> (r: EventType) {
        EventType::AppRender
    }

    fn get_name(&self) -> (r: &str) {
        "AppRenderEvent"
    }

    fn get_category_flags(&self) -> (r: EventCategory) {
        EventCategory::application()
    }
}

} // verus!
