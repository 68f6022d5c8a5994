//! Events as individual types, each knowing its kind, its name and its categories.
use vstd::prelude::*;

verus! {

/// The kind of an event.
#[derive(Debug, Clone, Copy, PartialEq, Eq, Hash, Structural)]
pub enum EventType {
    WindowClose,
    WindowResize,
    WindowFocus,
    WindowLostFocus,
    WindowMoved,
    AppTick,
    AppUpdate,
    AppRender,
    KeyPressed,
    KeyReleased,
    KeyTyped,
    MouseButtonPressed,
    MouseButtonReleased,
    MouseMoved,
    MouseScrolled,
}

/// A set of event categories, one bit each.
#[derive(Debug, Clone, Copy, PartialEq, Eq, Hash, Structural)]
pub struct EventCategory {
    pub bits: u8,
}

pub const APPLICATION_BIT: u8 = 1;
pub const INPUT_BIT: u8 = 2;
pub const KEYBOARD_BIT: u8 = 4;
pub const MOUSE_BIT: u8 = 8;
pub const MOUSE_BUTTON_BIT: u8 = 16;

impl EventCategory {
    /// Whether every category of `other` is in this set.
    pub open spec fn spec_contains(self, other: EventCategory) -> bool {
        self.bits & other.bits == other.bits
    }

    pub fn application() -> (r: Self)
        ensures
            r.bits == APPLICATION_BIT,
    {
        EventCategory { bits: APPLICATION_BIT }
    }

    pub fn input() -> (r: Self)
        ensures
            r.bits == INPUT_BIT,
    {
        EventCategory { bits: INPUT_BIT }
    }

    pub fn keyboard() -> (r: Self)
        ensures
            r.bits == KEYBOARD_BIT,
    {
        EventCategory { bits: KEYBOARD_BIT }
    }

    pub fn mouse() -> (r: Self)
        ensures
            r.bits == MOUSE_BIT,
    {
        EventCategory { bits: MOUSE_BIT }
    }

    pub fn mouse_button() -> (r: Self)
        ensures
            r.bits == MOUSE_BUTTON_BIT,
    {
        EventCategory { bits: MOUSE_BUTTON_BIT }
    }

    /// The empty set.
    pub fn none() -> (r: Self)
        ensures
            r.bits == 0,
    {
        EventCategory { bits: 0 }
    }

    /// The categories of both sets.
    pub fn or(self, other: Self) -> (r: Self)
        ensures
            r.bits == self.bits | other.bits,
    {
        EventCategory { bits: self.bits | other.bits }
    }

    /// The categories the two sets share.
    pub fn and(self, other: Self) -> (r: Self)
        ensures
            r.bits == self.bits & other.bits,
    {
        EventCategory { bits: self.bits & other.bits }
    }

    #[verifier::when_used_as_spec(spec_contains)]
    pub fn contains(self, other: Self) -> (r: bool)
        ensures
            r == self.spec_contains(other),
    {
        self.bits & other.bits == other.bits
    }

    /// Whether the two sets share a category.
    pub fn intersects(self, other: Self) -> (r: bool)
        ensures
            r == (self.bits & other.bits != 0),
    {
        self.bits & other.bits != 0
    }
}

/// An event type: its kind, its name and the categories it belongs to.
pub trait Event {
    spec fn kind(&self) -> EventType;

    spec fn name(&self) -> Seq<char>;

    spec fn categories(&self) -> EventCategory;

    fn get_event_type(&self) -> (r: EventType)
        ensures
            r == self.kind(),
    ;

    fn get_name(&self) -> (r: &str)
        ensures
            r@ == self.name(),
    ;

    fn get_category_flags(&self) -> (r: EventCategory)
        ensures
            r == self.categories(),
    ;

    /// Whether the event belongs to every category of `category`.
    fn is_in_category(&self, category: EventCategory) -> (r: bool)
        ensures
            r == self.categories().spec_contains(category),
    {
        self.get_category_flags().contains(category)
    }

    /// A readable description: the event's name.
    fn to_string(&self) -> (r: String)
        ensures
            r@ == self.name(),
    {
        self.get_name().to_owned()
    }
}

/// Something that reacts to events of type `T`.
pub trait EventHandler<T: Event> {
    fn handle(&self, event: &T);
}

/// Hands each event of type `U` to every registered handler, in registration order.
#[verifier::reject_recursive_types(U)]
pub struct EventDispatcher<'a, U: Event> {
    handlers: Vec<&'a dyn EventHandler<U>>,
}

impl<'a, U: Event> EventDispatcher<'a, U> {
    /// The number of registered handlers.
    pub closed spec fn handler_count(&self) -> nat {
        self.handlers@.len()
    }

    pub fn new() -> (r: Self)
        ensures
            r.handler_count() == 0,
    {
        EventDispatcher { handlers: Vec::new() }
    }

    pub fn add_event_handler(&mut self, handler: &'a dyn EventHandler<U>)
        ensures
            final(self).handler_count() == old(self).handler_count() + 1,
    {
        let ghost before = self.handlers@;
        self.handlers.push(handler);
        assert(self.handlers@ == before.push(handler));
        proof {
            vstd::seq::axiom_seq_push_len(before, handler);
        }
    }

    pub fn dispatch(&self, event: &U) {
        let mut i: usize = 0;
        while i < self.handlers.len()
            decreases self.handlers@.len() - i,
        {
            self.handlers[i].handle(event);
            i = i + 1;
        }
    }
}

} // verus!
