//! Handing one event to every registered handler.
use vstd::prelude::*;
use super::Event;

verus! {

/// Something that reacts to events.
pub trait EventHandler {
    fn handle(&self, event: &Event);
}

/// Hands each event to every registered handler, in registration order.
pub struct EventDispatcher<'a> {
    handlers: Vec<&'a dyn EventHandler>,
}

impl<'a> EventDispatcher<'a> {
    /// The number of registered handlers.
    pub closed spec fn handler_count(&self) -> nat {
        self.handlers@.len()
    }

    pub fn new() -> (r: Self)
        ensures
            r.handler_count() == 0,
    {
        EventDispatcher { handlers: Vec::new() }
    }

    pub fn add_event_handler(&mut self, handler: &'a dyn EventHandler)
        ensures
            final(self).handler_count() == old(self).handler_count() + 1,
    {
        let ghost before = self.handlers@;
        self.handlers.push(handler);
        assert(self.handlers@ == before.push(handler));
        proof {
            vstd::seq::axiom_seq_push_len(before, handler);
        }
    }

    pub fn dispatch(&self, event: &Event) {
        let mut i: usize = 0;
        while i < self.handlers.len()
            decreases self.handlers@.len() - i,
        {
            self.handlers[i].handle(event);
            i = i + 1;
        }
    }
}

} // verus!
