//! The slot through which the main loop picks up its pending event.

use vstd::prelude::*;

verus! {

/// Holds at most one event for the main loop to take.
pub struct InkplateMainEventManager<E> {
    current_event: Option<E>,
}

impl<E> InkplateMainEventManager<E> {
    /// The event waiting to be taken, if there is one.
    pub closed spec fn pending(&self) -> Option<E> {
        self.current_event
    }

    /// An event manager with no event waiting.
    pub fn new() -> (manager: Self)
        ensures
            manager.pending() is None,
    {
        Self { current_event: None }
    }

    /// Prepares the manager for the main loop. Nothing needs preparing.
    pub fn setup(&mut self)
        ensures
            final(self).pending() == old(self).pending(),
    {
    }

    /// Called once per turn of the main loop.
    pub fn event_loop_handler(&mut self)
        ensures
            final(self).pending() == old(self).pending(),
    {
        // does nothing
    }

    /// Takes the waiting event, leaving none behind.
    pub fn get_event(&mut self) -> (event: Option<E>)
        ensures
            event == old(self).pending(),
            final(self).pending() is None,
    {
        self.current_event.take()
    }
}

} // verus!
