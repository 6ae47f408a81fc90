//! Handles on registered host callbacks.
use vstd::prelude::*;

verus! {

/// Removes an event listener when consumed.
pub struct EventListenerHandle<F: FnOnce()> {
    pub remove_listener: F,
}

impl<F: FnOnce()> EventListenerHandle<F> {
    /// Runs the removal once.
    pub fn remove(self)
        requires
            self.remove_listener.requires(()),
        ensures
            self.remove_listener.ensures((), ()),
    {
        (self.remove_listener)()
    }
}

} // verus!
