//! A value with subscribers.
use vstd::prelude::*;

verus! {

/// A value that may be unset, and the callbacks waiting on it.
pub struct Subscribable<A, F> {
    pub val: Option<A>,
    pub callbacks: Vec<F>,
}

impl<A, F> Subscribable<A, F> {
    /// No value and no subscriber.
    pub fn new() -> (r: Self)
        ensures
            r.val.is_none(),
            r.callbacks@.len() == 0,
    {
        Subscribable { val: None, callbacks: Vec::new() }
    }

    /// Adds a subscriber after the existing ones.
    pub fn subscribe(&mut self, callback: F)
        ensures
            final(self).callbacks@ == old(self).callbacks@.push(callback),
            final(self).val == old(self).val,
    {
        self.callbacks.push(callback);
    }
}

impl<A: Copy, F> Subscribable<A, F> {
    /// The current value.
    pub fn get_val(&self) -> (r: Option<A>)
        ensures
            r == self.val,
    {
        self.val
    }
}

} // verus!
