//! The boundary to the OS keyboard hook: a callback holder that receives
//! raw press/release notifications one at a time, in OS-observed order.
//!
//! The hook itself (the listener that produces the events) lives outside
//! the library; it drives `notify_press` and `notify_release`.

use vstd::prelude::*;

use crate::key::Key;

verus! {

/// Implemented by the event consumer; the keyboard hook calls one of these
/// for every raw key event it observes.
pub trait KeyDetectCallback {
    fn key_pressed(&mut self, key: &Key);

    fn key_released(&mut self, key: &Key);
}

/// Holds the consumer of raw key events until the hook is started.
pub struct KeyDetect<C: KeyDetectCallback> {
    callback: C,
}

impl<C: KeyDetectCallback> KeyDetect<C> {
    /// The held consumer.
    pub closed spec fn spec_callback(&self) -> C {
        self.callback
    }

    pub fn new(callback: C) -> (r: Self)
        ensures
            r.spec_callback() == callback,
    {
        KeyDetect { callback }
    }

    /// Hand the consumer back once the hook is done with it.
    pub fn into_callback(self) -> (r: C)
        ensures
            r == self.spec_callback(),
    {
        self.callback
    }

    /// Hand one press notification to the consumer.
    pub fn notify_press(&mut self, key: Key) {
        self.callback.key_pressed(&key);
    }

    /// Hand one release notification to the consumer.
    pub fn notify_release(&mut self, key: Key) {
        self.callback.key_released(&key);
    }
}

} // verus!
