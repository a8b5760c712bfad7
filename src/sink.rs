//! Destinations that a device forwards its events to.

use vstd::prelude::*;
use crate::types::Event;

verus! {

/// A channel-like destination accepting events, one at a time, in order.
pub trait EventSink {
    /// Accepts one event.
    fn accept(&mut self, event: Event);
}

/// A queue that keeps every event it is sent, oldest first.
impl EventSink for Vec<Event> {
    fn accept(&mut self, event: Event) {
        self.push(event);
    }
}

} // verus!
