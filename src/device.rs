//! The capability that each platform's location service provides.

use vstd::prelude::*;
use crate::sink::EventSink;
use crate::types::{Error, Event, Geocoordinates, PowerMode};

verus! {

/// A platform's location session, as the facade sees it.
///
/// Its state is described by four views: the power mode it is configured
/// with, what a query of the latest position reports, the listener that is
/// registered, if any, and the events handed to a listener so far.
pub trait DeviceGeolocator: Sized {
    /// Where the session forwards its events.
    type Listener: EventSink;

    /// The power mode the session is configured with.
    spec fn power_mode(&self) -> PowerMode;

    /// What a query of the latest position reports in this state.
    spec fn reading(&self) -> Result<Geocoordinates, Error>;

    /// The listener that receives the session's events, if one is registered.
    spec fn registered(&self) -> Option<Self::Listener>;

    /// The events handed to a listener so far, oldest first.
    spec fn delivered(&self) -> Seq<Event>;

    /// Starts a session. A fresh session knows no position yet, has no
    /// listener and has delivered nothing.
    fn open() -> (r: Result<Self, Error>)
        ensures
            r matches Ok(d) ==> d.reading() == Err::<Geocoordinates, Error>(Error::NotInitialized)
                && d.registered() is None
                && d.delivered() == Seq::<Event>::empty(),
    ;

    /// The most recent known position, or why there is none.
    fn get_coordinates(&self) -> (r: Result<Geocoordinates, Error>)
        ensures
            r == self.reading(),
    ;

    /// Registers `listener` as the destination of every later event. Nothing
    /// emitted before is handed to it.
    fn listen(&mut self, listener: Self::Listener) -> (r: Result<(), Error>)
        ensures
            r is Ok ==> final(self).registered() == Some(listener),
            r is Err ==> final(self).registered() == old(self).registered(),
            final(self).delivered() == old(self).delivered(),
            final(self).power_mode() == old(self).power_mode(),
            final(self).reading() == old(self).reading(),
    ;

    /// Asks for a power mode; nothing else of the session changes.
    fn set_power_mode(&mut self, power_mode: PowerMode) -> (r: Result<(), Error>)
        ensures
            r is Ok ==> final(self).power_mode() == power_mode,
            r is Err ==> final(self).power_mode() == old(self).power_mode(),
            final(self).reading() == old(self).reading(),
            final(self).registered() == old(self).registered(),
            final(self).delivered() == old(self).delivered(),
    ;
}

} // verus!
