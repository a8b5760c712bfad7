//! A location session driven by its owner rather than by an operating system.

use vstd::prelude::*;
use crate::device::DeviceGeolocator;
use crate::sink::EventSink;
use crate::types::{Error, Event, Geocoordinates, PowerMode, Status};

verus! {

/// What a query reports after `events` are fed in, starting from `reading`:
/// the last position among them, else `reading`.
pub open spec fn reading_after(
    reading: Result<Geocoordinates, Error>,
    events: Seq<Event>,
) -> Result<Geocoordinates, Error>
    decreases events.len(),
{
    if events.len() == 0 {
        reading
    } else {
        match events.last() {
            Event::NewGeocoordinates(c) => Ok(c),
            Event::StatusChanged(_) => reading_after(reading, events.drop_last()),
        }
    }
}

/// The status after `events` are fed in, starting from `status`: the last
/// status change among them, else `status`.
pub open spec fn status_after(status: Status, events: Seq<Event>) -> Status
    decreases events.len(),
{
    if events.len() == 0 {
        status
    } else {
        match events.last() {
            Event::StatusChanged(s) => s,
            Event::NewGeocoordinates(_) => status_after(status, events.drop_last()),
        }
    }
}

/// What a listener has been handed after `event` is fed in: `event` is
/// appended when a listener is registered.
pub open spec fn delivered_after(listening: bool, delivered: Seq<Event>, event: Event) -> Seq<Event> {
    if listening {
        delivered.push(event)
    } else {
        delivered
    }
}

/// A location session whose positions, failures and status changes are fed
/// in by its owner: for hosts without a location service, for replaying a
/// recorded trace, and for exercising code built on the facade.
///
/// Every event fed in while a listener is registered is forwarded to it at
/// once; the ghost `delivered` records those events in the order they were
/// handed over. A listener stays registered as it accepts them, though its
/// own state changes with each one.
pub struct SimulatedDevice<S: EventSink> {
    power_mode: PowerMode,
    reading: Result<Geocoordinates, Error>,
    status: Status,
    listener: Option<S>,
    delivered: Ghost<Seq<Event>>,
}

impl<S: EventSink> SimulatedDevice<S> {
    /// The status last fed in.
    pub closed spec fn status_view(&self) -> Status {
        self.status
    }

    /// A session in high power mode, with no position, status `Initializing`
    /// and no listener.
    pub fn new() -> (r: Self)
        ensures
            r.power_mode() == PowerMode::High,
            r.reading() == Err::<Geocoordinates, Error>(Error::NotInitialized),
            r.status_view() == Status::Initializing,
            r.registered() is None,
            r.delivered() == Seq::<Event>::empty(),
    {
        SimulatedDevice {
            power_mode: PowerMode::High,
            reading: Err(Error::NotInitialized),
            status: Status::Initializing,
            listener: None,
            delivered: Ghost(Seq::empty()),
        }
    }

    /// Hands `event` to the listener, if any.
    fn forward(&mut self, event: Event)
        ensures
            final(self).delivered() == delivered_after(
                old(self).registered() is Some,
                old(self).delivered(),
                event,
            ),
            (final(self).registered() is Some) == (old(self).registered() is Some),
            final(self).power_mode() == old(self).power_mode(),
            final(self).reading() == old(self).reading(),
            final(self).status_view() == old(self).status_view(),
    {
        match self.listener.take() {
            Some(mut listener) => {
                listener.accept(event);
                self.listener = Some(listener);
                self.delivered = Ghost(self.delivered@.push(event));
            },
            None => {},
        }
    }

    /// A new position: later queries report it, and the listener gets a
    /// `NewGeocoordinates` event carrying it.
    pub fn update_coordinates(&mut self, coordinates: Geocoordinates)
        ensures
            final(self).reading() == Ok::<Geocoordinates, Error>(coordinates),
            final(self).delivered() == delivered_after(
                old(self).registered() is Some,
                old(self).delivered(),
                Event::NewGeocoordinates(coordinates),
            ),
            (final(self).registered() is Some) == (old(self).registered() is Some),
            final(self).power_mode() == old(self).power_mode(),
            final(self).status_view() == old(self).status_view(),
    {
        self.reading = Ok(coordinates);
        self.forward(Event::NewGeocoordinates(coordinates));
    }

    /// A status change: the listener gets a `StatusChanged` event carrying it.
    pub fn update_status(&mut self, status: Status)
        ensures
            final(self).status_view() == status,
            final(self).delivered() == delivered_after(
                old(self).registered() is Some,
                old(self).delivered(),
                Event::StatusChanged(status),
            ),
            (final(self).registered() is Some) == (old(self).registered() is Some),
            final(self).power_mode() == old(self).power_mode(),
            final(self).reading() == old(self).reading(),
    {
        self.status = status;
        self.forward(Event::StatusChanged(status));
    }

    /// A failure: later queries report `error` until a new position comes in.
    /// Listeners are not told.
    pub fn report_error(&mut self, error: Error)
        ensures
            final(self).reading() == Err::<Geocoordinates, Error>(error),
            final(self).delivered() == old(self).delivered(),
            final(self).registered() == old(self).registered(),
            final(self).power_mode() == old(self).power_mode(),
            final(self).status_view() == old(self).status_view(),
    {
        self.reading = Err(error);
    }

    /// Feeds in a recorded trace of events, in order: each position and each
    /// status change takes effect as `update_coordinates` and `update_status` say.
    pub fn replay(&mut self, events: &Vec<Event>)
        ensures
            final(self).delivered() == if old(self).registered() is Some {
                old(self).delivered() + events@
            } else {
                old(self).delivered()
            },
            final(self).reading() == reading_after(old(self).reading(), events@),
            final(self).status_view() == status_after(old(self).status_view(), events@),
            (final(self).registered() is Some) == (old(self).registered() is Some),
            final(self).power_mode() == old(self).power_mode(),
    {
        let mut i: usize = 0;
        while i < events.len()
            invariant
                i <= events@.len(),
                (self.registered() is Some) == (old(self).registered() is Some),
                self.power_mode() == old(self).power_mode(),
                self.delivered() == if old(self).registered() is Some {
                    old(self).delivered() + events@.subrange(0, i as int)
                } else {
                    old(self).delivered()
                },
                self.reading() == reading_after(old(self).reading(), events@.subrange(0, i as int)),
                self.status_view() == status_after(old(self).status_view(), events@.subrange(0, i as int)),
            decreases events@.len() - i,
        {
            let ghost before = events@.subrange(0, i as int);
            let ghost after = events@.subrange(0, i + 1);
            match events[i] {
                Event::NewGeocoordinates(c) => self.update_coordinates(c),
                Event::StatusChanged(s) => self.update_status(s),
            }
            proof {
                assert(after == before.push(events@[i as int]));
                assert(after.drop_last() == before);
            }
            i = i + 1;
        }
        proof {
            assert(events@.subrange(0, events@.len() as int) == events@);
        }
    }

    /// The power mode the session is configured with.
    pub fn configured_power_mode(&self) -> (r: PowerMode)
        ensures
            r == self.power_mode(),
    {
        self.power_mode
    }

    /// The status last fed in.
    pub fn status(&self) -> (r: Status)
        ensures
            r == self.status_view(),
    {
        self.status
    }

    /// The listener, if one is registered.
    pub fn listener(&self) -> (r: Option<&S>)
        ensures
            r matches Some(l) ==> self.registered() == Some(*l),
            r is None <==> self.registered() is None,
    {
        self.listener.as_ref()
    }
}

/// The events that feeding in `coordinates`, one position after another, hands
/// to a listener.
pub open spec fn position_events(coordinates: Seq<Geocoordinates>) -> Seq<Event> {
    coordinates.map_values(|c: Geocoordinates| Event::NewGeocoordinates(c))
}

/// Feeding N positions to a listening session delivers exactly N
/// `NewGeocoordinates` events after those delivered before, each carrying its
/// position unchanged, in the order fed.
pub proof fn lemma_positions_delivered_exactly(
    before: Seq<Event>,
    coordinates: Seq<Geocoordinates>,
)
    ensures
        (before + position_events(coordinates)).len() == before.len() + coordinates.len(),
        forall|i: int|
            0 <= i < coordinates.len() ==> #[trigger] (before + position_events(
                coordinates,
            ))[before.len() + i] == Event::NewGeocoordinates(coordinates[i]),
{
}

impl<S: EventSink> DeviceGeolocator for SimulatedDevice<S> {
    type Listener = S;

    closed spec fn power_mode(&self) -> PowerMode {
        self.power_mode
    }

    closed spec fn reading(&self) -> Result<Geocoordinates, Error> {
        self.reading
    }

    closed spec fn registered(&self) -> Option<S> {
        self.listener
    }

    closed spec fn delivered(&self) -> Seq<Event> {
        self.delivered@
    }

    fn open() -> (r: Result<Self, Error>)
        ensures
            r matches Ok(d) && d.power_mode() == PowerMode::High
                && d.status_view() == Status::Initializing,
    {
        Ok(Self::new())
    }

    fn get_coordinates(&self) -> (r: Result<Geocoordinates, Error>) {
        match &self.reading {
            Ok(c) => Ok(*c),
            Err(e) => Err(e.clone()),
        }
    }

    /// Registers `listener`, replacing any earlier one.
    fn listen(&mut self, listener: S) -> (r: Result<(), Error>)
        ensures
            r is Ok,
            final(self).status_view() == old(self).status_view(),
    {
        self.listener = Some(listener);
        Ok(())
    }

    fn set_power_mode(&mut self, power_mode: PowerMode) -> (r: Result<(), Error>)
        ensures
            r is Ok,
            final(self).status_view() == old(self).status_view(),
    {
        self.power_mode = power_mode;
        Ok(())
    }
}

} // verus!
