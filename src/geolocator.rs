//! The platform-independent facade over one location session.

use vstd::prelude::*;
use crate::device::DeviceGeolocator;
use crate::types::{Error, Event, Geocoordinates, PowerMode};

verus! {

/// Represents the geolocation abstraction. It is the sole owner of its
/// platform session, which lives exactly as long as it does.
pub struct Geolocator<D: DeviceGeolocator> {
    device: D,
}

impl<D: DeviceGeolocator> Geolocator<D> {
    /// The session this facade owns.
    pub closed spec fn session(&self) -> D {
        self.device
    }

    /// Create a new geolocator: starts a platform session and applies `power_mode` to it.
    pub fn new(power_mode: PowerMode) -> (r: Result<Self, Error>)
        ensures
            r matches Ok(g) ==> g.session().power_mode() == power_mode
                && g.session().reading() == Err::<Geocoordinates, Error>(Error::NotInitialized)
                && g.session().registered() is None
                && g.session().delivered() == Seq::<Event>::empty(),
    {
        let device = D::open()?;
        Self::with_device(device, power_mode)
    }

    /// Wraps a session that is already open, applying `power_mode` to it.
    pub fn with_device(device: D, power_mode: PowerMode) -> (r: Result<Self, Error>)
        ensures
            r matches Ok(g) ==> g.session().power_mode() == power_mode
                && g.session().reading() == device.reading()
                && g.session().registered() == device.registered()
                && g.session().delivered() == device.delivered(),
    {
        let mut device = device;
        device.set_power_mode(power_mode)?;
        Ok(Geolocator { device })
    }

    /// Get the latest coordinates from the device; its error comes back as it is.
    pub fn get_coordinates(&self) -> (r: Result<Geocoordinates, Error>)
        ensures
            r == self.session().reading(),
    {
        self.device.get_coordinates()
    }

    /// Subscribe `listener` to the session's later events; nothing emitted
    /// before is handed to it.
    pub fn listen(&mut self, listener: D::Listener) -> (r: Result<(), Error>)
        ensures
            r is Ok ==> final(self).session().registered() == Some(listener),
            r is Err ==> final(self).session().registered() == old(self).session().registered(),
            final(self).session().delivered() == old(self).session().delivered(),
            final(self).session().power_mode() == old(self).session().power_mode(),
            final(self).session().reading() == old(self).session().reading(),
    {
        self.device.listen(listener)
    }

    /// Reconfigures the session's power mode; nothing else changes.
    pub fn set_power_mode(&mut self, power_mode: PowerMode) -> (r: Result<(), Error>)
        ensures
            r is Ok ==> final(self).session().power_mode() == power_mode,
            r is Err ==> final(self).session().power_mode() == old(self).session().power_mode(),
            final(self).session().reading() == old(self).session().reading(),
            final(self).session().registered() == old(self).session().registered(),
            final(self).session().delivered() == old(self).session().delivered(),
    {
        self.device.set_power_mode(power_mode)
    }

    /// The session this facade owns.
    pub fn device(&self) -> (r: &D)
        ensures
            *r == self.session(),
    {
        &self.device
    }

    /// The session this facade owns, to drive it: what is done through the
    /// reference is the facade's new state.
    pub fn device_mut(&mut self) -> (r: &mut D)
        ensures
            *r == old(self).session(),
            final(self).session() == *final(r),
    {
        &mut self.device
    }
}

} // verus!
