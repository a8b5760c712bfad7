//! Access to a device's geolocation system: coordinates, service status and
//! power-mode tuning behind one platform-independent facade.

mod device;
mod geolocator;
mod simulated;
mod sink;
mod types;

pub use device::DeviceGeolocator;
pub use geolocator::Geolocator;
pub use simulated::{
    delivered_after, lemma_positions_delivered_exactly, position_events, reading_after,
    status_after, SimulatedDevice,
};
pub use sink::EventSink;
pub use types::{
    error_text, lemma_power_modes_exclusive, Access, Error, Event, Geocoordinates, PowerMode,
    Status, MAX_LATITUDE_E7, MAX_LONGITUDE_E7,
};
