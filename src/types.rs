//! The value types that flow between a platform's location service and its callers.

use vstd::prelude::*;
use vstd::string::*;

verus! {

/// Largest magnitude of a latitude, in units of 1e-7 degree.
pub const MAX_LATITUDE_E7: i32 = 900_000_000;

/// Largest magnitude of a longitude, in units of 1e-7 degree.
pub const MAX_LONGITUDE_E7: i32 = 1_800_000_000;

/// Describes a position in the world.
///
/// Both angles are fixed-point, in units of 1e-7 degree (about 1.1 cm at the
/// equator), so that a position is handed on without any rounding.
#[derive(Debug, Clone, Copy, PartialEq, Eq, Structural)]
pub struct Geocoordinates {
    pub latitude: i32,
    pub longitude: i32,
}

impl Geocoordinates {
    /// Whether both angles lie on the globe. This layer does not enforce it:
    /// the platform reporting a position is responsible for its range.
    pub open spec fn on_globe(self) -> bool {
        -MAX_LATITUDE_E7 <= self.latitude <= MAX_LATITUDE_E7
            && -MAX_LONGITUDE_E7 <= self.longitude <= MAX_LONGITUDE_E7
    }

    pub fn new(latitude: i32, longitude: i32) -> (r: Geocoordinates)
        ensures
            r.latitude == latitude,
            r.longitude == longitude,
    {
        Geocoordinates { latitude, longitude }
    }

    /// Whether both angles lie on the globe.
    pub fn is_on_globe(&self) -> (r: bool)
        ensures
            r == self.on_globe(),
    {
        -MAX_LATITUDE_E7 <= self.latitude && self.latitude <= MAX_LATITUDE_E7
            && -MAX_LONGITUDE_E7 <= self.longitude && self.longitude <= MAX_LONGITUDE_E7
    }
}

/// To conserve battery, some devices allow setting a desired accuracy based on your use-case.
#[derive(Debug, Clone, Copy, PartialEq, Eq, Structural)]
pub enum PowerMode {
    /// Will generally enable the on-board GPS for precise coordinates.
    High,
    /// Will generally use cell towers or WiFi beacons to determine the device's location.
    Low,
}

/// Every power mode is exactly one of `High` and `Low`.
pub proof fn lemma_power_modes_exclusive(mode: PowerMode)
    ensures
        (mode == PowerMode::High) != (mode == PowerMode::Low),
{
}

/// Represents a geolocation event.
#[derive(Debug, Clone, Copy, PartialEq, Eq, Structural)]
pub enum Event {
    /// The status of the device has changed.
    StatusChanged(Status),
    /// New coordinates are available.
    NewGeocoordinates(Geocoordinates),
}

/// Describes whether your application has access or not.
#[derive(Debug, Clone, Copy, PartialEq, Eq, Structural)]
pub enum Access {
    Allowed,
    Denied,
    /// This is returned when the access level was not able to be determined.
    Unspecified,
}

/// Describes the geolocation device's status.
#[derive(Debug, Clone, Copy, PartialEq, Eq, Structural)]
pub enum Status {
    /// Location service or device is ready and has geo data.
    Ready,
    /// Location service or device is disabled.
    Disabled,
    /// Location service or device is not available.
    NotAvailable,
    /// Location service or device is initializing.
    Initializing,
    /// Unable to determine location service or device status. (This shouldn't happen)
    Unknown,
}

/// Describes errors that may occur when utilizing the geolocation abstraction.
#[derive(Debug)]
pub enum Error {
    /// No position is available yet.
    NotInitialized,
    /// Access was denied, or revoked during use.
    AccessDenied,
    /// An internal lock of the platform's service is unusable.
    Poisoned,
    /// Any other failure the platform reports, with its own diagnostic.
    DeviceError(String),
}

/// The text an error is shown with.
pub open spec fn error_text(e: Error) -> Seq<char> {
    match e {
        Error::NotInitialized => "not initialized"@,
        Error::AccessDenied => "access denied (access may have been revoked during use)"@,
        Error::Poisoned => "the internal read/write lock has been poisioned"@,
        Error::DeviceError(m) => "a device error has occured: "@ + m@,
    }
}

impl Clone for Error {
    fn clone(&self) -> (r: Self)
        ensures
            r == *self,
    {
        match self {
            Error::NotInitialized => Error::NotInitialized,
            Error::AccessDenied => Error::AccessDenied,
            Error::Poisoned => Error::Poisoned,
            Error::DeviceError(m) => Error::DeviceError(m.clone()),
        }
    }
}

impl Error {
    /// The text this error is shown with.
    pub fn to_string(&self) -> (r: String)
        ensures
            r@ == error_text(*self),
    {
        match self {
            Error::NotInitialized => String::from_str("not initialized"),
            Error::AccessDenied => String::from_str(
                "access denied (access may have been revoked during use)",
            ),
            Error::Poisoned => String::from_str("the internal read/write lock has been poisioned"),
            Error::DeviceError(m) => {
                let r = String::from_str("a device error has occured: ");
                r.concat(m.as_str())
            },
        }
    }
}

} // verus!
