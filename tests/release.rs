use geolocation::{Event, EventSink, Geolocator, PowerMode, SimulatedDevice, Status};
use std::cell::Cell;
use std::rc::Rc;

/// A listener that counts how often it is dropped, standing for the
/// resources a session holds.
struct CountingSink {
    releases: Rc<Cell<u32>>,
    accepted: u32,
}

impl Drop for CountingSink {
    fn drop(&mut self) {
        self.releases.set(self.releases.get() + 1);
    }
}

impl EventSink for CountingSink {
    fn accept(&mut self, _event: Event) {
        self.accepted += 1;
    }
}

#[test]
fn dropping_the_geolocator_releases_its_device_once() {
    let releases = Rc::new(Cell::new(0));
    let mut g = Geolocator::<SimulatedDevice<CountingSink>>::new(PowerMode::Low).unwrap();
    g.listen(CountingSink { releases: releases.clone(), accepted: 0 }).unwrap();
    g.device_mut().update_status(Status::Ready);
    assert_eq!(g.device().listener().unwrap().accepted, 1);
    assert_eq!(releases.get(), 0);
    drop(g);
    assert_eq!(releases.get(), 1);
}
