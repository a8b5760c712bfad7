use geolocation::{
    Access, DeviceGeolocator, Error, Event, EventSink, Geocoordinates, Geolocator, PowerMode,
    SimulatedDevice, Status,
};

type Device = SimulatedDevice<Vec<Event>>;

fn listening_geolocator() -> Geolocator<Device> {
    let mut g = Geolocator::<Device>::new(PowerMode::High).unwrap();
    g.listen(Vec::new()).unwrap();
    g
}

fn delivered(g: &Geolocator<Device>) -> Vec<Event> {
    g.device().listener().unwrap().clone()
}

#[test]
fn fresh_geolocator_is_not_initialized() {
    for mode in [PowerMode::High, PowerMode::Low] {
        let g = Geolocator::<Device>::new(mode).unwrap();
        assert!(matches!(g.get_coordinates(), Err(Error::NotInitialized)));
    }
}

#[test]
fn power_mode_round_trips_without_changing_the_rest() {
    let mut g = listening_geolocator();
    let here = Geocoordinates::new(473_977_000, 85_256_000);
    g.device_mut().update_coordinates(here);
    g.set_power_mode(PowerMode::Low).unwrap();
    assert_eq!(g.device().configured_power_mode(), PowerMode::Low);
    g.set_power_mode(PowerMode::High).unwrap();
    assert_eq!(g.device().configured_power_mode(), PowerMode::High);
    assert_eq!(g.get_coordinates().unwrap(), here);
    assert!(g.device().listener().is_some());
    assert_ne!(PowerMode::High, PowerMode::Low);
}

#[test]
fn new_applies_the_requested_power_mode() {
    let g = Geolocator::<Device>::new(PowerMode::Low).unwrap();
    assert_eq!(g.device().configured_power_mode(), PowerMode::Low);
}

#[test]
fn status_changes_arrive_in_order() {
    let mut g = listening_geolocator();
    g.device_mut().update_status(Status::Initializing);
    g.device_mut().update_status(Status::Ready);
    g.device_mut().update_status(Status::Disabled);
    assert_eq!(
        delivered(&g),
        vec![
            Event::StatusChanged(Status::Initializing),
            Event::StatusChanged(Status::Ready),
            Event::StatusChanged(Status::Disabled),
        ]
    );
    assert_eq!(g.device().status(), Status::Disabled);
}

#[test]
fn access_denied_passes_through_unchanged() {
    let mut g = listening_geolocator();
    g.device_mut().report_error(Error::AccessDenied);
    assert!(matches!(g.get_coordinates(), Err(Error::AccessDenied)));
    assert!(delivered(&g).is_empty());
}

#[test]
fn device_error_keeps_its_message() {
    let mut g = Geolocator::<Device>::new(PowerMode::High).unwrap();
    g.device_mut().report_error(Error::DeviceError("sensor offline".to_string()));
    match g.get_coordinates() {
        Err(Error::DeviceError(m)) => assert_eq!(m, "sensor offline"),
        other => panic!("unexpected {:?}", other),
    }
}

#[test]
fn every_position_is_delivered_exactly_once() {
    let mut g = listening_geolocator();
    let positions = [
        Geocoordinates::new(0, 0),
        Geocoordinates::new(-337_000_000, 1_512_000_000),
        Geocoordinates::new(900_000_000, -1_800_000_000),
        Geocoordinates::new(515_074_000, -1_278_000),
    ];
    for p in positions {
        g.device_mut().update_coordinates(p);
    }
    let got = delivered(&g);
    assert_eq!(got.len(), positions.len());
    for (e, p) in got.iter().zip(positions.iter()) {
        assert_eq!(*e, Event::NewGeocoordinates(*p));
    }
    assert_eq!(g.get_coordinates().unwrap(), positions[3]);
}

#[test]
fn events_before_listening_are_not_replayed() {
    let mut g = Geolocator::<Device>::new(PowerMode::High).unwrap();
    g.device_mut().update_status(Status::Ready);
    g.device_mut().update_coordinates(Geocoordinates::new(7, 8));
    g.listen(Vec::new()).unwrap();
    assert!(delivered(&g).is_empty());
    g.device_mut().update_status(Status::Disabled);
    assert_eq!(delivered(&g), vec![Event::StatusChanged(Status::Disabled)]);
}

#[test]
fn replay_without_listener_still_updates_state() {
    let mut d = Device::new();
    let trace = vec![
        Event::NewGeocoordinates(Geocoordinates::new(1, 1)),
        Event::StatusChanged(Status::NotAvailable),
        Event::NewGeocoordinates(Geocoordinates::new(2, 2)),
        Event::StatusChanged(Status::Ready),
    ];
    d.replay(&trace);
    assert!(d.listener().is_none());
    assert_eq!(d.status(), Status::Ready);
    assert_eq!(d.get_coordinates().unwrap(), Geocoordinates::new(2, 2));
}

#[test]
fn nothing_is_delivered_without_a_listener() {
    let mut d = Device::new();
    d.update_status(Status::Ready);
    d.update_coordinates(Geocoordinates::new(1, 2));
    assert!(d.listener().is_none());
    assert_eq!(d.get_coordinates().unwrap(), Geocoordinates::new(1, 2));
}

#[test]
fn replay_forwards_a_trace_in_order() {
    let mut d = Device::new();
    d.listen(Vec::new()).unwrap();
    let trace = vec![
        Event::StatusChanged(Status::Initializing),
        Event::NewGeocoordinates(Geocoordinates::new(10, 20)),
        Event::StatusChanged(Status::Ready),
        Event::NewGeocoordinates(Geocoordinates::new(30, 40)),
    ];
    d.replay(&trace);
    assert_eq!(d.listener().unwrap(), &trace);
    assert_eq!(d.status(), Status::Ready);
    assert_eq!(d.get_coordinates().unwrap(), Geocoordinates::new(30, 40));
}

#[test]
fn with_device_keeps_the_device_state() {
    let mut d = Device::new();
    d.update_coordinates(Geocoordinates::new(5, 6));
    let g = Geolocator::with_device(d, PowerMode::Low).unwrap();
    assert_eq!(g.get_coordinates().unwrap(), Geocoordinates::new(5, 6));
    assert_eq!(g.device().configured_power_mode(), PowerMode::Low);
}

#[test]
fn vec_sink_keeps_events() {
    let mut v: Vec<Event> = Vec::new();
    v.accept(Event::StatusChanged(Status::Unknown));
    v.accept(Event::StatusChanged(Status::NotAvailable));
    assert_eq!(
        v,
        vec![
            Event::StatusChanged(Status::Unknown),
            Event::StatusChanged(Status::NotAvailable)
        ]
    );
}

#[test]
fn error_texts() {
    assert_eq!(Error::NotInitialized.to_string(), "not initialized");
    assert_eq!(
        Error::AccessDenied.to_string(),
        "access denied (access may have been revoked during use)"
    );
    assert_eq!(
        Error::Poisoned.to_string(),
        "the internal read/write lock has been poisioned"
    );
    assert_eq!(
        Error::DeviceError("gps timeout".to_string()).to_string(),
        "a device error has occured: gps timeout"
    );
}

#[test]
fn error_clone_keeps_message() {
    let e = Error::DeviceError("x".to_string());
    assert!(matches!(e.clone(), Error::DeviceError(m) if m == "x"));
}

#[test]
fn globe_range() {
    assert!(Geocoordinates::new(900_000_000, -1_800_000_000).is_on_globe());
    assert!(!Geocoordinates::new(900_000_001, 0).is_on_globe());
    assert!(!Geocoordinates::new(0, 1_800_000_001).is_on_globe());
    let _ = [Access::Allowed, Access::Denied, Access::Unspecified];
}
