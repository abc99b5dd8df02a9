use vehicle_twin::messages::{
    BatteryData, CurrentLocation, Exterior, LockState, Speed, TelemetryMessage, TirePressure,
    Tires, TripData, VehicleMessage,
};
use vehicle_twin::tree::{Vehicle, VehicleCurrentLocation};
use vehicle_twin::vehicle_state::{LowVoltageSystemState, VehicleState};

fn bits(x: f32) -> u32 {
    x.to_bits()
}

fn fresh_state() -> VehicleState {
    VehicleState { vehicle: Vehicle::empty(), vehicle_id: "VEHICLE1VIN".to_string() }
}

fn battery(level: f32, range: u32) -> BatteryData {
    BatteryData {
        is_charging: true,
        is_discharging: false,
        time_to_fully_charge: 30,
        estimated_range: range,
        battery_level: bits(level),
        state_of_health: bits(98.5),
        temperature: bits(25.0),
    }
}

fn trip() -> TripData {
    TripData {
        traveled_distance: bits(120.0),
        traveled_distance_since_start: bits(12.0),
        trip_duration: bits(600.0),
        trip_meter_reading: bits(42.0),
        average_speed: bits(72.0),
        start_time: "2024-05-01T10:00:00+00:00".to_string(),
    }
}

fn reading(pressure: u32, low: bool, temp: f32) -> TirePressure {
    TirePressure { is_pressure_low: low, pressure, temperature: bits(temp) }
}

fn mixed_messages() -> Vec<TelemetryMessage> {
    vec![
        TelemetryMessage::Battery(battery(80.0, 300)),
        TelemetryMessage::Speed(Speed { value: bits(50.0) }),
        TelemetryMessage::Exterior(Exterior {
            air_temperature: bits(18.0),
            humidity: bits(40.0),
            light_intensity: bits(700.0),
        }),
        TelemetryMessage::Tires(Tires {
            front_tire: Some(reading(32, false, 20.0)),
            rear_tire: Some(reading(31, false, 21.0)),
        }),
        TelemetryMessage::TripData(trip()),
        TelemetryMessage::LockState(LockState { state: 1 }),
        TelemetryMessage::CurrentLocation(CurrentLocation {
            altitude: 100.0f64.to_bits(),
            latitude: 48.1f64.to_bits(),
            longitude: 11.5f64.to_bits(),
            timestamp: "ignored".to_string(),
        }),
    ]
}

#[test]
fn different_kinds_commute_in_any_order() {
    let forward = mixed_messages();
    let mut backward = mixed_messages();
    backward.reverse();
    let mut a = fresh_state();
    for m in forward {
        a.update(m);
    }
    let mut b = fresh_state();
    for m in backward {
        b.update(m);
    }
    assert_eq!(a.vehicle, b.vehicle);
}

#[test]
fn interleaving_keeps_per_kind_order() {
    let s1 = vec![
        TelemetryMessage::Speed(Speed { value: bits(10.0) }),
        TelemetryMessage::Battery(battery(50.0, 100)),
        TelemetryMessage::Speed(Speed { value: bits(20.0) }),
        TelemetryMessage::Battery(battery(60.0, 200)),
    ];
    let s2 = vec![
        TelemetryMessage::Battery(battery(50.0, 100)),
        TelemetryMessage::Battery(battery(60.0, 200)),
        TelemetryMessage::Speed(Speed { value: bits(10.0) }),
        TelemetryMessage::Speed(Speed { value: bits(20.0) }),
    ];
    let mut a = fresh_state();
    for m in s1 {
        a.update(m);
    }
    let mut b = fresh_state();
    for m in s2 {
        b.update(m);
    }
    assert_eq!(a.vehicle, b.vehicle);
    assert_eq!(a.vehicle.speed, bits(20.0));
}

#[test]
fn battery_twice_equals_once() {
    let mut once = fresh_state();
    once.update(battery(80.0, 300));
    let mut twice = fresh_state();
    twice.update(battery(80.0, 300));
    twice.update(battery(80.0, 300));
    assert_eq!(once.vehicle, twice.vehicle);
    let e = twice.to_battery_event().unwrap();
    assert_eq!(e.estimated_range, 300);
    assert_eq!(e.battery_level, bits(80.0));
}

#[test]
fn battery_overwrites_not_accumulates() {
    let mut s = fresh_state();
    s.update(battery(80.0, 300));
    s.update(battery(40.0, 120));
    let e = s.to_battery_event().unwrap();
    assert_eq!(e.estimated_range, 120);
    assert_eq!(e.battery_level, bits(40.0));
    assert_eq!(e.time_to_fully_charge, 30);
}

#[test]
fn battery_merge_creates_missing_branches() {
    let mut s = fresh_state();
    assert!(s.to_battery_event().is_none());
    s.update(battery(75.0, 250));
    let e = s.to_battery_event().unwrap();
    assert_eq!(e.vehicle_id, "VEHICLE1VIN");
    assert!(e.is_charging);
    assert!(!e.is_discharging);
    assert_eq!(e.state_of_health, bits(98.5));
    assert_eq!(e.temperature, bits(25.0));
}

#[test]
fn tires_scenario_from_empty_state() {
    let mut s = fresh_state();
    assert!(s.to_tires_event().is_none());
    s.update(Tires {
        front_tire: Some(reading(32, false, 20.0)),
        rear_tire: Some(reading(31, false, 21.0)),
    });
    let e = s.to_tires_event().unwrap();
    assert_eq!(e.vehicle_id, "VEHICLE1VIN");
    assert_eq!(e.front_tire, Some(reading(32, false, 20.0)));
    assert_eq!(e.rear_tire, Some(reading(31, false, 21.0)));
}

#[test]
fn tires_partial_message_keeps_other_side() {
    let mut s = fresh_state();
    s.update(Tires { front_tire: Some(reading(32, false, 20.0)), rear_tire: None });
    assert!(s.to_tires_event().is_none());
    s.update(Tires { front_tire: None, rear_tire: Some(reading(29, true, 19.0)) });
    let e = s.to_tires_event().unwrap();
    assert_eq!(e.front_tire, Some(reading(32, false, 20.0)));
    assert_eq!(e.rear_tire, Some(reading(29, true, 19.0)));
}

#[test]
fn lock_state_codes_become_names() {
    let cases = [(0, "UNDEFINED"), (1, "LOCK"), (2, "OFF"), (3, "ACC"), (4, "ON"), (5, "START"), (9, "UNDEFINED"), (-1, "UNDEFINED")];
    for (code, name) in cases {
        let mut s = fresh_state();
        s.update(LockState { state: code });
        assert_eq!(s.vehicle.low_voltage_system_state, name);
        assert_eq!(s.to_state_event().unwrap().system_state, name);
    }
}

#[test]
fn change_state_records_name() {
    let mut s = fresh_state();
    s.change_state(LowVoltageSystemState::ACC);
    assert_eq!(s.vehicle.low_voltage_system_state, "ACC");
    assert_eq!(LowVoltageSystemState::START.to_string(), "START");
    assert_eq!(LowVoltageSystemState::from_code(4), LowVoltageSystemState::ON);
}

#[test]
fn location_keeps_recorded_timestamp() {
    let mut s = fresh_state();
    s.vehicle.current_location = Some(VehicleCurrentLocation {
        latitude: 1.0f64.to_bits(),
        longitude: 2.0f64.to_bits(),
        altitude: 3.0f64.to_bits(),
        timestamp: "2024-01-01T00:00:00Z".to_string(),
    });
    s.update(CurrentLocation {
        altitude: 30.0f64.to_bits(),
        latitude: 10.0f64.to_bits(),
        longitude: 20.0f64.to_bits(),
        timestamp: "2024-06-01T00:00:00Z".to_string(),
    });
    let e = s.to_current_location_event().unwrap();
    assert_eq!(e.latitude, 10.0f64.to_bits());
    assert_eq!(e.longitude, 20.0f64.to_bits());
    assert_eq!(e.altitude, 30.0f64.to_bits());
    assert_eq!(e.timestamp, "2024-01-01T00:00:00Z");
}

#[test]
fn location_created_when_unknown() {
    let mut s = fresh_state();
    assert!(s.to_current_location_event().is_none());
    s.update(CurrentLocation {
        altitude: 5.0f64.to_bits(),
        latitude: 6.0f64.to_bits(),
        longitude: 7.0f64.to_bits(),
        timestamp: "t".to_string(),
    });
    let e = s.to_current_location_event().unwrap();
    assert_eq!(e.latitude, 6.0f64.to_bits());
    assert_eq!(e.timestamp, "");
}

#[test]
fn exterior_speed_and_trip_events() {
    let mut s = fresh_state();
    assert!(s.to_exterior_event().is_none());
    s.update(Exterior { air_temperature: bits(18.0), humidity: bits(40.0), light_intensity: bits(700.0) });
    let x = s.to_exterior_event().unwrap();
    assert_eq!(x.air_temperature, bits(18.0));
    assert_eq!(x.humidity, bits(40.0));
    assert_eq!(x.light_intensity, bits(700.0));

    assert_eq!(s.to_speed_event().unwrap().speed, 0);
    s.update(Speed { value: bits(88.0) });
    assert_eq!(s.to_speed_event().unwrap().speed, bits(88.0));

    s.update(trip());
    let t = s.to_trip_data_event().unwrap();
    assert_eq!(t.start_time, "2024-05-01T10:00:00+00:00");
    assert_eq!(t.traveled_distance, bits(120.0));
    assert_eq!(t.traveled_distance_since_start, bits(12.0));
    assert_eq!(t.trip_duration, bits(600.0));
    assert_eq!(t.trip_meter_reading, bits(42.0));
    assert_eq!(t.average_speed, bits(72.0));
    assert_eq!(t.vehicle_id, "VEHICLE1VIN");
}

#[test]
fn each_kind_touches_only_its_branch() {
    let mut s = fresh_state();
    s.update(battery(80.0, 300));
    let before = s.vehicle.clone();
    s.update(Speed { value: bits(10.0) });
    assert_eq!(s.vehicle.powertrain, before.powertrain);
    assert_eq!(s.vehicle.chassis, None);
    assert_eq!(s.vehicle.exterior, None);
    assert_eq!(s.vehicle.speed, bits(10.0));
}

#[test]
fn message_update_state_on_bare_tree() {
    let mut v = Vehicle::empty();
    Speed { value: bits(3.0) }.update_state(&mut v);
    TelemetryMessage::LockState(LockState { state: 3 }).update_state(&mut v);
    assert_eq!(v.speed, bits(3.0));
    assert_eq!(v.low_voltage_system_state, "ACC");
}

#[test]
fn battery_event_absent_when_any_branch_missing() {
    let mut full = fresh_state();
    full.update(battery(60.0, 200));
    assert!(full.to_battery_event().is_some());

    let mut no_charging = fresh_state();
    no_charging.update(battery(60.0, 200));
    no_charging.vehicle.powertrain.as_mut().unwrap().traction_battery.as_mut().unwrap().charging = None;
    assert!(no_charging.to_battery_event().is_none());

    let mut no_soc = fresh_state();
    no_soc.update(battery(60.0, 200));
    no_soc.vehicle.powertrain.as_mut().unwrap().traction_battery.as_mut().unwrap().state_of_charge = None;
    assert!(no_soc.to_battery_event().is_none());

    let mut no_temperature = fresh_state();
    no_temperature.update(battery(60.0, 200));
    no_temperature.vehicle.powertrain.as_mut().unwrap().traction_battery.as_mut().unwrap().temperature = None;
    assert!(no_temperature.to_battery_event().is_none());

    let mut no_battery = fresh_state();
    no_battery.update(battery(60.0, 200));
    no_battery.vehicle.powertrain.as_mut().unwrap().traction_battery = None;
    assert!(no_battery.to_battery_event().is_none());

    let e = full.to_battery_event().unwrap();
    assert_eq!(e.battery_level, bits(60.0));
    assert_eq!(e.estimated_range, 200);
    assert_eq!(e.is_charging, true);
    assert_eq!(e.is_discharging, false);
    assert_eq!(e.time_to_fully_charge, 30);
    assert_eq!(e.state_of_health, bits(98.5));
    assert_eq!(e.temperature, bits(25.0));
}
