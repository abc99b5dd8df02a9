//! Cloud events: flattened, vehicle-id-tagged copies of parts of the tree.
use vstd::prelude::*;
use crate::messages::TirePressure;

verus! {

#[derive(Debug, Clone, PartialEq, Eq)]
pub struct BatteryEvent {
    pub vehicle_id: String,
    pub battery_level: u32,
    pub is_charging: bool,
    pub is_discharging: bool,
    pub time_to_fully_charge: u32,
    pub estimated_range: u32,
    pub state_of_health: u32,
    pub temperature: u32,
}

#[derive(Debug, Clone, PartialEq, Eq)]
pub struct TirePressureEvent {
    pub vehicle_id: String,
    pub front_tire: Option<TirePressure>,
    pub rear_tire: Option<TirePressure>,
}

#[derive(Debug, Clone, PartialEq, Eq)]
pub struct SpeedEvent {
    pub vehicle_id: String,
    pub speed: u32,
}

#[derive(Debug, Clone, PartialEq, Eq)]
pub struct ExteriorEvent {
    pub vehicle_id: String,
    pub air_temperature: u32,
    pub humidity: u32,
    pub light_intensity: u32,
}

#[derive(Debug, Clone, PartialEq, Eq)]
pub struct CurrentLocationEvent {
    pub vehicle_id: String,
    pub latitude: u64,
    pub longitude: u64,
    pub altitude: u64,
    pub timestamp: String,
}

#[derive(Debug, Clone, PartialEq, Eq)]
pub struct TripDataEvent {
    pub vehicle_id: String,
    pub start_time: String,
    pub traveled_distance: u32,
    pub traveled_distance_since_start: u32,
    pub trip_duration: u32,
    pub trip_meter_reading: u32,
    pub average_speed: u32,
}

#[derive(Debug, Clone, PartialEq, Eq)]
pub struct SystemStateEvent {
    pub vehicle_id: String,
    pub system_state: String,
}

} // verus!
