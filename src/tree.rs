//! The vehicle tree: everything currently known about one vehicle.
//!
//! Every branch is optional; an absent branch means "never observed", not
//! zero. Readings that the wire carries as floating-point values are held
//! here as their IEEE-754 bit patterns (`u32` for a single, `u64` for a
//! double): the twin only copies them, it never computes with them.
use vstd::prelude::*;

verus! {

/// Charging branch of the traction battery.
#[derive(Debug, Clone, Copy, PartialEq, Eq, Structural)]
pub struct Charging {
    pub is_charging: bool,
    pub is_discharging: bool,
    pub time_to_complete: u32,
}

/// State-of-charge branch of the traction battery.
#[derive(Debug, Clone, Copy, PartialEq, Eq, Structural)]
pub struct StateOfCharge {
    /// Displayed battery level (single-precision bits).
    pub displayed: u32,
}

/// Temperature branch of the traction battery.
#[derive(Debug, Clone, Copy, PartialEq, Eq, Structural)]
pub struct BatteryTemperature {
    /// Average cell temperature (single-precision bits).
    pub average: u32,
}

#[derive(Debug, Clone, Copy, PartialEq, Eq, Structural)]
pub struct TractionBattery {
    pub charging: Option<Charging>,
    pub range: u32,
    pub state_of_charge: Option<StateOfCharge>,
    /// State of health (single-precision bits).
    pub state_of_health: u32,
    pub temperature: Option<BatteryTemperature>,
}

#[derive(Debug, Clone, Copy, PartialEq, Eq, Structural)]
pub struct Powertrain {
    pub traction_battery: Option<TractionBattery>,
}

/// One tire as the tree records it.
#[derive(Debug, Clone, Copy, PartialEq, Eq, Structural)]
pub struct Tire {
    pub pressure: u32,
    /// Tire temperature (single-precision bits).
    pub temperature: u32,
    pub is_pressure_low: bool,
}

#[derive(Debug, Clone, Copy, PartialEq, Eq, Structural)]
pub struct WheelSide {
    pub tire: Option<Tire>,
}

#[derive(Debug, Clone, Copy, PartialEq, Eq, Structural)]
pub struct Wheel {
    pub left: Option<WheelSide>,
}

#[derive(Debug, Clone, Copy, PartialEq, Eq, Structural)]
pub struct AxleRow {
    pub wheel: Option<Wheel>,
}

/// Row 1 is the front axle, row 2 the rear one.
#[derive(Debug, Clone, Copy, PartialEq, Eq, Structural)]
pub struct Axle {
    pub row1: Option<AxleRow>,
    pub row2: Option<AxleRow>,
}

#[derive(Debug, Clone, Copy, PartialEq, Eq, Structural)]
pub struct Chassis {
    pub axle: Option<Axle>,
}

/// Exterior conditions (all single-precision bits).
#[derive(Debug, Clone, Copy, PartialEq, Eq, Structural)]
pub struct VehicleExterior {
    pub air_temperature: u32,
    pub humidity: u32,
    pub light_intensity: u32,
}

/// Position of the vehicle (coordinates as double-precision bits).
#[derive(Debug, Clone, PartialEq, Eq)]
pub struct VehicleCurrentLocation {
    pub latitude: u64,
    pub longitude: u64,
    pub altitude: u64,
    pub timestamp: String,
}

/// The whole tree. Each top-level field is owned by exactly one kind of
/// in-vehicle message (see `messages`).
#[derive(Debug, Clone, PartialEq, Eq)]
pub struct Vehicle {
    pub powertrain: Option<Powertrain>,
    pub chassis: Option<Chassis>,
    pub exterior: Option<VehicleExterior>,
    pub current_location: Option<VehicleCurrentLocation>,
    /// Vehicle speed (single-precision bits).
    pub speed: u32,
    pub start_time: String,
    /// Trip odometry (all single-precision bits).
    pub traveled_distance: u32,
    pub traveled_distance_since_start: u32,
    pub trip_duration: u32,
    pub trip_meter_reading: u32,
    pub average_speed: u32,
    pub low_voltage_system_state: String,
}

/// What the twin knows of a position, with the timestamp as characters.
pub struct LocationView {
    pub latitude: u64,
    pub longitude: u64,
    pub altitude: u64,
    pub timestamp: Seq<char>,
}

/// The mathematical model of the tree: the same branches, with text as
/// sequences of characters.
pub struct VehicleView {
    pub powertrain: Option<Powertrain>,
    pub chassis: Option<Chassis>,
    pub exterior: Option<VehicleExterior>,
    pub current_location: Option<LocationView>,
    pub speed: u32,
    pub start_time: Seq<char>,
    pub traveled_distance: u32,
    pub traveled_distance_since_start: u32,
    pub trip_duration: u32,
    pub trip_meter_reading: u32,
    pub average_speed: u32,
    pub low_voltage_system_state: Seq<char>,
}

impl View for VehicleCurrentLocation {
    type V = LocationView;

    open spec fn view(&self) -> LocationView {
        LocationView {
            latitude: self.latitude,
            longitude: self.longitude,
            altitude: self.altitude,
            timestamp: self.timestamp@,
        }
    }
}

pub open spec fn location_view(l: Option<VehicleCurrentLocation>) -> Option<LocationView> {
    match l {
        Some(loc) => Some(loc@),
        None => None,
    }
}

impl View for Vehicle {
    type V = VehicleView;

    open spec fn view(&self) -> VehicleView {
        VehicleView {
            powertrain: self.powertrain,
            chassis: self.chassis,
            exterior: self.exterior,
            current_location: location_view(self.current_location),
            speed: self.speed,
            start_time: self.start_time@,
            traveled_distance: self.traveled_distance,
            traveled_distance_since_start: self.traveled_distance_since_start,
            trip_duration: self.trip_duration,
            trip_meter_reading: self.trip_meter_reading,
            average_speed: self.average_speed,
            low_voltage_system_state: self.low_voltage_system_state@,
        }
    }
}

/// A tree in which nothing has been observed yet.
pub open spec fn empty_vehicle() -> VehicleView {
    VehicleView {
        powertrain: None,
        chassis: None,
        exterior: None,
        current_location: None,
        speed: 0,
        start_time: Seq::empty(),
        traveled_distance: 0,
        traveled_distance_since_start: 0,
        trip_duration: 0,
        trip_meter_reading: 0,
        average_speed: 0,
        low_voltage_system_state: Seq::empty(),
    }
}

/// The axle as a write sees it: the recorded one, or an empty one where the
/// chassis or the axle has not been observed.
pub open spec fn axle_or_empty(v: VehicleView) -> Axle {
    match v.chassis {
        Some(c) => match c.axle {
            Some(a) => a,
            None => Axle { row1: None, row2: None },
        },
        None => Axle { row1: None, row2: None },
    }
}

/// The row of an axle that holds exactly one observed left tire.
pub open spec fn row_with_tire(t: Tire) -> AxleRow {
    AxleRow { wheel: Some(Wheel { left: Some(WheelSide { tire: Some(t) }) }) }
}

/// The left tire of a row, where the whole path to it has been observed.
pub open spec fn row_tire(r: Option<AxleRow>) -> Option<Tire> {
    match r {
        Some(row) => match row.wheel {
            Some(w) => match w.left {
                Some(side) => side.tire,
                None => None,
            },
            None => None,
        },
        None => None,
    }
}

impl Vehicle {
    /// A tree in which nothing has been observed yet.
    pub fn empty() -> (r: Vehicle)
        ensures
            r@ == empty_vehicle(),
    {
        Vehicle {
            powertrain: None,
            chassis: None,
            exterior: None,
            current_location: None,
            speed: 0,
            start_time: String::new(),
            traveled_distance: 0,
            traveled_distance_since_start: 0,
            trip_duration: 0,
            trip_meter_reading: 0,
            average_speed: 0,
            low_voltage_system_state: String::new(),
        }
    }
}

/// Returns the recorded axle, or an empty one: the "ensure-path" read that a
/// tire write starts from.
pub fn axle_or_empty_of(v: &Vehicle) -> (r: Axle)
    ensures
        r == axle_or_empty(v@),
{
    match v.chassis {
        Some(c) => match c.axle {
            Some(a) => a,
            None => Axle { row1: None, row2: None },
        },
        None => Axle { row1: None, row2: None },
    }
}

/// The left tire of a row, or `None` where any branch on the way is absent.
pub fn tire_of_row(r: Option<AxleRow>) -> (t: Option<Tire>)
    ensures
        t == row_tire(r),
{
    match r {
        Some(row) => match row.wheel {
            Some(w) => match w.left {
                Some(side) => side.tire,
                None => None,
            },
            None => None,
        },
        None => None,
    }
}

} // verus!
