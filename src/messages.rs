//! In-vehicle telemetry messages and how each one merges into the tree.
//!
//! Each kind of message owns one part of the tree and writes nothing else.
//! A write creates the branches it needs where they have not been observed
//! yet, so no merge ever fails.
use vstd::prelude::*;
use crate::tree::{
    Axle, AxleRow, BatteryTemperature, Chassis, Charging, LocationView, Powertrain, StateOfCharge,
    Tire, TractionBattery, Vehicle, VehicleCurrentLocation, VehicleExterior, VehicleView, Wheel,
    WheelSide, axle_or_empty, axle_or_empty_of, row_with_tire,
};
use crate::vehicle_state::{LowVoltageSystemState, system_state_name};

verus! {

/// Battery telemetry (levels and temperature as single-precision bits).
#[derive(Debug, Clone, Copy, PartialEq, Eq, Structural)]
pub struct BatteryData {
    pub is_charging: bool,
    pub is_discharging: bool,
    pub time_to_fully_charge: u32,
    pub estimated_range: u32,
    pub battery_level: u32,
    pub state_of_health: u32,
    pub temperature: u32,
}

/// Exterior conditions (single-precision bits).
#[derive(Debug, Clone, Copy, PartialEq, Eq, Structural)]
pub struct Exterior {
    pub air_temperature: u32,
    pub humidity: u32,
    pub light_intensity: u32,
}

/// Vehicle speed (single-precision bits).
#[derive(Debug, Clone, Copy, PartialEq, Eq, Structural)]
pub struct Speed {
    pub value: u32,
}

/// One tire reading; the temperature is single-precision bits.
#[derive(Debug, Clone, Copy, PartialEq, Eq, Structural)]
pub struct TirePressure {
    pub is_pressure_low: bool,
    pub pressure: u32,
    pub temperature: u32,
}

/// Readings of the front and the rear tire; either may be missing.
#[derive(Debug, Clone, Copy, PartialEq, Eq, Structural)]
pub struct Tires {
    pub front_tire: Option<TirePressure>,
    pub rear_tire: Option<TirePressure>,
}

/// Trip odometry (single-precision bits) and the trip's start time.
#[derive(Debug, Clone, PartialEq, Eq)]
pub struct TripData {
    pub traveled_distance: u32,
    pub traveled_distance_since_start: u32,
    pub trip_duration: u32,
    pub trip_meter_reading: u32,
    pub average_speed: u32,
    pub start_time: String,
}

/// The low-voltage system state as its wire code.
#[derive(Debug, Clone, Copy, PartialEq, Eq, Structural)]
pub struct LockState {
    pub state: i32,
}

/// A position fix (double-precision bits).
#[derive(Debug, Clone, PartialEq, Eq)]
pub struct CurrentLocation {
    pub altitude: u64,
    pub latitude: u64,
    pub longitude: u64,
    pub timestamp: String,
}

/// The closed set of telemetry kinds the twin ingests.
#[derive(Debug, Clone, Copy, PartialEq, Eq, Structural)]
pub enum MessageKind {
    Battery,
    Exterior,
    Speed,
    Tires,
    TripData,
    LockState,
    CurrentLocation,
}

/// The capability every telemetry message has: merging itself into the tree.
pub trait VehicleMessage: Sized {
    /// The tree after this message has been merged into `v`.
    spec fn merged_into(&self, v: VehicleView) -> VehicleView;

    fn update_state(self, state: &mut Vehicle)
        ensures
            final(state)@ == self.merged_into(old(state)@),
    ;
}

pub open spec fn tire_from(p: TirePressure) -> Tire {
    Tire { pressure: p.pressure, temperature: p.temperature, is_pressure_low: p.is_pressure_low }
}

/// The new state of one axle row: the reading where there is one, else the
/// row as it was.
pub open spec fn row_after(row: Option<AxleRow>, reading: Option<TirePressure>) -> Option<AxleRow> {
    match reading {
        Some(p) => Some(row_with_tire(tire_from(p))),
        None => row,
    }
}

impl VehicleMessage for BatteryData {
    open spec fn merged_into(&self, v: VehicleView) -> VehicleView {
        VehicleView {
            powertrain: Some(Powertrain {
                traction_battery: Some(TractionBattery {
                    charging: Some(Charging {
                        is_charging: self.is_charging,
                        is_discharging: self.is_discharging,
                        time_to_complete: self.time_to_fully_charge,
                    }),
                    range: self.estimated_range,
                    state_of_charge: Some(StateOfCharge { displayed: self.battery_level }),
                    state_of_health: self.state_of_health,
                    temperature: Some(BatteryTemperature { average: self.temperature }),
                }),
            }),
            ..v
        }
    }

    fn update_state(self, state: &mut Vehicle) {
        let charging = Charging {
            is_charging: self.is_charging,
            is_discharging: self.is_discharging,
            time_to_complete: self.time_to_fully_charge,
        };
        let battery = TractionBattery {
            charging: Some(charging),
            range: self.estimated_range,
            state_of_charge: Some(StateOfCharge { displayed: self.battery_level }),
            state_of_health: self.state_of_health,
            temperature: Some(BatteryTemperature { average: self.temperature }),
        };
        state.powertrain = Some(Powertrain { traction_battery: Some(battery) });
    }
}

impl VehicleMessage for Exterior {
    open spec fn merged_into(&self, v: VehicleView) -> VehicleView {
        VehicleView {
            exterior: Some(VehicleExterior {
                air_temperature: self.air_temperature,
                humidity: self.humidity,
                light_intensity: self.light_intensity,
            }),
            ..v
        }
    }

    fn update_state(self, state: &mut Vehicle) {
        state.exterior = Some(
            VehicleExterior {
                air_temperature: self.air_temperature,
                humidity: self.humidity,
                light_intensity: self.light_intensity,
            },
        );
    }
}

impl VehicleMessage for Speed {
    open spec fn merged_into(&self, v: VehicleView) -> VehicleView {
        VehicleView { speed: self.value, ..v }
    }

    fn update_state(self, state: &mut Vehicle) {
        state.speed = self.value;
    }
}

/// Builds the row that a reading writes, or keeps the row where the message
/// carries no reading for it.
fn row_written(row: Option<AxleRow>, reading: Option<TirePressure>) -> (r: Option<AxleRow>)
    ensures
        r == row_after(row, reading),
{
    match reading {
        Some(p) => {
            let tire = Tire {
                pressure: p.pressure,
                temperature: p.temperature,
                is_pressure_low: p.is_pressure_low,
            };
            Some(AxleRow { wheel: Some(Wheel { left: Some(WheelSide { tire: Some(tire) }) }) })
        },
        None => row,
    }
}

impl VehicleMessage for Tires {
    open spec fn merged_into(&self, v: VehicleView) -> VehicleView {
        let a = axle_or_empty(v);
        VehicleView {
            chassis: Some(Chassis {
                axle: Some(Axle {
                    row1: row_after(a.row1, self.front_tire),
                    row2: row_after(a.row2, self.rear_tire),
                }),
            }),
            ..v
        }
    }

    fn update_state(self, state: &mut Vehicle) {
        let a = axle_or_empty_of(state);
        let axle = Axle {
            row1: row_written(a.row1, self.front_tire),
            row2: row_written(a.row2, self.rear_tire),
        };
        state.chassis = Some(Chassis { axle: Some(axle) });
    }
}

impl VehicleMessage for TripData {
    open spec fn merged_into(&self, v: VehicleView) -> VehicleView {
        VehicleView {
            start_time: self.start_time@,
            traveled_distance: self.traveled_distance,
            traveled_distance_since_start: self.traveled_distance_since_start,
            trip_duration: self.trip_duration,
            trip_meter_reading: self.trip_meter_reading,
            average_speed: self.average_speed,
            ..v
        }
    }

    fn update_state(self, state: &mut Vehicle) {
        state.start_time = self.start_time;
        state.traveled_distance = self.traveled_distance;
        state.traveled_distance_since_start = self.traveled_distance_since_start;
        state.trip_duration = self.trip_duration;
        state.trip_meter_reading = self.trip_meter_reading;
        state.average_speed = self.average_speed;
    }
}

impl VehicleMessage for LockState {
    open spec fn merged_into(&self, v: VehicleView) -> VehicleView {
        VehicleView {
            low_voltage_system_state: system_state_name(
                LowVoltageSystemState::from_code_spec(self.state),
            ),
            ..v
        }
    }

    fn update_state(self, state: &mut Vehicle) {
        let s = LowVoltageSystemState::from_code(self.state);
        state.low_voltage_system_state = s.to_string();
    }
}

impl VehicleMessage for CurrentLocation {
    /// The coordinates are replaced; the recorded timestamp is kept (empty
    /// where no position was known).
    open spec fn merged_into(&self, v: VehicleView) -> VehicleView {
        let timestamp = match v.current_location {
            Some(l) => l.timestamp,
            None => Seq::empty(),
        };
        VehicleView {
            current_location: Some(LocationView {
                latitude: self.latitude,
                longitude: self.longitude,
                altitude: self.altitude,
                timestamp,
            }),
            ..v
        }
    }

    fn update_state(self, state: &mut Vehicle) {
        match &mut state.current_location {
            Some(loc) => {
                loc.latitude = self.latitude;
                loc.longitude = self.longitude;
                loc.altitude = self.altitude;
            },
            None => {
                state.current_location = Some(
                    VehicleCurrentLocation {
                        latitude: self.latitude,
                        longitude: self.longitude,
                        altitude: self.altitude,
                        timestamp: String::new(),
                    },
                );
            },
        }
    }
}

/// One in-vehicle message of any kind: the closed union the ingestion loop
/// hands to the state.
#[derive(Debug, Clone, PartialEq, Eq)]
pub enum TelemetryMessage {
    Battery(BatteryData),
    Exterior(Exterior),
    Speed(Speed),
    Tires(Tires),
    TripData(TripData),
    LockState(LockState),
    CurrentLocation(CurrentLocation),
}

impl TelemetryMessage {
    pub open spec fn kind_spec(&self) -> MessageKind {
        match self {
            TelemetryMessage::Battery(_) => MessageKind::Battery,
            TelemetryMessage::Exterior(_) => MessageKind::Exterior,
            TelemetryMessage::Speed(_) => MessageKind::Speed,
            TelemetryMessage::Tires(_) => MessageKind::Tires,
            TelemetryMessage::TripData(_) => MessageKind::TripData,
            TelemetryMessage::LockState(_) => MessageKind::LockState,
            TelemetryMessage::CurrentLocation(_) => MessageKind::CurrentLocation,
        }
    }

    /// The kind of this message.
    #[verifier::when_used_as_spec(kind_spec)]
    pub fn kind(&self) -> (k: MessageKind)
        ensures
            k == self.kind_spec(),
    {
        match self {
            TelemetryMessage::Battery(_) => MessageKind::Battery,
            TelemetryMessage::Exterior(_) => MessageKind::Exterior,
            TelemetryMessage::Speed(_) => MessageKind::Speed,
            TelemetryMessage::Tires(_) => MessageKind::Tires,
            TelemetryMessage::TripData(_) => MessageKind::TripData,
            TelemetryMessage::LockState(_) => MessageKind::LockState,
            TelemetryMessage::CurrentLocation(_) => MessageKind::CurrentLocation,
        }
    }
}

impl VehicleMessage for TelemetryMessage {
    open spec fn merged_into(&self, v: VehicleView) -> VehicleView {
        match self {
            TelemetryMessage::Battery(m) => m.merged_into(v),
            TelemetryMessage::Exterior(m) => m.merged_into(v),
            TelemetryMessage::Speed(m) => m.merged_into(v),
            TelemetryMessage::Tires(m) => m.merged_into(v),
            TelemetryMessage::TripData(m) => m.merged_into(v),
            TelemetryMessage::LockState(m) => m.merged_into(v),
            TelemetryMessage::CurrentLocation(m) => m.merged_into(v),
        }
    }

    fn update_state(self, state: &mut Vehicle) {
        match self {
            TelemetryMessage::Battery(m) => m.update_state(state),
            TelemetryMessage::Exterior(m) => m.update_state(state),
            TelemetryMessage::Speed(m) => m.update_state(state),
            TelemetryMessage::Tires(m) => m.update_state(state),
            TelemetryMessage::TripData(m) => m.update_state(state),
            TelemetryMessage::LockState(m) => m.update_state(state),
            TelemetryMessage::CurrentLocation(m) => m.update_state(state),
        }
    }
}

} // verus!
