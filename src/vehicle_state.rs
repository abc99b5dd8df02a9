//! The vehicle-state aggregate: the tree, the vehicle's id, the typed merge
//! entry point and the builders of cloud events.
use vstd::prelude::*;
use crate::tree::{Axle, Tire, TractionBattery, Vehicle, VehicleView, row_tire, tire_of_row};
use crate::messages::{TirePressure, VehicleMessage};
use crate::events::{
    BatteryEvent, CurrentLocationEvent, ExteriorEvent, SpeedEvent, SystemStateEvent,
    TirePressureEvent, TripDataEvent,
};

verus! {

/// State of the low-voltage system, as the tree records it by name.
#[allow(non_camel_case_types)]
#[derive(Debug, Clone, Copy, PartialEq, Eq, Structural)]
pub enum LowVoltageSystemState {
    UNDEFINED,
    LOCK,
    OFF,
    ACC,
    ON,
    START,
}

/// The name under which the tree records a low-voltage system state.
pub open spec fn system_state_name(s: LowVoltageSystemState) -> Seq<char> {
    match s {
        LowVoltageSystemState::UNDEFINED => "UNDEFINED"@,
        LowVoltageSystemState::LOCK => "LOCK"@,
        LowVoltageSystemState::OFF => "OFF"@,
        LowVoltageSystemState::ACC => "ACC"@,
        LowVoltageSystemState::ON => "ON"@,
        LowVoltageSystemState::START => "START"@,
    }
}

impl LowVoltageSystemState {
    pub open spec fn from_code_spec(code: i32) -> LowVoltageSystemState {
        if code == 1 {
            LowVoltageSystemState::LOCK
        } else if code == 2 {
            LowVoltageSystemState::OFF
        } else if code == 3 {
            LowVoltageSystemState::ACC
        } else if code == 4 {
            LowVoltageSystemState::ON
        } else if code == 5 {
            LowVoltageSystemState::START
        } else {
            LowVoltageSystemState::UNDEFINED
        }
    }

    /// The state that a wire code stands for; unknown codes are `UNDEFINED`.
    pub fn from_code(code: i32) -> (s: LowVoltageSystemState)
        ensures
            s == Self::from_code_spec(code),
    {
        match code {
            1 => LowVoltageSystemState::LOCK,
            2 => LowVoltageSystemState::OFF,
            3 => LowVoltageSystemState::ACC,
            4 => LowVoltageSystemState::ON,
            5 => LowVoltageSystemState::START,
            _ => LowVoltageSystemState::UNDEFINED,
        }
    }

    /// The state's name, as the tree and the cloud see it.
    pub fn to_string(&self) -> (r: String)
        ensures
            r@ == system_state_name(*self),
    {
        match self {
            LowVoltageSystemState::UNDEFINED => "UNDEFINED".to_string(),
            LowVoltageSystemState::LOCK => "LOCK".to_string(),
            LowVoltageSystemState::OFF => "OFF".to_string(),
            LowVoltageSystemState::ACC => "ACC".to_string(),
            LowVoltageSystemState::ON => "ON".to_string(),
            LowVoltageSystemState::START => "START".to_string(),
        }
    }
}

/// The internal command vocabulary: pure values without payload.
#[derive(Debug, Clone, Copy, PartialEq, Eq, Structural)]
pub enum VehicleCommand {
    Lock,
    Unlock,
    HornOn,
    HornOff,
    LightOn,
    LightOff,
    EngineOn,
    EngineOff,
}

/// The one mutable aggregate of the twin.
#[derive(Debug)]
pub struct VehicleState {
    pub vehicle: Vehicle,
    pub vehicle_id: String,
}

/// The traction battery, where it and the powertrain have been observed.
pub open spec fn traction_battery_of(v: VehicleView) -> Option<TractionBattery> {
    match v.powertrain {
        Some(p) => p.traction_battery,
        None => None,
    }
}

/// Whether every branch a battery event copies from has been observed.
pub open spec fn battery_observed(v: VehicleView) -> bool {
    &&& traction_battery_of(v) is Some
    &&& traction_battery_of(v)->0.charging is Some
    &&& traction_battery_of(v)->0.state_of_charge is Some
    &&& traction_battery_of(v)->0.temperature is Some
}

/// `e` is the battery event of vehicle `id` copied from battery `b`.
pub open spec fn is_battery_event_of(e: BatteryEvent, id: Seq<char>, b: TractionBattery) -> bool {
    &&& e.vehicle_id@ == id
    &&& e.battery_level == b.state_of_charge->0.displayed
    &&& e.is_charging == b.charging->0.is_charging
    &&& e.is_discharging == b.charging->0.is_discharging
    &&& e.time_to_fully_charge == b.charging->0.time_to_complete
    &&& e.estimated_range == b.range
    &&& e.state_of_health == b.state_of_health
    &&& e.temperature == b.temperature->0.average
}

pub open spec fn reading_of(t: Tire) -> TirePressure {
    TirePressure { is_pressure_low: t.is_pressure_low, pressure: t.pressure, temperature: t.temperature }
}

/// The recorded axle, where the chassis and the axle have been observed.
pub open spec fn axle_of(v: VehicleView) -> Option<Axle> {
    match v.chassis {
        Some(c) => c.axle,
        None => None,
    }
}

/// Whether both left tires have been observed, with every branch on the way.
pub open spec fn tires_observed(v: VehicleView) -> bool {
    &&& axle_of(v) is Some
    &&& row_tire(axle_of(v)->0.row1) is Some
    &&& row_tire(axle_of(v)->0.row2) is Some
}

/// The battery event contract: absent exactly when a branch it copies from
/// is unobserved, else an exact copy of those branches.
pub open spec fn battery_event_matches(r: Option<BatteryEvent>, v: VehicleView, id: Seq<char>) -> bool {
    &&& r is None <==> !battery_observed(v)
    &&& r matches Some(e) ==> is_battery_event_of(e, id, traction_battery_of(v)->0)
}

/// The tire event contract: absent until both left tires are observed.
pub open spec fn tires_event_matches(r: Option<TirePressureEvent>, v: VehicleView, id: Seq<char>) -> bool {
    &&& r is None <==> !tires_observed(v)
    &&& r matches Some(e) ==> {
        &&& e.vehicle_id@ == id
        &&& e.front_tire == Some(reading_of(row_tire(axle_of(v)->0.row1)->0))
        &&& e.rear_tire == Some(reading_of(row_tire(axle_of(v)->0.row2)->0))
    }
}

/// The speed event contract: always present.
pub open spec fn speed_event_matches(r: Option<SpeedEvent>, v: VehicleView, id: Seq<char>) -> bool {
    r matches Some(e) && e.vehicle_id@ == id && e.speed == v.speed
}

/// The exterior event contract: absent until the exterior is observed.
pub open spec fn exterior_event_matches(r: Option<ExteriorEvent>, v: VehicleView, id: Seq<char>) -> bool {
    &&& r is None <==> v.exterior is None
    &&& r matches Some(e) ==> {
        let x = v.exterior->0;
        &&& e.vehicle_id@ == id
        &&& e.air_temperature == x.air_temperature
        &&& e.humidity == x.humidity
        &&& e.light_intensity == x.light_intensity
    }
}

/// The location event contract: absent until a position is known.
pub open spec fn location_event_matches(
    r: Option<CurrentLocationEvent>,
    v: VehicleView,
    id: Seq<char>,
) -> bool {
    &&& r is None <==> v.current_location is None
    &&& r matches Some(e) ==> {
        let l = v.current_location->0;
        &&& e.vehicle_id@ == id
        &&& e.latitude == l.latitude
        &&& e.longitude == l.longitude
        &&& e.altitude == l.altitude
        &&& e.timestamp@ == l.timestamp
    }
}

/// The trip event contract: always present.
pub open spec fn trip_event_matches(r: Option<TripDataEvent>, v: VehicleView, id: Seq<char>) -> bool {
    r matches Some(e) && {
        &&& e.vehicle_id@ == id
        &&& e.start_time@ == v.start_time
        &&& e.traveled_distance == v.traveled_distance
        &&& e.traveled_distance_since_start == v.traveled_distance_since_start
        &&& e.trip_duration == v.trip_duration
        &&& e.trip_meter_reading == v.trip_meter_reading
        &&& e.average_speed == v.average_speed
    }
}

/// The system-state event contract: always present.
pub open spec fn state_event_matches(r: Option<SystemStateEvent>, v: VehicleView, id: Seq<char>) -> bool {
    r matches Some(e) && e.vehicle_id@ == id && e.system_state@ == v.low_voltage_system_state
}

/// The command policy. It accepts every command for now; it is the place
/// for an authorisation or consistency rule.
pub open spec fn command_permitted(state: VehicleView, command: VehicleCommand) -> bool {
    true
}

impl VehicleState {
    /// Merges one telemetry message into the tree. The id is left alone.
    pub fn update<C: VehicleMessage>(&mut self, component: C)
        ensures
            final(self).vehicle@ == component.merged_into(old(self).vehicle@),
            final(self).vehicle_id == old(self).vehicle_id,
    {
        component.update_state(&mut self.vehicle);
    }

    /// Records a new low-voltage system state; nothing else changes.
    pub fn change_state(&mut self, new_state: LowVoltageSystemState)
        ensures
            final(self).vehicle@ == (VehicleView {
                low_voltage_system_state: system_state_name(new_state),
                ..old(self).vehicle@
            }),
            final(self).vehicle_id == old(self).vehicle_id,
    {
        self.vehicle.low_voltage_system_state = new_state.to_string();
    }

    /// Whether the policy accepts `command` in the current state.
    pub fn is_valid_command(&self, command: &VehicleCommand) -> (r: bool)
        ensures
            r == command_permitted(self.vehicle@, *command),
    {
        match command {
            VehicleCommand::Lock => true,
            VehicleCommand::Unlock => true,
            VehicleCommand::LightOn => true,
            VehicleCommand::LightOff => true,
            VehicleCommand::HornOn => true,
            VehicleCommand::HornOff => true,
            VehicleCommand::EngineOn => true,
            VehicleCommand::EngineOff => true,
        }
    }

    pub fn vehicle_id(&self) -> (r: String)
        ensures
            r@ == self.vehicle_id@,
    {
        self.vehicle_id.clone()
    }

    /// The battery event, or `None` until the traction battery and its
    /// charging, state-of-charge and temperature branches are all observed.
    pub fn to_battery_event(&self) -> (r: Option<BatteryEvent>)
        ensures
            battery_event_matches(r, self.vehicle@, self.vehicle_id@),
    {
        if let Some(powertrain) = &self.vehicle.powertrain {
            if let Some(battery) = &powertrain.traction_battery {
                if let (Some(charging), Some(soc), Some(temperature)) = (
                    battery.charging,
                    battery.state_of_charge,
                    battery.temperature,
                ) {
                    return Some(
                        BatteryEvent {
                            vehicle_id: self.vehicle_id(),
                            battery_level: soc.displayed,
                            is_charging: charging.is_charging,
                            is_discharging: charging.is_discharging,
                            time_to_fully_charge: charging.time_to_complete,
                            estimated_range: battery.range,
                            state_of_health: battery.state_of_health,
                            temperature: temperature.average,
                        },
                    );
                }
            }
        }
        None
    }

    /// The tire event, or `None` until both left tires are observed.
    pub fn to_tires_event(&self) -> (r: Option<TirePressureEvent>)
        ensures
            tires_event_matches(r, self.vehicle@, self.vehicle_id@),
    {
        if let Some(chassis) = &self.vehicle.chassis {
            if let Some(axle) = &chassis.axle {
                if let (Some(front), Some(rear)) = (tire_of_row(axle.row1), tire_of_row(axle.row2)) {
                    return Some(
                        TirePressureEvent {
                            vehicle_id: self.vehicle_id(),
                            front_tire: Some(
                                TirePressure {
                                    is_pressure_low: front.is_pressure_low,
                                    pressure: front.pressure,
                                    temperature: front.temperature,
                                },
                            ),
                            rear_tire: Some(
                                TirePressure {
                                    is_pressure_low: rear.is_pressure_low,
                                    pressure: rear.pressure,
                                    temperature: rear.temperature,
                                },
                            ),
                        },
                    );
                }
            }
        }
        None
    }

    /// The speed event; speed is a scalar, so it is always available.
    pub fn to_speed_event(&self) -> (r: Option<SpeedEvent>)
        ensures
            speed_event_matches(r, self.vehicle@, self.vehicle_id@),
    {
        Some(SpeedEvent { vehicle_id: self.vehicle_id(), speed: self.vehicle.speed })
    }

    /// The exterior event, or `None` until the exterior is observed.
    pub fn to_exterior_event(&self) -> (r: Option<ExteriorEvent>)
        ensures
            exterior_event_matches(r, self.vehicle@, self.vehicle_id@),
    {
        if let Some(exterior) = &self.vehicle.exterior {
            return Some(
                ExteriorEvent {
                    vehicle_id: self.vehicle_id(),
                    air_temperature: exterior.air_temperature,
                    humidity: exterior.humidity,
                    light_intensity: exterior.light_intensity,
                },
            );
        }
        None
    }

    /// The location event, or `None` until a position is known.
    pub fn to_current_location_event(&self) -> (r: Option<CurrentLocationEvent>)
        ensures
            location_event_matches(r, self.vehicle@, self.vehicle_id@),
    {
        if let Some(location) = &self.vehicle.current_location {
            return Some(
                CurrentLocationEvent {
                    vehicle_id: self.vehicle_id(),
                    latitude: location.latitude,
                    longitude: location.longitude,
                    altitude: location.altitude,
                    timestamp: location.timestamp.clone(),
                },
            );
        }
        None
    }

    /// The trip event; its fields are scalars, so it is always available.
    pub fn to_trip_data_event(&self) -> (r: Option<TripDataEvent>)
        ensures
            trip_event_matches(r, self.vehicle@, self.vehicle_id@),
    {
        Some(
            TripDataEvent {
                vehicle_id: self.vehicle_id(),
                start_time: self.vehicle.start_time.clone(),
                traveled_distance: self.vehicle.traveled_distance,
                traveled_distance_since_start: self.vehicle.traveled_distance_since_start,
                trip_duration: self.vehicle.trip_duration,
                trip_meter_reading: self.vehicle.trip_meter_reading,
                average_speed: self.vehicle.average_speed,
            },
        )
    }

    /// The system-state event; always available.
    pub fn to_state_event(&self) -> (r: Option<SystemStateEvent>)
        ensures
            state_event_matches(r, self.vehicle@, self.vehicle_id@),
    {
        Some(
            SystemStateEvent {
                vehicle_id: self.vehicle_id(),
                system_state: self.vehicle.low_voltage_system_state.clone(),
            },
        )
    }
}

} // verus!
