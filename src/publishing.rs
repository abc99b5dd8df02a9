//! The cloud side: which events are published, where, how often, and the
//! snapshot each publisher takes on a tick.
use vstd::prelude::*;
use vstd::string::StringExecFns;
use crate::events::{
    BatteryEvent, CurrentLocationEvent, ExteriorEvent, SpeedEvent, SystemStateEvent,
    TirePressureEvent, TripDataEvent,
};
use crate::vehicle_state::{
    VehicleState, battery_event_matches, exterior_event_matches, location_event_matches,
    speed_event_matches, state_event_matches, tires_event_matches, trip_event_matches,
};
use crate::tree::VehicleView;

verus! {

/// In-vehicle topics the twin subscribes to (and publishes lock states on).
pub const SPEED_TOPIC: &'static str = "speed";
pub const EXTERIOR_TOPIC: &'static str = "exterior";
pub const CURRENT_LOCATION_TOPIC: &'static str = "location";
pub const LOCK_STATE_TOPIC: &'static str = "lock_state";
pub const TRIP_DATA_TOPIC: &'static str = "trip_data";
pub const BATTERY_STATE_TOPIC: &'static str = "battery_state";
pub const TIRES_TOPIC: &'static str = "tires";

/// Leaves of the cloud command topics under `cloud/command/<vehicle id>/`.
pub const LOCK_COMMAND_LEAF: &'static str = "lock";
pub const TURN_ON_OFF_COMMAND_LEAF: &'static str = "turn_on_off";

/// The kinds of cloud event; each has one publisher.
#[derive(Debug, Clone, Copy, PartialEq, Eq, Structural)]
pub enum CloudEventKind {
    SystemState,
    Battery,
    TripData,
    Speed,
    Exterior,
    Tires,
    Location,
}

/// One cloud event of any kind.
#[derive(Debug, Clone, PartialEq, Eq)]
pub enum CloudEvent {
    SystemState(SystemStateEvent),
    Battery(BatteryEvent),
    TripData(TripDataEvent),
    Speed(SpeedEvent),
    Exterior(ExteriorEvent),
    Tires(TirePressureEvent),
    Location(CurrentLocationEvent),
}

/// Seconds between two ticks of a publisher: speed every second, exterior
/// every ten, the others every five.
pub open spec fn interval_of(kind: CloudEventKind) -> u64 {
    match kind {
        CloudEventKind::Speed => 1,
        CloudEventKind::Exterior => 10,
        _ => 5,
    }
}

pub fn publish_interval_secs(kind: CloudEventKind) -> (r: u64)
    ensures
        r == interval_of(kind),
{
    match kind {
        CloudEventKind::Speed => 1,
        CloudEventKind::Exterior => 10,
        _ => 5,
    }
}

/// The fixed cloud topic of each kind.
pub open spec fn topic_of(kind: CloudEventKind) -> Seq<char> {
    match kind {
        CloudEventKind::SystemState => "cloud/telemetry/system_state"@,
        CloudEventKind::Battery => "cloud/telemetry/battery_event"@,
        CloudEventKind::TripData => "cloud/telemetry/trip_data"@,
        CloudEventKind::Speed => "cloud/telemetry/speed"@,
        CloudEventKind::Exterior => "cloud/telemetry/exterior"@,
        CloudEventKind::Tires => "cloud/telemetry/tires"@,
        CloudEventKind::Location => "cloud/telemetry/location"@,
    }
}

pub fn cloud_topic(kind: CloudEventKind) -> (r: &'static str)
    ensures
        r@ == topic_of(kind),
{
    match kind {
        CloudEventKind::SystemState => "cloud/telemetry/system_state",
        CloudEventKind::Battery => "cloud/telemetry/battery_event",
        CloudEventKind::TripData => "cloud/telemetry/trip_data",
        CloudEventKind::Speed => "cloud/telemetry/speed",
        CloudEventKind::Exterior => "cloud/telemetry/exterior",
        CloudEventKind::Tires => "cloud/telemetry/tires",
        CloudEventKind::Location => "cloud/telemetry/location",
    }
}

/// The topic `cloud/command/<vehicle id>/<leaf>`.
pub fn command_topic(vehicle_id: &str, leaf: &str) -> (r: String)
    ensures
        r@ == "cloud/command/"@ + vehicle_id@ + "/"@ + leaf@,
{
    let mut topic = String::from_str("cloud/command/");
    topic.append(vehicle_id);
    topic.append("/");
    topic.append(leaf);
    topic
}

/// The snapshot contract of one tick: the event the builder of `kind` gives,
/// under that kind's variant.
pub open spec fn snapshot_matches(
    r: Option<CloudEvent>,
    kind: CloudEventKind,
    v: VehicleView,
    id: Seq<char>,
) -> bool {
    match r {
        None => match kind {
            CloudEventKind::SystemState => state_event_matches(None, v, id),
            CloudEventKind::Battery => battery_event_matches(None, v, id),
            CloudEventKind::TripData => trip_event_matches(None, v, id),
            CloudEventKind::Speed => speed_event_matches(None, v, id),
            CloudEventKind::Exterior => exterior_event_matches(None, v, id),
            CloudEventKind::Tires => tires_event_matches(None, v, id),
            CloudEventKind::Location => location_event_matches(None, v, id),
        },
        Some(CloudEvent::SystemState(e)) => kind == CloudEventKind::SystemState
            && state_event_matches(Some(e), v, id),
        Some(CloudEvent::Battery(e)) => kind == CloudEventKind::Battery
            && battery_event_matches(Some(e), v, id),
        Some(CloudEvent::TripData(e)) => kind == CloudEventKind::TripData
            && trip_event_matches(Some(e), v, id),
        Some(CloudEvent::Speed(e)) => kind == CloudEventKind::Speed
            && speed_event_matches(Some(e), v, id),
        Some(CloudEvent::Exterior(e)) => kind == CloudEventKind::Exterior
            && exterior_event_matches(Some(e), v, id),
        Some(CloudEvent::Tires(e)) => kind == CloudEventKind::Tires
            && tires_event_matches(Some(e), v, id),
        Some(CloudEvent::Location(e)) => kind == CloudEventKind::Location
            && location_event_matches(Some(e), v, id),
    }
}

impl VehicleState {
    /// The event a publisher of `kind` sends on this tick, or `None` when
    /// the branches it needs are not all observed yet (the tick is skipped).
    pub fn snapshot_event(&self, kind: CloudEventKind) -> (r: Option<CloudEvent>)
        ensures
            snapshot_matches(r, kind, self.vehicle@, self.vehicle_id@),
    {
        match kind {
            CloudEventKind::SystemState => match self.to_state_event() {
                Some(e) => Some(CloudEvent::SystemState(e)),
                None => None,
            },
            CloudEventKind::Battery => match self.to_battery_event() {
                Some(e) => Some(CloudEvent::Battery(e)),
                None => None,
            },
            CloudEventKind::TripData => match self.to_trip_data_event() {
                Some(e) => Some(CloudEvent::TripData(e)),
                None => None,
            },
            CloudEventKind::Speed => match self.to_speed_event() {
                Some(e) => Some(CloudEvent::Speed(e)),
                None => None,
            },
            CloudEventKind::Exterior => match self.to_exterior_event() {
                Some(e) => Some(CloudEvent::Exterior(e)),
                None => None,
            },
            CloudEventKind::Tires => match self.to_tires_event() {
                Some(e) => Some(CloudEvent::Tires(e)),
                None => None,
            },
            CloudEventKind::Location => match self.to_current_location_event() {
                Some(e) => Some(CloudEvent::Location(e)),
                None => None,
            },
        }
    }
}

} // verus!
