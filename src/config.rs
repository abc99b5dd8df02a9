//! The service's configuration, as plain values.
use vstd::prelude::*;

verus! {

/// Configuration of the twin service: transport endpoints, the vehicle's
/// id, and the declared cloud events and commands.
#[derive(Debug, Clone, PartialEq, Eq)]
pub struct TwinServiceConfig {
    pub zenoh_endpoints: Vec<String>,
    pub vehicle_id: String,
    pub events: Vec<Event>,
    pub commands: Vec<Command>,
}

/// A declared cloud event: its name, topic and period in milliseconds.
#[derive(Debug, Clone, PartialEq, Eq)]
pub struct Event {
    pub name: String,
    pub topic: String,
    pub frequency: u64,
}

/// A declared cloud command: its name and topic.
#[derive(Debug, Clone, PartialEq, Eq)]
pub struct Command {
    pub name: String,
    pub topic: String,
}

} // verus!
