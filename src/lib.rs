//! A vehicle digital twin: the canonical model of one vehicle's state, merged
//! from in-vehicle telemetry and mirrored to the cloud as events, together
//! with the mapping of cloud commands onto in-vehicle messages.
pub mod tree;
pub mod messages;
pub mod events;
pub mod vehicle_state;
pub mod commands;
pub mod laws;
pub mod publishing;
pub mod config;
