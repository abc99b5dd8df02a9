//! Cloud commands: the external command schema, its mapping onto the internal
//! vocabulary, and what the command processor does with each command.
use vstd::prelude::*;
use crate::messages::LockState;
use crate::vehicle_state::{VehicleCommand, VehicleState, command_permitted};

verus! {

/// Wire code of the "lock" state on the lock/unlock topic.
pub const CLOUD_LOCK: i32 = 0;
/// Wire code of the "unlock" state on the lock/unlock topic.
pub const CLOUD_UNLOCK: i32 = 1;

/// Wire codes of the on/off states on the general topic.
pub const COMMAND_STATE_ON: i32 = 0;
pub const COMMAND_STATE_OFF: i32 = 1;

/// Wire codes of the targets on the general topic.
pub const COMMAND_TARGET_LIGHTS: i32 = 0;
pub const COMMAND_TARGET_ENGINE: i32 = 1;
pub const COMMAND_TARGET_HORN: i32 = 2;

/// In-vehicle lock-state codes the processor publishes.
pub const LOCK_STATE_LOCK: i32 = 1;
pub const LOCK_STATE_ON: i32 = 4;

/// A decoded message of the lock/unlock command topic.
#[derive(Debug, Clone, Copy, PartialEq, Eq, Structural)]
pub struct LockUnlockCommand {
    pub state: i32,
}

/// A decoded message of the general on/off command topic.
#[derive(Debug, Clone, Copy, PartialEq, Eq, Structural)]
pub struct GeneralStateCommand {
    pub state: i32,
    pub target: i32,
}

/// The lock/unlock rule: "lock" is `Lock`, anything else is `Unlock`.
pub open spec fn lock_unlock_rule(state: i32) -> VehicleCommand {
    if state == CLOUD_LOCK {
        VehicleCommand::Lock
    } else {
        VehicleCommand::Unlock
    }
}

/// The on/off rule table; every combination it does not name is `HornOff`.
pub open spec fn general_state_rule(state: i32, target: i32) -> VehicleCommand {
    if state == COMMAND_STATE_ON && target == COMMAND_TARGET_LIGHTS {
        VehicleCommand::LightOn
    } else if state == COMMAND_STATE_OFF && target == COMMAND_TARGET_LIGHTS {
        VehicleCommand::LightOff
    } else if state == COMMAND_STATE_ON && target == COMMAND_TARGET_ENGINE {
        VehicleCommand::EngineOn
    } else if state == COMMAND_STATE_OFF && target == COMMAND_TARGET_ENGINE {
        VehicleCommand::EngineOff
    } else if state == COMMAND_STATE_ON && target == COMMAND_TARGET_HORN {
        VehicleCommand::HornOn
    } else {
        VehicleCommand::HornOff
    }
}

/// Maps a lock/unlock message onto the internal vocabulary.
pub fn command_from_lock_unlock(message: &LockUnlockCommand) -> (c: VehicleCommand)
    ensures
        c == lock_unlock_rule(message.state),
{
    if message.state == CLOUD_LOCK {
        VehicleCommand::Lock
    } else {
        VehicleCommand::Unlock
    }
}

/// Maps an on/off message onto the internal vocabulary.
pub fn command_from_general_state(message: &GeneralStateCommand) -> (c: VehicleCommand)
    ensures
        c == general_state_rule(message.state, message.target),
{
    let on = message.state == COMMAND_STATE_ON;
    let off = message.state == COMMAND_STATE_OFF;
    if on && message.target == COMMAND_TARGET_LIGHTS {
        VehicleCommand::LightOn
    } else if off && message.target == COMMAND_TARGET_LIGHTS {
        VehicleCommand::LightOff
    } else if on && message.target == COMMAND_TARGET_ENGINE {
        VehicleCommand::EngineOn
    } else if off && message.target == COMMAND_TARGET_ENGINE {
        VehicleCommand::EngineOff
    } else if on && message.target == COMMAND_TARGET_HORN {
        VehicleCommand::HornOn
    } else {
        VehicleCommand::HornOff
    }
}

/// What the command processor does with one command.
#[derive(Debug, Clone, Copy, PartialEq, Eq, Structural)]
pub enum CommandOutcome {
    /// The policy refused the command: nothing happens.
    Rejected,
    /// The command becomes this lock-state message on the in-vehicle bus.
    Forward(LockState),
    /// The command is accepted and has no outbound effect yet.
    Accepted,
}

/// The in-vehicle message a command turns into, if any: `Lock` publishes
/// the lock state, `Unlock` the "on" state, the others nothing.
pub open spec fn forwarded_message(command: VehicleCommand) -> Option<LockState> {
    match command {
        VehicleCommand::Lock => Some(LockState { state: LOCK_STATE_LOCK }),
        VehicleCommand::Unlock => Some(LockState { state: LOCK_STATE_ON }),
        _ => None,
    }
}

/// Validates a command against the state and decides its effect.
pub fn process_command(state: &VehicleState, command: VehicleCommand) -> (r: CommandOutcome)
    ensures
        !command_permitted(state.vehicle@, command) ==> r == CommandOutcome::Rejected,
        command_permitted(state.vehicle@, command) ==> r == (match forwarded_message(command) {
            Some(m) => CommandOutcome::Forward(m),
            None => CommandOutcome::Accepted,
        }),
{
    if !state.is_valid_command(&command) {
        return CommandOutcome::Rejected;
    }
    match command {
        VehicleCommand::Lock => CommandOutcome::Forward(LockState { state: LOCK_STATE_LOCK }),
        VehicleCommand::Unlock => CommandOutcome::Forward(LockState { state: LOCK_STATE_ON }),
        _ => CommandOutcome::Accepted,
    }
}

} // verus!
