//! Giving commands to containers: what each command asks of the daemon, and
//! the events that report how it went.

use crate::types::{AppEvent, ContainerAction, ContainerKey};
use vstd::prelude::*;
use vstd::string::*;

verus! {

/// Seconds that a container is given to stop before it is killed.
pub const STOP_GRACE_SECS: i32 = 10;

/// What a command asks of the daemon.
#[derive(Clone, Copy, Debug, PartialEq, Eq, Structural)]
pub enum DaemonCall {
    /// Start the container.
    Start,
    /// Stop it, killing it after the grace period.
    Stop { grace_secs: i32 },
    /// Restart it, killing it after the grace period.
    Restart { grace_secs: i32 },
    /// Remove it: by force if it runs, and with or without its volumes.
    Remove { force: bool, volumes: bool },
}

/// The call that carries out a command. Stopping and restarting give the
/// container ten seconds; removing forces the removal of a running
/// container and keeps its volumes.
pub open spec fn spec_call_for(action: ContainerAction) -> DaemonCall {
    match action {
        ContainerAction::Start => DaemonCall::Start,
        ContainerAction::Stop => DaemonCall::Stop { grace_secs: STOP_GRACE_SECS },
        ContainerAction::Restart => DaemonCall::Restart { grace_secs: STOP_GRACE_SECS },
        ContainerAction::Remove => DaemonCall::Remove { force: true, volumes: false },
    }
}

/// The words that a failed command begins with.
pub open spec fn failure_prefix(action: ContainerAction) -> Seq<char> {
    match action {
        ContainerAction::Start => "Failed to start container: "@,
        ContainerAction::Stop => "Failed to stop container: "@,
        ContainerAction::Restart => "Failed to restart container: "@,
        ContainerAction::Remove => "Failed to remove container: "@,
    }
}

/// The call that carries out a command.
pub fn call_for(action: ContainerAction) -> (r: DaemonCall)
    ensures
        r == spec_call_for(action),
{
    match action {
        ContainerAction::Start => DaemonCall::Start,
        ContainerAction::Stop => DaemonCall::Stop { grace_secs: STOP_GRACE_SECS },
        ContainerAction::Restart => DaemonCall::Restart { grace_secs: STOP_GRACE_SECS },
        ContainerAction::Remove => DaemonCall::Remove { force: true, volumes: false },
    }
}

/// The event that goes out before a command is given to the daemon.
pub fn announce(key: ContainerKey, action: ContainerAction) -> (r: AppEvent)
    ensures
        r == AppEvent::ActionInProgress(key, action),
{
    AppEvent::ActionInProgress(key, action)
}

/// The event that reports how a command went: its success, or its failure
/// with the daemon's reason after the words that name the command.
pub fn report(key: ContainerKey, action: ContainerAction, result: Result<(), String>) -> (r:
    AppEvent)
    ensures
        match result {
            Ok(_) => r == AppEvent::ActionSuccess(key, action),
            Err(reason) => {
                &&& r matches AppEvent::ActionError(k, a, message)
                &&& k == key
                &&& a == action
                &&& message@ == failure_prefix(action) + reason@
            },
        },
{
    match result {
        Ok(_) => AppEvent::ActionSuccess(key, action),
        Err(reason) => {
            let mut message = match action {
                ContainerAction::Start => String::from_str("Failed to start container: "),
                ContainerAction::Stop => String::from_str("Failed to stop container: "),
                ContainerAction::Restart => String::from_str("Failed to restart container: "),
                ContainerAction::Remove => String::from_str("Failed to remove container: "),
            };
            message.append(reason.as_str());
            AppEvent::ActionError(key, action, message)
        },
    }
}

} // verus!
