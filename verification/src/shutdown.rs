//! Shutting down: background work is joined first, and only then is the runtime stopped.

use crate::connected::AppsHandle;
use crate::join::{join_warning, log_initialization_join_result};
use crate::service::AppsConnectionService;
use crate::state::ServiceState;
use tokio::task::JoinError;
use vstd::prelude::*;

verus! {

/// What a shutdown is waiting for.
#[derive(Clone, Copy, Debug, PartialEq, Eq, Structural)]
pub enum ShutdownStage {
    /// The background tasks to end.
    JoinTasks,
    /// The runtime to stop.
    StopRuntime,
    /// Nothing: the shutdown is over.
    Finished,
}

/// What happened outside.
#[derive(Debug)]
pub enum ShutdownEvent {
    /// A background task was joined, with this end.
    TaskEnded(Result<(), JoinError>),
    /// There was no background task left to join.
    NoTaskLeft,
    /// The runtime was stopped.
    RuntimeStopped,
}

/// What to do next.
#[derive(Debug)]
pub enum ShutdownAction<A> {
    /// Warn about the end of the last one, if there is a warning, and join a background task, if there
    /// is one.
    JoinTask { warning: Option<JoinError> },
    /// Stop this runtime.
    StopRuntime(AppsHandle<A>),
    /// Return.
    Return,
    /// Nothing: the shutdown was not waiting for that event.
    Unexpected,
}

/// A shutdown that is under way.
#[derive(Debug)]
pub struct Shutdown {
    pub stage: ShutdownStage,
}

/// What a step leaves and asks for.
pub struct ShutdownOutcome<A> {
    pub stage: ShutdownStage,
    pub service: ServiceState<A>,
    pub action: ShutdownAction<A>,
}

/// What a shutdown does in `stage` when `event` happens: tasks are joined until none is left; then
/// the connection is given up, and its runtime, if there was one, is to be stopped.
pub open spec fn shutdown_step<A>(
    stage: ShutdownStage,
    service: ServiceState<A>,
    event: ShutdownEvent,
) -> ShutdownOutcome<A> {
    match (stage, event) {
        (ShutdownStage::JoinTasks, ShutdownEvent::TaskEnded(result)) => ShutdownOutcome {
            stage,
            service,
            action: ShutdownAction::JoinTask { warning: join_warning(result) },
        },
        (ShutdownStage::JoinTasks, ShutdownEvent::NoTaskLeft) => match service.current {
            Some(connected) => ShutdownOutcome {
                stage: ShutdownStage::StopRuntime,
                service: service.disconnected(),
                action: ShutdownAction::StopRuntime(connected.apps),
            },
            None => ShutdownOutcome {
                stage: ShutdownStage::Finished,
                service,
                action: ShutdownAction::Return,
            },
        },
        (ShutdownStage::StopRuntime, ShutdownEvent::RuntimeStopped) => ShutdownOutcome {
            stage: ShutdownStage::Finished,
            service,
            action: ShutdownAction::Return,
        },
        _ => ShutdownOutcome { stage, service, action: ShutdownAction::Unexpected },
    }
}

impl Shutdown {
    /// What to do now that `event` happened. An event that the shutdown is not waiting for changes
    /// nothing.
    pub fn step<A>(&mut self, service: &mut AppsConnectionService<A>, event: ShutdownEvent) -> (
    action: ShutdownAction<A>)
        ensures
            ({
                let outcome = shutdown_step(old(self).stage, old(service)@, event);
                &&& final(self).stage == outcome.stage
                &&& final(service)@ == outcome.service
                &&& action == outcome.action
            }),
            old(service)@.wf() ==> final(service)@.wf(),
    {
        match (self.stage, event) {
            (ShutdownStage::JoinTasks, ShutdownEvent::TaskEnded(result)) => {
                ShutdownAction::JoinTask { warning: log_initialization_join_result(result) }
            },
            (ShutdownStage::JoinTasks, ShutdownEvent::NoTaskLeft) => {
                match service.take_connected() {
                    Some(apps) => {
                        self.stage = ShutdownStage::StopRuntime;
                        ShutdownAction::StopRuntime(apps)
                    },
                    None => {
                        self.stage = ShutdownStage::Finished;
                        ShutdownAction::Return
                    },
                }
            },
            (ShutdownStage::StopRuntime, ShutdownEvent::RuntimeStopped) => {
                self.stage = ShutdownStage::Finished;
                ShutdownAction::Return
            },
            _ => ShutdownAction::Unexpected,
        }
    }
}

} // verus!
