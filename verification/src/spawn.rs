//! Spawning a background task: those that have ended are taken out first.

use crate::join::{join_warning, log_initialization_join_result};
use crate::service::AppsConnectionService;
use crate::state::ServiceState;
use tokio::task::JoinError;
use vstd::prelude::*;

verus! {

/// What a spawn is waiting for.
#[derive(Clone, Copy, Debug, PartialEq, Eq, Structural)]
pub enum SpawnStage {
    /// The background tasks that have ended.
    TakeEnded,
    /// Nothing: the spawn is over.
    Finished,
}

/// What happened outside.
#[derive(Debug)]
pub enum SpawnEvent {
    /// A background task that has ended was taken out, with this end.
    TaskEnded(Result<(), JoinError>),
    /// No background task that has ended was left.
    NoneEnded,
}

/// What to do next.
#[derive(Debug)]
pub enum SpawnAction {
    /// Warn about the end of the last one, if there is a warning, and take out a background task that
    /// has ended, if there is one. Those that have not stay.
    TakeEnded { warning: Option<JoinError> },
    /// Spawn the new task.
    Spawn,
    /// Drop the new task without having started it.
    Discard,
    /// Nothing: the spawn was not waiting for that event.
    Unexpected,
}

/// The spawn of one background task.
#[derive(Debug)]
pub struct SpawnTask {
    pub stage: SpawnStage,
}

/// What a spawn does in `stage` when `event` happens: tasks that have ended are taken out until none
/// is left; then the new task is spawned, unless the service is shut down.
pub open spec fn spawn_step<A>(
    stage: SpawnStage,
    service: ServiceState<A>,
    event: SpawnEvent,
) -> (SpawnStage, SpawnAction) {
    match (stage, event) {
        (SpawnStage::TakeEnded, SpawnEvent::TaskEnded(result)) => (
            stage,
            SpawnAction::TakeEnded { warning: join_warning(result) },
        ),
        (SpawnStage::TakeEnded, SpawnEvent::NoneEnded) => (
            SpawnStage::Finished,
            if service.shutdown {
                SpawnAction::Discard
            } else {
                SpawnAction::Spawn
            },
        ),
        _ => (stage, SpawnAction::Unexpected),
    }
}

impl SpawnTask {
    /// What to do now that `event` happened. An event that the spawn is not waiting for changes
    /// nothing.
    pub fn step<A>(&mut self, service: &AppsConnectionService<A>, event: SpawnEvent) -> (action:
        SpawnAction)
        ensures
            (final(self).stage, action) == spawn_step(old(self).stage, service@, event),
    {
        match (self.stage, event) {
            (SpawnStage::TakeEnded, SpawnEvent::TaskEnded(result)) => SpawnAction::TakeEnded {
                warning: log_initialization_join_result(result),
            },
            (SpawnStage::TakeEnded, SpawnEvent::NoneEnded) => {
                self.stage = SpawnStage::Finished;
                if service.shutdown {
                    SpawnAction::Discard
                } else {
                    SpawnAction::Spawn
                }
            },
            _ => SpawnAction::Unexpected,
        }
    }
}

/// The background tasks of the process: the ends of those that have ended but were not taken out
/// yet, and those that have not ended.
#[verifier::ext_equal]
pub struct TaskSet {
    pub ended: Seq<Result<(), JoinError>>,
    pub unfinished: Set<nat>,
}

/// The tasks after the spawn of `task` was carried out on them, and what each end that was taken out
/// gave to warn about.
pub open spec fn carried_out<A>(tasks: TaskSet, service: ServiceState<A>, task: nat) -> (
    TaskSet,
    Seq<Option<JoinError>>,
)
    decreases tasks.ended.len(),
{
    if tasks.ended.len() > 0 {
        let rest = TaskSet { ended: tasks.ended.drop_last(), ..tasks };
        match spawn_step(
            SpawnStage::TakeEnded,
            service,
            SpawnEvent::TaskEnded(tasks.ended.last()),
        ).1 {
            SpawnAction::TakeEnded { warning } => {
                let (after, warnings) = carried_out(rest, service, task);
                (after, warnings.push(warning))
            },
            _ => (rest, Seq::empty()),
        }
    } else {
        match spawn_step(SpawnStage::TakeEnded, service, SpawnEvent::NoneEnded).1 {
            SpawnAction::Spawn => (
                TaskSet { unfinished: tasks.unfinished.insert(task), ..tasks },
                Seq::empty(),
            ),
            _ => (tasks, Seq::empty()),
        }
    }
}

/// A spawn takes out every task that has ended and judges its end; it leaves those that have not
/// ended; and it adds exactly the new task, unless the service is shut down.
pub proof fn law_spawn_takes_out_what_has_ended<A>(
    tasks: TaskSet,
    service: ServiceState<A>,
    task: nat,
)
    ensures
        carried_out(tasks, service, task).0 == (TaskSet {
            ended: Seq::empty(),
            unfinished: if service.shutdown {
                tasks.unfinished
            } else {
                tasks.unfinished.insert(task)
            },
        }),
        carried_out(tasks, service, task).1 == tasks.ended.map_values(
            |result: Result<(), JoinError>| join_warning(result),
        ),
    decreases tasks.ended.len(),
{
    let judge = |result: Result<(), JoinError>| join_warning(result);
    if tasks.ended.len() > 0 {
        let rest = TaskSet { ended: tasks.ended.drop_last(), ..tasks };
        law_spawn_takes_out_what_has_ended(rest, service, task);
        assert(tasks.ended.map_values(judge) =~= rest.ended.map_values(judge).push(
            join_warning(tasks.ended.last()),
        ));
    } else {
        assert(tasks.ended =~= Seq::empty());
        assert(tasks.ended.map_values(judge) =~= Seq::empty());
    }
}

/// Nothing is spawned or dropped before it is heard that no ended task is left.
pub proof fn law_spawn_waits_for_ended_tasks<A>(
    stage: SpawnStage,
    service: ServiceState<A>,
    event: SpawnEvent,
)
    ensures
        ({
            let action = spawn_step(stage, service, event).1;
            &&& action is Spawn <==> stage is TakeEnded && event is NoneEnded && !service.shutdown
            &&& action is Discard <==> stage is TakeEnded && event is NoneEnded && service.shutdown
        }),
{
}

} // verus!
