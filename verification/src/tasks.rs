//! What holds of any number of background tasks that share the service.
//!
//! [`Tasks`] is the service and the background tasks that are running. A [`TaskMove`] is one thing
//! that can happen: a task is asked for, its request is told of an event or closed, or it ends or is
//! cut short; or anything else is done to the service that does not concern the two registers.

use crate::apps_for_config::{
    apps_for_config_step, AppsForConfigEventView, AppsForConfigStageView, AppsForConfigView,
};
use crate::apps_for_key::{apps_for_key_step, AppsForKeyEvent, AppsForKeyStage};
use crate::connected::AppsHandle;
use crate::key::ConnectionKeyView;
use crate::shutdown::{shutdown_step, ShutdownAction, ShutdownEvent, ShutdownStage};
use crate::state::ServiceState;
use vstd::multiset::Multiset;
use vstd::prelude::*;

verus! {

/// A background task: the key that it was launched under, and its request. A task that only
/// refreshes has a request that is over from the start.
pub struct Task {
    pub initialization: ConnectionKeyView,
    pub request: AppsForConfigView,
}

/// The service and the background tasks that are running.
pub struct Tasks<A> {
    pub service: ServiceState<A>,
    pub running: Map<nat, Task>,
}

/// One thing that can happen.
pub enum TaskMove<A, E> {
    /// An initialization is asked for, by a thread that waits for it or not.
    Initialize(nat, ConnectionKeyView, bool),
    /// A background refresh is launched, if it may be.
    Refresh(nat, ConnectionKeyView),
    /// The request of a task is told of an event.
    Request(nat, AppsForConfigEventView<A, E>),
    /// The request of a task is closed.
    Close(nat),
    /// A task whose request is closed ends, and has failed or not.
    Finish(nat, bool),
    /// A task is cut short by shutdown: its request is dropped, and it ends without having failed.
    Interrupt(nat),
    /// Something else is done to the service.
    Other(ServiceState<A>),
}

impl<A> Tasks<A> {
    /// The tasks that hold a reservation under `key`.
    pub open spec fn reserving(self, key: ConnectionKeyView) -> Set<nat> {
        self.running.dom().filter(|id: nat| self.running[id].request.reservation == Some(key))
    }

    /// The tasks that were launched under `key`.
    pub open spec fn initializing(self, key: ConnectionKeyView) -> Set<nat> {
        self.running.dom().filter(|id: nat| self.running[id].initialization == key)
    }

    /// The registers hold exactly what the running tasks hold; under each key at most one task is
    /// running; and a task that is looking for the runtime under a key holds its reservation there.
    pub open spec fn accounted(self) -> bool {
        &&& self.running.dom().finite()
        &&& self.service.wf()
        &&& forall|key: ConnectionKeyView| #[trigger]
            self.service.reservations.count(key) == self.reserving(key).len()
        &&& forall|key: ConnectionKeyView| #[trigger]
            self.service.initializations.count(key) == self.initializing(key).len()
        &&& forall|id: nat| #[trigger]
            self.running.contains_key(id) ==> {
                let request = self.running[id].request;
                request.stage matches AppsForConfigStageView::Resolve(key) ==> (
                request.reservation is Some ==> request.reservation == Some(key))
            }
    }

    /// Whether `step` can happen.
    pub open spec fn allows<E>(self, step: TaskMove<A, E>) -> bool {
        match step {
            TaskMove::Initialize(id, _, _) => !self.running.contains_key(id),
            TaskMove::Refresh(id, _) => !self.running.contains_key(id),
            TaskMove::Request(id, _) => self.running.contains_key(id),
            TaskMove::Close(id) => self.running.contains_key(id),
            TaskMove::Finish(id, _) => self.running.contains_key(id)
                && self.running[id].request.reservation is None,
            TaskMove::Interrupt(id) => self.running.contains_key(id) && self.service.shutdown,
            TaskMove::Other(service) => service.reservations == self.service.reservations
                && service.initializations == self.service.initializations && (
            self.service.shutdown ==> service.shutdown),
        }
    }

    /// The service and the tasks after `step`.
    pub open spec fn after<E>(self, step: TaskMove<A, E>) -> Tasks<A> {
        match step {
            TaskMove::Initialize(id, key, waiting) => Tasks {
                service: self.service.initialization_asked(key, waiting),
                running: if self.service.launches(key) {
                    self.running.insert(
                        id,
                        Task {
                            initialization: key,
                            request: AppsForConfigView {
                                refresh: false,
                                reservation: Some(key),
                                stage: AppsForConfigStageView::Start,
                            },
                        },
                    )
                } else {
                    self.running
                },
            },
            TaskMove::Refresh(id, key) => if self.service.launches(key) {
                Tasks {
                    service: self.service.begun(key),
                    running: self.running.insert(
                        id,
                        Task {
                            initialization: key,
                            request: AppsForConfigView {
                                refresh: false,
                                reservation: None,
                                stage: AppsForConfigStageView::Finished,
                            },
                        },
                    ),
                }
            } else {
                self
            },
            TaskMove::Request(id, event) => {
                let outcome = apps_for_config_step(self.running[id].request, self.service, event);
                Tasks {
                    service: outcome.service,
                    running: self.running.insert(
                        id,
                        Task { request: outcome.request, ..self.running[id] },
                    ),
                }
            },
            TaskMove::Close(id) => Tasks {
                service: match self.running[id].request.reservation {
                    Some(key) => self.service.released(key),
                    None => self.service,
                },
                running: self.running.insert(
                    id,
                    Task {
                        request: AppsForConfigView {
                            reservation: None,
                            stage: AppsForConfigStageView::Finished,
                            ..self.running[id].request
                        },
                        ..self.running[id]
                    },
                ),
            },
            TaskMove::Finish(id, failed) => Tasks {
                service: self.service.background_finished(self.running[id].initialization, failed),
                running: self.running.remove(id),
            },
            TaskMove::Interrupt(id) => Tasks {
                service: (match self.running[id].request.reservation {
                    Some(key) => self.service.released(key),
                    None => self.service,
                }).background_finished(self.running[id].initialization, false),
                running: self.running.remove(id),
            },
            TaskMove::Other(service) => Tasks { service, running: self.running },
        }
    }

    /// Whether all of `steps` can happen, one after the other.
    pub open spec fn allows_all<E>(self, steps: Seq<TaskMove<A, E>>) -> bool
        decreases steps.len(),
    {
        steps.len() == 0 || (self.allows_all(steps.drop_last()) && self.after_all(
            steps.drop_last(),
        ).allows(steps.last()))
    }

    /// The service and the tasks after all of `steps`.
    pub open spec fn after_all<E>(self, steps: Seq<TaskMove<A, E>>) -> Tasks<A>
        decreases steps.len(),
    {
        if steps.len() == 0 {
            self
        } else {
            self.after_all(steps.drop_last()).after(steps.last())
        }
    }
}

/// Who holds what once `task` runs under `id`, in place of what ran under it.
proof fn lemma_holders_after_insert<A>(
    before: Tasks<A>,
    after: Tasks<A>,
    id: nat,
    task: Task,
    key: ConnectionKeyView,
)
    requires
        after.running == before.running.insert(id, task),
        before.running.dom().finite(),
    ensures
        after.running.dom().finite(),
        before.reserving(key).finite(),
        before.initializing(key).finite(),
        after.reserving(key) == if task.request.reservation == Some(key) {
            before.reserving(key).insert(id)
        } else {
            before.reserving(key).remove(id)
        },
        after.initializing(key) == if task.initialization == key {
            before.initializing(key).insert(id)
        } else {
            before.initializing(key).remove(id)
        },
{
    before.running.dom().lemma_len_filter(
        |id: nat| before.running[id].request.reservation == Some(key),
    );
    before.running.dom().lemma_len_filter(|id: nat| before.running[id].initialization == key);
    assert(after.reserving(key) =~= if task.request.reservation == Some(key) {
        before.reserving(key).insert(id)
    } else {
        before.reserving(key).remove(id)
    });
    assert(after.initializing(key) =~= if task.initialization == key {
        before.initializing(key).insert(id)
    } else {
        before.initializing(key).remove(id)
    });
}

/// Who holds what once nothing runs under `id` any more.
proof fn lemma_holders_after_remove<A>(
    before: Tasks<A>,
    after: Tasks<A>,
    id: nat,
    key: ConnectionKeyView,
)
    requires
        after.running == before.running.remove(id),
        before.running.dom().finite(),
    ensures
        after.running.dom().finite(),
        before.reserving(key).finite(),
        before.initializing(key).finite(),
        after.reserving(key) == before.reserving(key).remove(id),
        after.initializing(key) == before.initializing(key).remove(id),
{
    before.running.dom().lemma_len_filter(
        |id: nat| before.running[id].request.reservation == Some(key),
    );
    before.running.dom().lemma_len_filter(|id: nat| before.running[id].initialization == key);
    assert(after.reserving(key) =~= before.reserving(key).remove(id));
    assert(after.initializing(key) =~= before.initializing(key).remove(id));
}

/// Whatever happens, the registers hold exactly what the running tasks hold.
pub proof fn law_registers_match_tasks<A, E>(tasks: Tasks<A>, step: TaskMove<A, E>)
    requires
        tasks.accounted(),
        tasks.allows(step),
    ensures
        tasks.after(step).accounted(),
{
    let next = tasks.after(step);
    let mover: Option<nat> = match step {
        TaskMove::Initialize(id, _, _) => Some(id),
        TaskMove::Refresh(id, _) => Some(id),
        TaskMove::Request(id, _) => Some(id),
        TaskMove::Close(id) => Some(id),
        TaskMove::Finish(id, _) => Some(id),
        TaskMove::Interrupt(id) => Some(id),
        TaskMove::Other(_) => None,
    };
    assert forall|key: ConnectionKeyView|
        #![trigger next.service.reservations.count(key)]
        #![trigger next.service.initializations.count(key)]
        {
            &&& next.running.dom().finite()
            &&& next.service.reservations.count(key) == next.reserving(key).len()
            &&& next.service.initializations.count(key) == next.initializing(key).len()
            &&& next.service.initializations.count(key) <= 1
        } by {
        assert(tasks.service.reservations.count(key) == tasks.reserving(key).len());
        assert(tasks.service.initializations.count(key) == tasks.initializing(key).len());
        if let Some(id) = mover {
            if step is Finish || step is Interrupt {
                lemma_holders_after_remove(tasks, next, id, key);
            } else if next.running.contains_key(id) {
                lemma_holders_after_insert(tasks, next, id, next.running[id], key);
            }
        }
    }
    assert forall|id: nat| #[trigger] next.running.contains_key(id) implies {
        let request = next.running[id].request;
        request.stage matches AppsForConfigStageView::Resolve(key) ==> (request.reservation is Some
            ==> request.reservation == Some(key))
    } by {
        assert(tasks.running.contains_key(id) || mover == Some(id));
    }
    let any = arbitrary::<ConnectionKeyView>();
    assert(next.service.reservations.count(any) == next.reserving(any).len());
}

/// However many moves are made from a service without tasks, the registers hold exactly what the
/// running tasks hold.
pub proof fn law_registers_always_match_tasks<A, E>(
    service: ServiceState<A>,
    steps: Seq<TaskMove<A, E>>,
)
    requires
        service.reservations == Multiset::<ConnectionKeyView>::empty(),
        service.initializations == Multiset::<ConnectionKeyView>::empty(),
        (Tasks { service, running: Map::empty() }).allows_all(steps),
    ensures
        (Tasks { service, running: Map::empty() }).after_all(steps).accounted(),
    decreases steps.len(),
{
    let tasks = Tasks { service, running: Map::<nat, Task>::empty() };
    if steps.len() > 0 {
        law_registers_always_match_tasks::<A, E>(service, steps.drop_last());
        law_registers_match_tasks(tasks.after_all(steps.drop_last()), steps.last());
    } else {
        assert forall|key: ConnectionKeyView| #[trigger] tasks.reserving(key).len() == 0 by {
            assert(tasks.reserving(key) =~= Set::empty());
        }
        assert forall|key: ConnectionKeyView| #[trigger] tasks.initializing(key).len() == 0 by {
            assert(tasks.initializing(key) =~= Set::empty());
        }
    }
}

/// Two tasks never run under the same key.
pub proof fn law_one_task_for_each_key<A>(tasks: Tasks<A>, one: nat, other: nat)
    requires
        tasks.accounted(),
        tasks.running.contains_key(one),
        tasks.running.contains_key(other),
        tasks.running[one].initialization == tasks.running[other].initialization,
    ensures
        one == other,
{
    let key = tasks.running[one].initialization;
    assert(tasks.service.initializations.count(key) == tasks.initializing(key).len());
    tasks.running.dom().lemma_len_filter(|id: nat| tasks.running[id].initialization == key);
    if one != other {
        let rest = tasks.initializing(key).remove(one);
        assert(tasks.initializing(key).contains(one));
        assert(rest.contains(other));
    }
}

/// While a launched initialization looks for the runtime under a key, whatever the login has become
/// since its launch, its publication is reserved there: if it connects, the connection is published
/// without another announcement.
pub proof fn law_launched_connection_is_not_announced_again<A, E>(
    tasks: Tasks<A>,
    id: nat,
    key: ConnectionKeyView,
    apps: AppsHandle<A>,
)
    requires
        tasks.accounted(),
        tasks.running.contains_key(id),
        tasks.running[id].request.stage == AppsForConfigStageView::Resolve(key),
        tasks.running[id].request.reservation is Some,
    ensures
        tasks.service.reservations.contains(key),
        apps_for_key_step::<A, E>(
            AppsForKeyStage::Connect,
            key,
            false,
            tasks.service,
            AppsForKeyEvent::Connected(Ok(apps)),
        ).stage == AppsForKeyStage::InspectConnected(apps, true),
{
    assert(tasks.service.reservations.count(key) == tasks.reserving(key).len());
    tasks.running.dom().lemma_len_filter(
        |id: nat| tasks.running[id].request.reservation == Some(key),
    );
    assert(tasks.reserving(key).contains(id));
}

/// Once no task is running, both registers are empty.
pub proof fn law_registers_empty_without_tasks<A>(tasks: Tasks<A>)
    requires
        tasks.accounted(),
        tasks.running == Map::<nat, Task>::empty(),
    ensures
        tasks.service.reservations == Multiset::<ConnectionKeyView>::empty(),
        tasks.service.initializations == Multiset::<ConnectionKeyView>::empty(),
{
    assert forall|key: ConnectionKeyView| #[trigger]
        tasks.service.reservations.count(key) == 0 by {
        assert(tasks.reserving(key) =~= Set::empty());
    }
    assert forall|key: ConnectionKeyView| #[trigger]
        tasks.service.initializations.count(key) == 0 by {
        assert(tasks.initializing(key) =~= Set::empty());
    }
    assert(tasks.service.reservations =~= Multiset::empty());
    assert(tasks.service.initializations =~= Multiset::empty());
}

/// Once shutdown has begun, no move launches a task, and none takes the shutdown back.
pub proof fn law_shutdown_launches_no_task<A, E>(tasks: Tasks<A>, step: TaskMove<A, E>)
    requires
        tasks.service.shutdown,
        tasks.allows(step),
    ensures
        tasks.after(step).service.shutdown,
        tasks.after(step).running.dom().subset_of(tasks.running.dom()),
{
}

/// Once shutdown has begun and all tasks have been joined, no task runs again.
pub proof fn law_joined_tasks_stay_joined<A, E>(tasks: Tasks<A>, steps: Seq<TaskMove<A, E>>)
    requires
        tasks.service.shutdown,
        tasks.running == Map::<nat, Task>::empty(),
        tasks.allows_all(steps),
    ensures
        tasks.after_all(steps).service.shutdown,
        tasks.after_all(steps).running == Map::<nat, Task>::empty(),
    decreases steps.len(),
{
    if steps.len() > 0 {
        law_joined_tasks_stay_joined(tasks, steps.drop_last());
        let before = tasks.after_all(steps.drop_last());
        law_shutdown_launches_no_task(before, steps.last());
        assert(before.after(steps.last()).running =~= Map::<nat, Task>::empty());
    }
}

/// A task that is cut short is gone at once, whatever it was waiting for. That is not announced, the
/// connection is as before, and the registers still hold what the other tasks hold.
pub proof fn law_interrupted_task_is_gone<A, E>(tasks: Tasks<A>, id: nat)
    requires
        tasks.accounted(),
        tasks.service.shutdown,
        tasks.running.contains_key(id),
    ensures
        ({
            let step = TaskMove::<A, E>::Interrupt(id);
            let after = tasks.after(step);
            &&& tasks.allows(step)
            &&& after.accounted()
            &&& after.running == tasks.running.remove(id)
            &&& after.service.publication_revision == tasks.service.publication_revision
            &&& after.service.current == tasks.service.current
            &&& after.service.shutdown
        }),
{
    law_registers_match_tasks(tasks, TaskMove::<A, E>::Interrupt(id));
}

/// The moves that cut the tasks `ids` short, one after the other.
pub open spec fn interruptions<A, E>(ids: Seq<nat>) -> Seq<TaskMove<A, E>> {
    ids.map_values(|id: nat| TaskMove::<A, E>::Interrupt(id))
}

/// Once shutdown has begun, all pending background work can be cut short, in any order and without
/// waiting for what it is doing: then no task is left, both registers are empty, nothing was
/// announced, and the connection is as it was.
pub proof fn law_shutdown_ends_pending_work<A, E>(tasks: Tasks<A>, ids: Seq<nat>)
    requires
        tasks.accounted(),
        tasks.service.shutdown,
        ids.no_duplicates(),
        ids.to_set() == tasks.running.dom(),
    ensures
        tasks.allows_all(interruptions::<A, E>(ids)),
        ({
            let after = tasks.after_all(interruptions::<A, E>(ids));
            &&& after.running == Map::<nat, Task>::empty()
            &&& after.service.reservations == Multiset::<ConnectionKeyView>::empty()
            &&& after.service.initializations == Multiset::<ConnectionKeyView>::empty()
            &&& after.service.publication_revision == tasks.service.publication_revision
            &&& after.service.current == tasks.service.current
            &&& after.service.shutdown
        }),
{
    lemma_interrupted::<A, E>(tasks, ids, ids.len());
    assert(ids.take(ids.len() as int) =~= ids);
    let after = tasks.after_all(interruptions::<A, E>(ids));
    assert forall|id: nat| !after.running.dom().contains(id) by {
        if tasks.running.dom().contains(id) {
            assert(ids.to_set().contains(id));
        }
    }
    assert(after.running =~= Map::<nat, Task>::empty());
    law_registers_empty_without_tasks(after);
}

/// What is left once the first `count` of the tasks `ids` were cut short.
proof fn lemma_interrupted<A, E>(tasks: Tasks<A>, ids: Seq<nat>, count: nat)
    requires
        tasks.accounted(),
        tasks.service.shutdown,
        ids.no_duplicates(),
        ids.to_set() == tasks.running.dom(),
        count <= ids.len(),
    ensures
        ({
            let steps = interruptions::<A, E>(ids.take(count as int));
            let after = tasks.after_all(steps);
            &&& tasks.allows_all(steps)
            &&& after.accounted()
            &&& after.service.publication_revision == tasks.service.publication_revision
            &&& after.service.current == tasks.service.current
            &&& after.service.shutdown
            &&& forall|id: nat| #[trigger]
                after.running.dom().contains(id) <==> tasks.running.dom().contains(id)
                    && !ids.take(count as int).contains(id)
        }),
    decreases count,
{
    let steps = interruptions::<A, E>(ids.take(count as int));
    if count > 0 {
        let fewer = (count - 1) as nat;
        let earlier = ids.take(fewer as int);
        let id = ids[fewer as int];
        lemma_interrupted::<A, E>(tasks, ids, fewer);
        assert(steps.drop_last() =~= interruptions::<A, E>(earlier));
        assert(steps.last() == TaskMove::<A, E>::Interrupt(id));
        let before = tasks.after_all(steps.drop_last());
        assert(ids.contains(id));
        assert(ids.to_set().contains(id));
        assert(!earlier.contains(id));
        assert(before.running.dom().contains(id));
        law_interrupted_task_is_gone::<A, E>(before, id);
        assert(ids.take(count as int) =~= earlier.push(id));
        assert forall|other: nat| #[trigger]
            ids.take(count as int).contains(other) <==> earlier.contains(other) || other == id by {
            if earlier.contains(other) {
                let place = choose|i: int| 0 <= i < earlier.len() && earlier[i] == other;
                assert(ids.take(count as int)[place] == other);
            }
            if other == id {
                assert(ids.take(count as int)[fewer as int] == other);
            }
            if ids.take(count as int).contains(other) {
                let place = choose|i: int|
                    0 <= i < count && ids.take(count as int)[i] == other;
                if place < fewer {
                    assert(earlier[place] == other);
                }
            }
        }
    } else {
        assert(steps =~= Seq::empty());
        assert(ids.take(0) =~= Seq::empty());
    }
}

/// A shutdown that has joined all tasks is complete: nothing runs, both registers are empty, the
/// connection is given up, and the runtime to stop is the one that was connected, if any.
pub proof fn law_shutdown_is_complete<A>(tasks: Tasks<A>)
    requires
        tasks.accounted(),
        tasks.service.shutdown,
        tasks.running == Map::<nat, Task>::empty(),
    ensures
        ({
            let outcome = shutdown_step(
                ShutdownStage::JoinTasks,
                tasks.service,
                ShutdownEvent::NoTaskLeft,
            );
            &&& outcome.action == match tasks.service.current {
                Some(connected) => ShutdownAction::StopRuntime(connected.apps),
                None => ShutdownAction::<A>::Return,
            }
            &&& outcome.service == tasks.service.disconnected()
            &&& outcome.service.shutdown
            &&& outcome.service.current is None
            &&& outcome.service.reservations == Multiset::<ConnectionKeyView>::empty()
            &&& outcome.service.initializations == Multiset::<ConnectionKeyView>::empty()
        }),
{
    law_registers_empty_without_tasks(tasks);
}

} // verus!
