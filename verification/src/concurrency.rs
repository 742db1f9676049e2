//! What holds of any number of callers that share the service and the connect lock.
//!
//! A [`World`] is the service, the callers that are under way, and who holds the connect lock. A
//! [`Move`] is one thing that can happen in it: a caller begins, is told of an event, or is
//! cancelled; or anything else is done to the service. Callers keep to what they are told: they
//! acquire the lock only when asked to, and hold it until they return.

use crate::apps_for_key::{apps_for_key_step, AppsForKeyAction, AppsForKeyEvent, AppsForKeyStage};
use crate::key::ConnectionKeyView;
use crate::refresh_if_stale::{refresh_step, RefreshEvent, RefreshStage};
use crate::state::ServiceState;
use vstd::prelude::*;

verus! {

/// A caller that is under way.
pub enum Caller<A> {
    /// One that looks for the runtime under a key.
    Search { key: ConnectionKeyView, refresh: bool, stage: AppsForKeyStage<A> },
    /// One that brings the inventory of a runtime up to date.
    Refresh { key: ConnectionKeyView, identity: usize, update: RefreshStage },
}

/// The service and those who use it.
pub struct World<A> {
    pub service: ServiceState<A>,
    pub callers: Map<nat, Caller<A>>,
    pub lock_holder: Option<nat>,
}

/// What is done to the service by others than the callers.
pub enum SideEffect {
    ClearThrough(u64),
    Disconnect,
    Announce,
    Reserve(ConnectionKeyView),
    Retarget(ConnectionKeyView, ConnectionKeyView),
    Release(ConnectionKeyView),
    Begin(ConnectionKeyView),
    End(ConnectionKeyView),
    ShutDown,
}

/// One thing that can happen.
pub enum Move<A, E> {
    /// A caller begins.
    Join(nat, Caller<A>),
    /// A search is told of an event.
    Search(nat, AppsForKeyEvent<A, E>),
    /// A refresh is told of an event.
    Refresh(nat, RefreshEvent<E>),
    /// A caller is cancelled, or has returned.
    Leave(nat),
    /// Something else is done to the service.
    Side(SideEffect),
}

/// The service after a side effect.
pub open spec fn side_effect<A>(service: ServiceState<A>, effect: SideEffect) -> ServiceState<A> {
    match effect {
        SideEffect::ClearThrough(auth_revision) => service.cleared_through(auth_revision),
        SideEffect::Disconnect => service.disconnected(),
        SideEffect::Announce => service.announced(),
        SideEffect::Reserve(key) => service.reserved(key),
        SideEffect::Retarget(from, to) => service.retargeted(from, to),
        SideEffect::Release(key) => service.released(key),
        SideEffect::Begin(key) => service.begun(key),
        SideEffect::End(key) => service.ended(key),
        SideEffect::ShutDown => service.shut_down(),
    }
}

impl<A> Caller<A> {
    /// Whether the caller has not done anything yet.
    pub open spec fn is_new(self) -> bool {
        match self {
            Caller::Search { stage, .. } => stage is Start,
            Caller::Refresh { update, .. } => update is Start,
        }
    }

    /// Whether the caller is making a connection.
    pub open spec fn is_connecting(self) -> bool {
        self matches Caller::Search { stage, .. } && (stage is Connect || stage
            is EnsureConnectedLive || stage is InspectConnected)
    }

    /// Whether the caller is doing what takes the connect lock: making a connection, or bringing a
    /// stale inventory up to date.
    pub open spec fn works_under_lock(self) -> bool {
        self.is_connecting() || (self matches Caller::Refresh { update, .. } && update is Update)
    }
}

impl<A> World<A> {
    /// The lock is held by a caller; those who work under it hold it; and whoever is making a
    /// connection does so under a login that is not superseded and a key that is not connected.
    pub open spec fn disciplined(self) -> bool {
        &&& self.lock_holder matches Some(id) ==> self.callers.contains_key(id)
        &&& forall|id: nat|
            #![trigger self.callers[id]]
            self.callers.contains_key(id) ==> {
                let caller = self.callers[id];
                &&& caller.works_under_lock() ==> self.lock_holder == Some(id)
                &&& caller.is_connecting() ==> {
                    &&& !self.service.is_newer_than(caller->Search_key.auth_revision)
                    &&& self.service.apps_for(caller->Search_key) is None
                }
            }
    }

    /// Who holds the lock once caller `id` acquired it, if it did, and gave it up, if it returned.
    pub open spec fn lock_holder_after(self, id: nat, acquired: bool, returned: bool) -> Option<
        nat,
    > {
        if returned && (acquired || self.lock_holder == Some(id)) {
            None
        } else if acquired {
            Some(id)
        } else {
            self.lock_holder
        }
    }

    /// Whether `step` can happen: in particular, only a free lock is acquired.
    pub open spec fn allows<E>(self, step: Move<A, E>) -> bool {
        match step {
            Move::Join(id, caller) => !self.callers.contains_key(id) && caller.is_new(),
            Move::Search(id, event) => {
                &&& self.callers.contains_key(id)
                &&& self.callers[id] is Search
                &&& event is ConnectLocked ==> self.callers[id]->stage is LockConnect
                    && self.lock_holder is None
            },
            Move::Refresh(id, event) => {
                &&& self.callers.contains_key(id)
                &&& self.callers[id] is Refresh
                &&& event is ConnectLocked ==> self.callers[id]->update is LockConnect
                    && self.lock_holder is None
            },
            Move::Leave(id) => self.callers.contains_key(id),
            Move::Side(_) => true,
        }
    }

    /// The world after `step`.
    pub open spec fn after<E>(self, step: Move<A, E>) -> World<A> {
        match step {
            Move::Join(id, caller) => World { callers: self.callers.insert(id, caller), ..self },
            Move::Search(id, event) => {
                let caller = self.callers[id];
                let outcome = apps_for_key_step(
                    caller->stage,
                    caller->Search_key,
                    caller->refresh,
                    self.service,
                    event,
                );
                World {
                    service: outcome.service,
                    callers: self.callers.insert(
                        id,
                        Caller::Search {
                            key: caller->Search_key,
                            refresh: caller->refresh,
                            stage: outcome.stage,
                        },
                    ),
                    lock_holder: self.lock_holder_after(
                        id,
                        event is ConnectLocked,
                        outcome.action is Return,
                    ),
                }
            },
            Move::Refresh(id, event) => {
                let caller = self.callers[id];
                let outcome = refresh_step(
                    caller->update,
                    caller->Refresh_key,
                    caller->identity,
                    self.service,
                    event,
                );
                World {
                    service: outcome.service,
                    callers: self.callers.insert(
                        id,
                        Caller::Refresh {
                            key: caller->Refresh_key,
                            identity: caller->identity,
                            update: outcome.stage,
                        },
                    ),
                    lock_holder: self.lock_holder_after(
                        id,
                        event is ConnectLocked,
                        outcome.action is Return,
                    ),
                }
            },
            Move::Leave(id) => World {
                callers: self.callers.remove(id),
                lock_holder: if self.lock_holder == Some(id) {
                    None
                } else {
                    self.lock_holder
                },
                ..self
            },
            Move::Side(effect) => World { service: side_effect(self.service, effect), ..self },
        }
    }

    /// Whether all of `steps` can happen, one after the other.
    pub open spec fn allows_all<E>(self, steps: Seq<Move<A, E>>) -> bool
        decreases steps.len(),
    {
        steps.len() == 0 || (self.allows_all(steps.drop_last()) && self.after_all(
            steps.drop_last(),
        ).allows(steps.last()))
    }

    /// The world after all of `steps`.
    pub open spec fn after_all<E>(self, steps: Seq<Move<A, E>>) -> World<A>
        decreases steps.len(),
    {
        if steps.len() == 0 {
            self
        } else {
            self.after_all(steps.drop_last()).after(steps.last())
        }
    }
}

/// Whatever happens, the callers keep the lock discipline.
pub proof fn law_discipline_is_kept<A, E>(world: World<A>, step: Move<A, E>)
    requires
        world.disciplined(),
        world.allows(step),
    ensures
        world.after(step).disciplined(),
{
    let next = world.after(step);
    assert forall|id: nat| #![trigger next.callers[id]] next.callers.contains_key(id) implies {
        let caller = next.callers[id];
        &&& caller.works_under_lock() ==> next.lock_holder == Some(id)
        &&& caller.is_connecting() ==> {
            &&& !next.service.is_newer_than(caller->Search_key.auth_revision)
            &&& next.service.apps_for(caller->Search_key) is None
        }
    } by {
        if world.callers.contains_key(id) {
            let _ = world.callers[id];
        }
        match step {
            Move::Search(mover, _) => {
                let _ = world.callers[mover];
            },
            Move::Refresh(mover, _) => {
                let _ = world.callers[mover];
            },
            _ => {},
        }
    }
}

/// However many moves are made from a world that nobody uses yet, the callers keep the lock
/// discipline.
pub proof fn law_discipline_always_holds<A, E>(service: ServiceState<A>, steps: Seq<Move<A, E>>)
    requires
        (World { service, callers: Map::empty(), lock_holder: None }).allows_all(steps),
    ensures
        (World { service, callers: Map::empty(), lock_holder: None }).after_all(
            steps,
        ).disciplined(),
    decreases steps.len(),
{
    let world = World { service, callers: Map::<nat, Caller<A>>::empty(), lock_holder: None };
    if steps.len() > 0 {
        law_discipline_always_holds::<A, E>(service, steps.drop_last());
        law_discipline_is_kept(world.after_all(steps.drop_last()), steps.last());
    }
}

/// At most one caller at a time makes a connection or brings a stale inventory up to date.
pub proof fn law_work_under_lock_is_exclusive<A>(world: World<A>, one: nat, other: nat)
    requires
        world.disciplined(),
        world.callers.contains_key(one),
        world.callers[one].works_under_lock(),
        world.callers.contains_key(other),
        world.callers[other].works_under_lock(),
    ensures
        one == other,
{
}

/// No move puts a connection of an earlier login in the place of one of a later login.
pub proof fn law_connection_login_never_regresses<A, E>(world: World<A>, step: Move<A, E>)
    requires
        world.disciplined(),
        world.allows(step),
        world.service.current is Some,
        world.after(step).service.current is Some,
    ensures
        world.after(step).service.current->0.key.auth_revision
            >= world.service.current->0.key.auth_revision,
{
    match step {
        Move::Search(mover, _) => {
            let _ = world.callers[mover];
        },
        _ => {},
    }
}

/// Whether no connection is given up in any of `steps`.
pub open spec fn gives_up_nothing<A, E>(steps: Seq<Move<A, E>>) -> bool {
    forall|i: int|
        0 <= i < steps.len() ==> ((#[trigger] steps[i]) matches Move::Side(effect) ==> !(effect
            is ClearThrough) && !(effect is Disconnect))
}

/// However many moves are made, as long as none gives the connection up there stays one, and its
/// login never gets older.
pub proof fn law_connection_stays_and_never_ages<A, E>(world: World<A>, steps: Seq<Move<A, E>>)
    requires
        world.disciplined(),
        world.service.current is Some,
        world.allows_all(steps),
        gives_up_nothing(steps),
    ensures
        world.after_all(steps).disciplined(),
        world.after_all(steps).service.current is Some,
        world.after_all(steps).service.current->0.key.auth_revision
            >= world.service.current->0.key.auth_revision,
    decreases steps.len(),
{
    if steps.len() > 0 {
        let earlier = steps.drop_last();
        assert(forall|i: int| 0 <= i < earlier.len() ==> #[trigger] earlier[i] == steps[i]);
        law_connection_stays_and_never_ages(world, earlier);
        let before = world.after_all(earlier);
        assert(steps.last() == steps[steps.len() - 1]);
        law_discipline_is_kept(before, steps.last());
        law_connection_login_never_regresses(before, steps.last());
    }
}

/// The stage of a search under `key` after each of `history` happened, with the service as it then
/// was.
pub open spec fn search_stage_after<A, E>(
    key: ConnectionKeyView,
    refresh: bool,
    history: Seq<(ServiceState<A>, AppsForKeyEvent<A, E>)>,
) -> AppsForKeyStage<A>
    decreases history.len(),
{
    if history.len() == 0 {
        AppsForKeyStage::Start
    } else {
        apps_for_key_step(
            search_stage_after(key, refresh, history.drop_last()),
            key,
            refresh,
            history.last().0,
            history.last().1,
        ).stage
    }
}

/// What a search under `key` is told to do last once each of `history` happened.
pub open spec fn search_action_after<A, E>(
    key: ConnectionKeyView,
    refresh: bool,
    history: Seq<(ServiceState<A>, AppsForKeyEvent<A, E>)>,
) -> AppsForKeyAction<A, E> {
    apps_for_key_step(
        search_stage_after(key, refresh, history.drop_last()),
        key,
        refresh,
        history.last().0,
        history.last().1,
    ).action
}

/// A search whose login was superseded when it began stays over.
proof fn lemma_superseded_search_is_over<A, E>(
    key: ConnectionKeyView,
    refresh: bool,
    history: Seq<(ServiceState<A>, AppsForKeyEvent<A, E>)>,
)
    requires
        history.len() > 0,
        history[0].1 is Begin,
        history[0].0.is_newer_than(key.auth_revision),
    ensures
        search_stage_after(key, refresh, history) is Finished,
    decreases history.len(),
{
    if history.len() > 1 {
        lemma_superseded_search_is_over(key, refresh, history.drop_last());
    } else {
        assert(search_stage_after(key, refresh, history.drop_last()) is Start);
    }
}

/// Whatever happens to the service while a search is under way, a runtime is returned only for a key
/// that is no older than the connection that was current when the search began.
pub proof fn law_returned_runtime_was_not_superseded<A, E>(
    key: ConnectionKeyView,
    refresh: bool,
    history: Seq<(ServiceState<A>, AppsForKeyEvent<A, E>)>,
)
    requires
        history.len() > 0,
        history[0].1 is Begin,
        search_action_after(key, refresh, history) matches AppsForKeyAction::Return(Ok(Some(_))),
    ensures
        history[0].0.current matches Some(connected) ==> connected.key.auth_revision
            <= key.auth_revision,
{
    if history[0].0.is_newer_than(key.auth_revision) {
        if history.len() > 1 {
            lemma_superseded_search_is_over(key, refresh, history.drop_last());
        } else {
            assert(search_stage_after(key, refresh, history.drop_last()) is Start);
        }
    }
}

/// A caller that is told to connect finds no connection under its key, and none of a later login.
pub proof fn law_only_misses_connect<A, E>(
    world: World<A>,
    id: nat,
    event: AppsForKeyEvent<A, E>,
)
    requires
        world.allows(Move::Search(id, event)),
        apps_for_key_step(
            world.callers[id]->stage,
            world.callers[id]->Search_key,
            world.callers[id]->refresh,
            world.service,
            event,
        ).action is Connect,
    ensures
        world.service.apps_for(world.callers[id]->Search_key) is None,
        !world.service.is_newer_than(world.callers[id]->Search_key.auth_revision),
        world.after(Move::Search(id, event)).lock_holder == Some(id),
{
}

/// The freshness of a connection that stays current changes only when a caller updated its
/// inventory with success, and then to the time of that; nothing else makes an inventory fresher,
/// failures least of all.
pub proof fn law_only_success_advances_freshness<A, E>(world: World<A>, step: Move<A, E>)
    requires
        world.disciplined(),
        world.allows(step),
        world.service.current is Some,
        world.after(step).service.current is Some,
        world.after(step).service.current->0.key == world.service.current->0.key,
        world.after(step).service.current->0.refreshed_at
            != world.service.current->0.refreshed_at,
    ensures
        ({
            let refreshed_at = world.after(step).service.current->0.refreshed_at;
            ||| step matches Move::Search(id, event) && event matches AppsForKeyEvent::Updated {
                result,
                now,
            } && result is Ok && refreshed_at == Some(now)
            ||| step matches Move::Refresh(id, event) && event matches RefreshEvent::Updated {
                result,
                now,
            } && result is Ok && refreshed_at == Some(now)
        }),
{
    match step {
        Move::Search(mover, _) => {
            let _ = world.callers[mover];
        },
        _ => {},
    }
}

/// Shutdown is for good, and how long an inventory stays fresh never changes.
pub proof fn law_shutdown_is_permanent<A, E>(world: World<A>, step: Move<A, E>)
    ensures
        world.service.shutdown ==> world.after(step).service.shutdown,
        world.after(step).service.cache_ttl == world.service.cache_ttl,
{
}

/// Whether no caller is looking for a runtime.
pub open spec fn no_search<A>(world: World<A>) -> bool {
    forall|id: nat|
        #![trigger world.callers[id]]
        world.callers.contains_key(id) ==> !(world.callers[id] is Search)
}

/// A connection that was given up stays given up while no caller is looking for a runtime and none
/// begins to.
pub proof fn law_connection_stays_given_up<A, E>(world: World<A>, steps: Seq<Move<A, E>>)
    requires
        world.service.current is None,
        no_search(world),
        world.allows_all(steps),
        forall|i: int|
            0 <= i < steps.len() ==> ((#[trigger] steps[i]) matches Move::Join(_, caller) ==> !(
            caller is Search)),
    ensures
        world.after_all(steps).service.current is None,
        no_search(world.after_all(steps)),
    decreases steps.len(),
{
    if steps.len() > 0 {
        let earlier = steps.drop_last();
        assert(forall|i: int| 0 <= i < earlier.len() ==> #[trigger] earlier[i] == steps[i]);
        law_connection_stays_given_up(world, earlier);
        let before = world.after_all(earlier);
        let step = steps.last();
        assert(step == steps[steps.len() - 1]);
        match step {
            Move::Search(mover, _) => {
                let _ = before.callers[mover];
            },
            _ => {},
        }
        let after = before.after(step);
        assert forall|id: nat| #![trigger after.callers[id]] after.callers.contains_key(id)
            implies !(after.callers[id] is Search) by {
            if before.callers.contains_key(id) {
                let _ = before.callers[id];
            }
        }
    }
}

} // verus!
