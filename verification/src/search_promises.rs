//! What searches for a runtime and refreshes of its inventory do.
//!
//! As in [`crate::promises`], each law speaks of calls, and says of their arguments and results when
//! which result comes back. The last ones speak of whole searches.

use crate::apps_for_key::{
    apps_for_key_step, AppsForKey, AppsForKeyAction, AppsForKeyEvent, AppsForKeyStage,
};
use crate::concurrency::{search_action_after, search_stage_after};
use crate::connected::{AppsHandle, ConnectedView};
use crate::key::{CodexAppsConnectionKey, ConnectionKeyView};
use crate::promises::{follows, same_but_connection};
use crate::refresh_if_stale::{RefreshAction, RefreshEvent, RefreshIfStale, RefreshStage};
use crate::service::AppsConnectionService;
use crate::state::ServiceState;
use vstd::prelude::*;

verus! {

/// Whether a search looks at the current connection: when it begins, and again once it has the lock.
pub open spec fn looks_up<A, E>(stage: AppsForKeyStage<A>, event: AppsForKeyEvent<A, E>) -> bool {
    stage is Start && event is Begin || stage is LockConnect && event is ConnectLocked
}

/// A new search has yet to be started, for the key and the freshness that were asked for.
pub proof fn law_new_search_is_as_asked<A>(
    key: CodexAppsConnectionKey,
    refresh: bool,
    search: AppsForKey<A>,
)
    requires
        call_ensures(AppsForKey::<A>::new, (key, refresh), search),
    ensures
        search.key@ == key@,
        search.refresh == refresh,
        search.stage is Start,
{
}

/// A search returns no runtime exactly if it looks at the current connection and that was made under a
/// later login than its own.
pub proof fn law_search_finds_nothing_only_if_superseded<A, E>(
    search: &mut AppsForKey<A>,
    service: &mut AppsConnectionService<A>,
    event: AppsForKeyEvent<A, E>,
    action: AppsForKeyAction<A, E>,
)
    requires
        call_ensures(AppsForKey::<A>::step::<E>, (search, service, event), action),
    ensures
        action == AppsForKeyAction::<A, E>::Return(Ok(None)) <==> {
            &&& looks_up(old(search).stage, event)
            &&& old(service)@.current is Some
            &&& old(service)@.current->0.key.auth_revision > old(search).key.auth_revision
        },
{
}

/// A search returns a runtime exactly in three cases: it finds that runtime connected under its very
/// key and was not asked for a refresh; the update of that runtime, which it waited for, succeeded; or
/// that runtime is its new connection.
pub proof fn law_search_returns_what_it_found<A, E>(
    search: &mut AppsForKey<A>,
    service: &mut AppsConnectionService<A>,
    event: AppsForKeyEvent<A, E>,
    action: AppsForKeyAction<A, E>,
    apps: AppsHandle<A>,
)
    requires
        call_ensures(AppsForKey::<A>::step::<E>, (search, service, event), action),
    ensures
        action == AppsForKeyAction::<A, E>::Return(Ok(Some(apps))) <==> {
            ||| {
                &&& looks_up(old(search).stage, event)
                &&& !old(search).refresh
                &&& old(service)@.current is Some
                &&& old(service)@.current->0.key == old(search).key@
                &&& old(service)@.current->0.apps == apps
            }
            ||| {
                &&& old(search).stage == AppsForKeyStage::UpdateExisting(apps)
                &&& event is Updated
                &&& event->result is Ok
            }
            ||| {
                &&& old(search).stage matches AppsForKeyStage::InspectConnected(connected, _)
                    && connected == apps
                &&& event is Inspected
            }
        },
{
}

/// A search fails exactly if the connection or the update that it waited for failed, and with that
/// very error: a failed update of a connected runtime, or of a new connection, is never taken for a
/// success.
pub proof fn law_search_passes_failures_on<A, E>(
    search: &mut AppsForKey<A>,
    service: &mut AppsConnectionService<A>,
    event: AppsForKeyEvent<A, E>,
    action: AppsForKeyAction<A, E>,
    error: E,
)
    requires
        call_ensures(AppsForKey::<A>::step::<E>, (search, service, event), action),
    ensures
        action == AppsForKeyAction::<A, E>::Return(Err(error)) <==> {
            ||| {
                &&& old(search).stage is Connect
                &&& event == AppsForKeyEvent::<A, E>::Connected(Err(error))
            }
            ||| {
                &&& old(search).stage is UpdateExisting || old(search).stage is EnsureConnectedLive
                &&& event is Updated
                &&& event->result == Err::<(), E>(error)
            }
        },
{
}

/// The lock is asked for, and under it a connection, exactly if nothing is connected under the key of
/// the search and what is connected is not of a later login.
pub proof fn law_search_connects_on_a_miss<A, E>(
    search: &mut AppsForKey<A>,
    service: &mut AppsConnectionService<A>,
    event: AppsForKeyEvent<A, E>,
    action: AppsForKeyAction<A, E>,
)
    requires
        call_ensures(AppsForKey::<A>::step::<E>, (search, service, event), action),
    ensures
        action is LockConnect || action is Connect <==> looks_up(old(search).stage, event) && (old(
            service)@.current is Some ==> {
            &&& old(service)@.current->0.key != old(search).key@
            &&& old(service)@.current->0.key.auth_revision <= old(search).key.auth_revision
        }),
        action is LockConnect ==> old(search).stage is Start && final(search).stage is LockConnect,
        action is Connect ==> old(search).stage is LockConnect && final(search).stage is Connect,
{
}

/// A runtime that is connected under the key is looked at exactly if a refresh was asked for; then it
/// is fetched again if its inventory is live, and made live if not.
pub proof fn law_connected_runtime_is_updated_if_asked<A, E>(
    search: &mut AppsForKey<A>,
    service: &mut AppsConnectionService<A>,
    event: AppsForKeyEvent<A, E>,
    action: AppsForKeyAction<A, E>,
    apps: AppsHandle<A>,
)
    requires
        call_ensures(AppsForKey::<A>::step::<E>, (search, service, event), action),
    ensures
        final(search).stage == AppsForKeyStage::InspectExisting(apps) && !(action is Unexpected)
            <==> {
            &&& looks_up(old(search).stage, event)
            &&& old(search).refresh
            &&& old(service)@.current is Some
            &&& old(service)@.current->0.key == old(search).key@
            &&& old(service)@.current->0.apps == apps
        },
        final(search).stage == AppsForKeyStage::InspectExisting(apps) && !(action is Unexpected)
            ==> action == AppsForKeyAction::<A, E>::Inspect(apps),
        action == AppsForKeyAction::<A, E>::Refresh(apps) <==> {
            &&& old(search).stage == AppsForKeyStage::InspectExisting(apps)
            &&& event is Inspected
            &&& event->live
        },
        old(search).stage == AppsForKeyStage::InspectExisting(apps) && event is Inspected ==> {
            &&& final(search).stage == AppsForKeyStage::UpdateExisting(apps)
            &&& !event->live ==> action == AppsForKeyAction::<A, E>::EnsureLive(apps)
        },
{
}

/// A new connection is made live first exactly if a refresh was asked for, and looked at then, or at
/// once. Whether its publication is reserved is noted when it comes to be looked at.
pub proof fn law_new_connection_is_made_live_if_asked<A, E>(
    search: &mut AppsForKey<A>,
    service: &mut AppsConnectionService<A>,
    event: AppsForKeyEvent<A, E>,
    action: AppsForKeyAction<A, E>,
    apps: AppsHandle<A>,
)
    requires
        call_ensures(AppsForKey::<A>::step::<E>, (search, service, event), action),
    ensures
        old(search).stage is Connect && event == AppsForKeyEvent::<A, E>::Connected(Ok(apps))
            && old(search).refresh ==> {
            &&& action == AppsForKeyAction::<A, E>::EnsureLive(apps)
            &&& final(search).stage == AppsForKeyStage::EnsureConnectedLive(apps)
        },
        ({
            ||| {
                &&& old(search).stage is Connect
                &&& event == AppsForKeyEvent::<A, E>::Connected(Ok(apps))
                &&& !old(search).refresh
            }
            ||| {
                &&& old(search).stage == AppsForKeyStage::EnsureConnectedLive(apps)
                &&& event is Updated
                &&& event->result is Ok
            }
        }) ==> {
            &&& action == AppsForKeyAction::<A, E>::Inspect(apps)
            &&& final(search).stage == AppsForKeyStage::InspectConnected(
                apps,
                old(service)@.reservations.count(old(search).key@) > 0,
            )
        },
{
}

/// A search is over once it returns. An event that it does not wait for leaves it and the service as
/// they were. What it was asked never changes.
pub proof fn law_search_waits_for_its_event<A, E>(
    search: &mut AppsForKey<A>,
    service: &mut AppsConnectionService<A>,
    event: AppsForKeyEvent<A, E>,
    action: AppsForKeyAction<A, E>,
)
    requires
        call_ensures(AppsForKey::<A>::step::<E>, (search, service, event), action),
    ensures
        final(search).key@ == old(search).key@,
        final(search).refresh == old(search).refresh,
        action is Return ==> final(search).stage is Finished,
        action is Unexpected <==> !(match old(search).stage {
            AppsForKeyStage::Start => event is Begin,
            AppsForKeyStage::LockConnect => event is ConnectLocked,
            AppsForKeyStage::Connect => event is Connected,
            AppsForKeyStage::InspectExisting(_) => event is Inspected,
            AppsForKeyStage::InspectConnected(_, _) => event is Inspected,
            AppsForKeyStage::UpdateExisting(_) => event is Updated,
            AppsForKeyStage::EnsureConnectedLive(_) => event is Updated,
            AppsForKeyStage::Finished => false,
        }),
        action is Unexpected ==> final(search).stage == old(search).stage && final(service)@ == old(
            service)@,
{
}

/// A search changes the connection in two cases only. A new connection that was looked at becomes the
/// current one, under the key of the search, and counts as live from then on exactly if it is. And
/// a successful update is noted, if the runtime is still the current one.
pub proof fn law_search_changes_the_connection<A, E>(
    search: &mut AppsForKey<A>,
    service: &mut AppsConnectionService<A>,
    event: AppsForKeyEvent<A, E>,
    action: AppsForKeyAction<A, E>,
)
    requires
        call_ensures(AppsForKey::<A>::step::<E>, (search, service, event), action),
    ensures
        old(search).stage is InspectConnected && event is Inspected ==> final(service)@.current
            == Some(
            ConnectedView {
                key: old(search).key@,
                apps: old(search).stage->InspectConnected_0,
                refreshed_at: if event->live {
                    Some(event->Inspected_now)
                } else {
                    None
                },
            },
        ),
        ({
            let updated = old(search).stage is UpdateExisting && event is Updated && event->result
                is Ok;
            let noted = updated && old(service)@.current is Some && old(service)@.current->0.key
                == old(search).key@ && old(service)@.current->0.apps.identity == old(
                search).stage->UpdateExisting_0.identity;
            &&& noted ==> {
                &&& final(service)@.current is Some
                &&& final(service)@.current->0.key == old(service)@.current->0.key
                &&& final(service)@.current->0.apps == old(service)@.current->0.apps
                &&& final(service)@.current->0.refreshed_at == Some(event->Updated_now)
            }
            &&& !noted && !(old(search).stage is InspectConnected && event is Inspected)
                ==> final(service)@.current == old(service)@.current
        }),
{
}

/// A search announces exactly when its new connection becomes the current one and the publication of
/// that was not reserved. It never reserves, launches or shuts down anything.
pub proof fn law_search_announces_its_new_connection<A, E>(
    search: &mut AppsForKey<A>,
    service: &mut AppsConnectionService<A>,
    event: AppsForKeyEvent<A, E>,
    action: AppsForKeyAction<A, E>,
)
    requires
        call_ensures(AppsForKey::<A>::step::<E>, (search, service, event), action),
    ensures
        ({
            let announces = old(search).stage is InspectConnected && event is Inspected && !old(
                search).stage->InspectConnected_1;
            &&& announces ==> follows(
                old(service).publication_revision,
                final(service).publication_revision,
            )
            &&& !announces ==> final(service).publication_revision == old(
                service).publication_revision
        }),
        final(service)@.reservations == old(service)@.reservations,
        final(service)@.initializations == old(service)@.initializations,
        final(service)@.shutdown == old(service)@.shutdown,
        final(service)@.cache_ttl == old(service)@.cache_ttl,
{
}

/// Whether a refresh of `identity` under `key` finds something to do: that runtime is the current one,
/// and its inventory is cached or has been live for the last time `cache_ttl` ago or earlier.
pub open spec fn is_due<A>(
    service: AppsConnectionService<A>,
    key: ConnectionKeyView,
    identity: usize,
    now: u128,
) -> bool {
    &&& service.current is Some
    &&& service.current->0.key@ == key
    &&& service.current->0.apps.identity == identity
    &&& match service.current->0.refreshed_at {
        None => true,
        Some(then) => service.cache_ttl == 0 || now - then >= service.cache_ttl,
    }
}

/// A new refresh has yet to be started, for the runtime and the key that were asked for.
pub proof fn law_new_refresh_is_as_asked<A>(
    key: CodexAppsConnectionKey,
    apps: AppsHandle<A>,
    refresh: RefreshIfStale<A>,
)
    requires
        call_ensures(RefreshIfStale::<A>::new, (key, apps), refresh),
    ensures
        refresh.key@ == key@,
        refresh.apps == apps,
        refresh.stage is Start,
{
}

/// A refresh fails exactly if the update that it waited for failed, and with that very error, whether
/// the inventory is cached or live, and whatever is connected by then.
pub proof fn law_refresh_passes_failures_on<A, E>(
    refresh: &mut RefreshIfStale<A>,
    service: &mut AppsConnectionService<A>,
    event: RefreshEvent<E>,
    action: RefreshAction<E>,
    error: E,
)
    requires
        call_ensures(RefreshIfStale::<A>::step::<E>, (refresh, service, event), action),
    ensures
        action == RefreshAction::<E>::Return(Err(error)) <==> {
            &&& old(refresh).stage is Update
            &&& event is Updated
            &&& event->result == Err::<(), E>(error)
        },
{
}

/// A refresh succeeds exactly if nothing was to be done, without the lock or once it has it, or the
/// update that it waited for succeeded.
pub proof fn law_refresh_succeeds_only_if_done<A, E>(
    refresh: &mut RefreshIfStale<A>,
    service: &mut AppsConnectionService<A>,
    event: RefreshEvent<E>,
    action: RefreshAction<E>,
)
    requires
        call_ensures(RefreshIfStale::<A>::step::<E>, (refresh, service, event), action),
    ensures
        (action matches RefreshAction::Return(result) && result is Ok) <==> {
            ||| {
                &&& old(refresh).stage is Start
                &&& event is Begin
                &&& !is_due(
                    *old(service),
                    old(refresh).key@,
                    old(refresh).apps.identity,
                    event->Begin_now,
                )
            }
            ||| {
                &&& old(refresh).stage is LockConnect
                &&& event is ConnectLocked
                &&& !is_due(
                    *old(service),
                    old(refresh).key@,
                    old(refresh).apps.identity,
                    event->ConnectLocked_now,
                )
            }
            ||| {
                &&& old(refresh).stage is Update
                &&& event is Updated
                &&& event->result is Ok
            }
        },
{
}

/// A refresh that is due takes the lock. If it is still due then, a cached inventory is made live and a
/// live one is fetched again.
pub proof fn law_due_refresh_is_carried_out<A, E>(
    refresh: &mut RefreshIfStale<A>,
    service: &mut AppsConnectionService<A>,
    event: RefreshEvent<E>,
    action: RefreshAction<E>,
)
    requires
        call_ensures(RefreshIfStale::<A>::step::<E>, (refresh, service, event), action),
    ensures
        action is LockConnect <==> {
            &&& old(refresh).stage is Start
            &&& event is Begin
            &&& is_due(
                *old(service),
                old(refresh).key@,
                old(refresh).apps.identity,
                event->Begin_now,
            )
        },
        action is EnsureLive || action is Refresh <==> {
            &&& old(refresh).stage is LockConnect
            &&& event is ConnectLocked
            &&& is_due(
                *old(service),
                old(refresh).key@,
                old(refresh).apps.identity,
                event->ConnectLocked_now,
            )
        },
        action is EnsureLive ==> old(service)@.current->0.refreshed_at is None,
        action is Refresh ==> old(service)@.current->0.refreshed_at is Some,
        action is LockConnect ==> final(refresh).stage is LockConnect,
        action is EnsureLive || action is Refresh ==> final(refresh).stage is Update,
{
}

/// A refresh is over once it returns, and an event that it does not wait for leaves it as it was. What
/// it was asked never changes.
pub proof fn law_refresh_waits_for_its_event<A, E>(
    refresh: &mut RefreshIfStale<A>,
    service: &mut AppsConnectionService<A>,
    event: RefreshEvent<E>,
    action: RefreshAction<E>,
)
    requires
        call_ensures(RefreshIfStale::<A>::step::<E>, (refresh, service, event), action),
    ensures
        final(refresh).key@ == old(refresh).key@,
        final(refresh).apps == old(refresh).apps,
        action is Return ==> final(refresh).stage is Finished,
        action is Unexpected <==> !(match old(refresh).stage {
            RefreshStage::Start => event is Begin,
            RefreshStage::LockConnect => event is ConnectLocked,
            RefreshStage::Update => event is Updated,
            RefreshStage::Finished => false,
        }),
        action is Unexpected ==> final(refresh).stage == old(refresh).stage,
{
}

/// A refresh changes nothing but when the inventory was last live: exactly if the update that it waited
/// for succeeded and the runtime is still the current one, and then to the time of that.
pub proof fn law_refresh_notes_its_success<A, E>(
    refresh: &mut RefreshIfStale<A>,
    service: &mut AppsConnectionService<A>,
    event: RefreshEvent<E>,
    action: RefreshAction<E>,
)
    requires
        call_ensures(RefreshIfStale::<A>::step::<E>, (refresh, service, event), action),
    ensures
        same_but_connection(final(service)@, old(service)@),
        ({
            let before = old(service)@.current;
            let after = final(service)@.current;
            let noted = old(refresh).stage is Update && event is Updated && event->result is Ok
                && before is Some && before->0.key == old(refresh).key@
                && before->0.apps.identity == old(refresh).apps.identity;
            &&& noted ==> {
                &&& after is Some
                &&& after->0.key == before->0.key
                &&& after->0.apps == before->0.apps
                &&& after->0.refreshed_at == Some(event->Updated_now)
            }
            &&& !noted ==> after == before
        }),
{
}

/// A refreshing search comes to look at its new connection only after the update of that succeeded.
proof fn lemma_looked_at_after_update<A, E>(
    key: ConnectionKeyView,
    history: Seq<(ServiceState<A>, AppsForKeyEvent<A, E>)>,
)
    ensures
        search_stage_after(key, true, history) matches AppsForKeyStage::InspectConnected(apps, _)
            ==> updated_in(key, history, apps),
    decreases history.len(),
{
    if history.len() > 0 {
        let earlier = history.drop_last();
        lemma_looked_at_after_update(key, earlier);
        let before = search_stage_after(key, true, earlier);
        let last = history.len() - 1;
        assert(history.take(last) =~= earlier);
        assert(history[last] == history.last());
        match search_stage_after(key, true, history) {
            AppsForKeyStage::InspectConnected(apps, _) => {
                if before is EnsureConnectedLive {
                    assert(succeeds_at(key, history, apps, last));
                } else {
                    let place = choose|i: int| succeeds_at(key, earlier, apps, i);
                    assert(earlier.take(place) =~= history.take(place));
                    assert(history[place] == earlier[place]);
                    assert(succeeds_at(key, history, apps, place));
                }
            },
            _ => {},
        }
    }
}

/// Whether the event at `place` tells a refreshing search, which waits for the update of `apps`, that
/// it succeeded.
pub open spec fn succeeds_at<A, E>(
    key: ConnectionKeyView,
    history: Seq<(ServiceState<A>, AppsForKeyEvent<A, E>)>,
    apps: AppsHandle<A>,
    place: int,
) -> bool {
    &&& 0 <= place < history.len()
    &&& history[place].1 is Updated
    &&& history[place].1->result is Ok
    &&& {
        let stage = search_stage_after(key, true, history.take(place));
        stage == AppsForKeyStage::UpdateExisting(apps) || stage
            == AppsForKeyStage::EnsureConnectedLive(apps)
    }
}

/// Whether a refreshing search heard that the update of `apps`, which it waited for, succeeded.
pub open spec fn updated_in<A, E>(
    key: ConnectionKeyView,
    history: Seq<(ServiceState<A>, AppsForKeyEvent<A, E>)>,
    apps: AppsHandle<A>,
) -> bool {
    exists|place: int| succeeds_at(key, history, apps, place)
}

/// Whatever happens to the service meanwhile, a search that was asked for a refresh returns a runtime
/// only after it heard that the update of that very runtime succeeded.
pub proof fn law_refreshed_runtime_was_updated<A, E>(
    key: ConnectionKeyView,
    history: Seq<(ServiceState<A>, AppsForKeyEvent<A, E>)>,
    apps: AppsHandle<A>,
)
    requires
        history.len() > 0,
        search_action_after(key, true, history) == AppsForKeyAction::<A, E>::Return(Ok(Some(apps))),
    ensures
        updated_in(key, history, apps),
{
    let earlier = history.drop_last();
    let before = search_stage_after(key, true, earlier);
    let last = history.len() - 1;
    assert(history.take(last) =~= earlier);
    assert(history[last] == history.last());
    lemma_looked_at_after_update(key, earlier);
    if before is UpdateExisting {
        assert(succeeds_at(key, history, apps, last));
    } else {
        let place = choose|i: int| succeeds_at(key, earlier, apps, i);
        assert(earlier.take(place) =~= history.take(place));
        assert(history[place] == earlier[place]);
        assert(succeeds_at(key, history, apps, place));
    }
}

/// A search that finds nothing connected, on a service that nobody else uses, comes to the end that its
/// outside work gives it: it fails if connecting fails, or if the refresh that was asked for fails, and
/// then the service is as before; otherwise it returns the new runtime, which is the current one from
/// then on.
pub proof fn law_cold_search_ends_as_its_work_does<A, E>(
    service: ServiceState<A>,
    key: ConnectionKeyView,
    refresh: bool,
    connected: Result<AppsHandle<A>, E>,
    updated: Result<(), E>,
    live: bool,
    then: u128,
    now: u128,
)
    requires
        service.current is None,
    ensures
        ({
            let begun = apps_for_key_step::<A, E>(
                AppsForKeyStage::Start,
                key,
                refresh,
                service,
                AppsForKeyEvent::Begin,
            );
            let locked = apps_for_key_step::<A, E>(
                begun.stage,
                key,
                refresh,
                begun.service,
                AppsForKeyEvent::ConnectLocked,
            );
            let made = apps_for_key_step::<A, E>(
                locked.stage,
                key,
                refresh,
                locked.service,
                AppsForKeyEvent::Connected(connected),
            );
            let ready = if refresh && connected is Ok {
                apps_for_key_step::<A, E>(
                    made.stage,
                    key,
                    refresh,
                    made.service,
                    AppsForKeyEvent::Updated { result: updated, now: then },
                )
            } else {
                made
            };
            let end = if connected is Ok && (refresh ==> updated is Ok) {
                apps_for_key_step::<A, E>(
                    ready.stage,
                    key,
                    refresh,
                    ready.service,
                    AppsForKeyEvent::Inspected { live, now },
                )
            } else {
                ready
            };
            &&& begun.action is LockConnect
            &&& locked.action is Connect
            &&& match (connected, updated) {
                (Err(error), _) => end.action == AppsForKeyAction::<A, E>::Return(Err(error))
                    && end.service == service,
                (Ok(_), Err(error)) if refresh => end.action == AppsForKeyAction::<A, E>::Return(
                    Err(error),
                ) && end.service == service,
                (Ok(apps), _) => {
                    &&& end.action == AppsForKeyAction::<A, E>::Return(Ok(Some(apps)))
                    &&& end.service.current is Some
                    &&& end.service.current->0.key == key
                    &&& end.service.current->0.apps == apps
                    &&& end.service.current->0.refreshed_at is Some <==> live
                },
            }
        }),
{
}

} // verus!
