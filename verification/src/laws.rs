//! What holds of the shared connection as a whole.

use crate::apps_for_config::{
    apps_for_config_step, auth_requested, request_returned, AppsForConfigActionView,
    AppsForConfigEventView, AppsForConfigStageView, AppsForConfigView,
};
use crate::apps_for_key::{
    apps_for_key_step, returned, AppsForKeyAction, AppsForKeyEvent, AppsForKeyStage,
};
use crate::connected::{AppsHandle, AppsRefreshRequirement, ConnectedView};
use crate::extension::{initialization_end, InitializationEndView};
use crate::install::{apps_registrations, executor_plugin_registrations, Registration};
use crate::key::{ConnectConfigView, ConnectionKeyView};
use crate::refresh_if_stale::{refresh_step, RefreshAction, RefreshEvent, RefreshStage};
use crate::shutdown::{shutdown_step, ShutdownAction, ShutdownEvent, ShutdownStage};
use crate::snapshot::{snapshot_step, SnapshotActionView, SnapshotEventView, SnapshotStage};
use crate::state::ServiceState;
use vstd::prelude::*;

verus! {

/// A logged-out observation gives up a connection exactly when that was made under the observed
/// login or an earlier one: a stale observation cannot clear a newer connection.
pub proof fn law_stale_logout_spares_newer_connection<A>(
    service: ServiceState<A>,
    connected: ConnectedView<A>,
    auth_revision: u64,
)
    requires
        service.current == Some(connected),
    ensures
        connected.key.auth_revision > auth_revision ==> service.cleared_through(auth_revision)
            == service,
        connected.key.auth_revision <= auth_revision ==> service.cleared_through(auth_revision)
            == service.disconnected(),
{
}

/// A search under a superseded login ends without a runtime, before and after it has the connect
/// lock; it does not connect and it changes nothing.
pub proof fn law_superseded_login_never_connects<A, E>(
    service: ServiceState<A>,
    key: ConnectionKeyView,
    refresh: bool,
)
    requires
        service.is_newer_than(key.auth_revision),
    ensures
        apps_for_key_step::<A, E>(
            AppsForKeyStage::Start,
            key,
            refresh,
            service,
            AppsForKeyEvent::Begin,
        ) == returned::<A, E>(service, Ok(None)),
        apps_for_key_step::<A, E>(
            AppsForKeyStage::LockConnect,
            key,
            refresh,
            service,
            AppsForKeyEvent::ConnectLocked,
        ) == returned::<A, E>(service, Ok(None)),
{
}

/// A runtime that is connected under the key is handed out at once, without any outside work and
/// without a change, unless a refresh was asked for.
pub proof fn law_connected_runtime_is_handed_out<A, E>(
    service: ServiceState<A>,
    key: ConnectionKeyView,
    apps: AppsHandle<A>,
)
    requires
        service.apps_for(key) == Some(apps),
    ensures
        apps_for_key_step::<A, E>(
            AppsForKeyStage::Start,
            key,
            false,
            service,
            AppsForKeyEvent::Begin,
        ) == returned::<A, E>(service, Ok(Some(apps))),
        apps_for_key_step::<A, E>(
            AppsForKeyStage::LockConnect,
            key,
            false,
            service,
            AppsForKeyEvent::ConnectLocked,
        ) == returned::<A, E>(service, Ok(Some(apps))),
{
}

/// Misses are coalesced: whoever waits for the connect lock while another caller connects under the
/// same key does not connect. It is handed the runtime that the other one published; if it asked for a
/// refresh, it is told to look at that runtime's inventory first.
pub proof fn law_connection_misses_are_coalesced<A, E>(
    service: ServiceState<A>,
    key: ConnectionKeyView,
    apps: AppsHandle<A>,
    refresh: bool,
    reserved: bool,
    live: bool,
    now: u128,
)
    ensures
        ({
            let published = apps_for_key_step::<A, E>(
                AppsForKeyStage::InspectConnected(apps, reserved),
                key,
                refresh,
                service,
                AppsForKeyEvent::Inspected { live, now },
            );
            let waiter = apps_for_key_step::<A, E>(
                AppsForKeyStage::LockConnect,
                key,
                false,
                published.service,
                AppsForKeyEvent::ConnectLocked,
            );
            let refreshing = apps_for_key_step::<A, E>(
                AppsForKeyStage::LockConnect,
                key,
                true,
                published.service,
                AppsForKeyEvent::ConnectLocked,
            );
            &&& published.action == AppsForKeyAction::<A, E>::Return(Ok(Some(apps)))
            &&& waiter == returned::<A, E>(published.service, Ok(Some(apps)))
            &&& refreshing.action == AppsForKeyAction::<A, E>::Inspect(apps)
            &&& refreshing.stage == AppsForKeyStage::InspectExisting(apps)
            &&& refreshing.service == published.service
        }),
{
}

/// A search that found its runtime connected never connects: whatever it is told from then on, and
/// whatever happens to the service meanwhile, it goes on to look at that runtime, to update it and to
/// return it, or fails.
pub proof fn law_refreshing_search_never_connects<A, E>(
    stage: AppsForKeyStage<A>,
    service: ServiceState<A>,
    key: ConnectionKeyView,
    refresh: bool,
    apps: AppsHandle<A>,
    event: AppsForKeyEvent<A, E>,
)
    requires
        stage == AppsForKeyStage::InspectExisting(apps) || stage == AppsForKeyStage::UpdateExisting(
            apps,
        ) || stage == AppsForKeyStage::<A>::Finished,
    ensures
        ({
            let outcome = apps_for_key_step(stage, key, refresh, service, event);
            &&& outcome.stage == AppsForKeyStage::InspectExisting(apps) || outcome.stage
                == AppsForKeyStage::UpdateExisting(apps) || outcome.stage
                == AppsForKeyStage::<A>::Finished
            &&& !(outcome.action is LockConnect) && !(outcome.action is Connect)
            &&& outcome.action matches AppsForKeyAction::Return(Ok(found)) ==> found == Some(apps)
        }),
{
}

/// One connection is kept: a new one takes the place of whatever was current.
pub proof fn law_one_connection_is_kept<A>(
    service: ServiceState<A>,
    key: ConnectionKeyView,
    apps: AppsHandle<A>,
    refreshed_at: Option<u128>,
    reserved: bool,
    other: ConnectionKeyView,
)
    ensures
        service.published(key, apps, refreshed_at, reserved).apps_for(key) == Some(apps),
        other != key ==> service.published(key, apps, refreshed_at, reserved).apps_for(other)
            is None,
{
}

/// The stage of a search under `key` that has made its connection and, if it was asked for a refresh,
/// made it live; `connected` and `made` are the service when the one and the other was done.
pub open spec fn connection_made<A, E>(
    key: ConnectionKeyView,
    refresh: bool,
    apps: AppsHandle<A>,
    connected: ServiceState<A>,
    made: ServiceState<A>,
    now: u128,
) -> AppsForKeyStage<A> {
    let stage = apps_for_key_step::<A, E>(
        AppsForKeyStage::Connect,
        key,
        refresh,
        connected,
        AppsForKeyEvent::Connected(Ok(apps)),
    ).stage;
    if refresh {
        apps_for_key_step::<A, E>(
            stage,
            key,
            refresh,
            made,
            AppsForKeyEvent::Updated { result: Ok(()), now },
        ).stage
    } else {
        stage
    }
}

/// A connection is announced when it is published, exactly if no publication was reserved under its
/// key once it was made, and made live if that was asked for; whatever happened to the service in
/// between.
pub proof fn law_reserved_publication_is_not_announced<A, E>(
    connected: ServiceState<A>,
    made: ServiceState<A>,
    service: ServiceState<A>,
    key: ConnectionKeyView,
    refresh: bool,
    apps: AppsHandle<A>,
    live: bool,
    then: u128,
    now: u128,
)
    ensures
        ({
            let stage = connection_made::<A, E>(key, refresh, apps, connected, made, then);
            let published = apps_for_key_step::<A, E>(
                stage,
                key,
                refresh,
                service,
                AppsForKeyEvent::Inspected { live, now },
            ).service;
            let reserved = if refresh {
                made.reservations.contains(key)
            } else {
                connected.reservations.contains(key)
            };
            &&& published.apps_for(key) == Some(apps)
            &&& published.publication_revision == if reserved {
                service.publication_revision
            } else {
                service.announced().publication_revision
            }
        }),
{
}

/// A failed connection, refresh or update leaves the service as it was: it does not advance
/// freshness and does not replace the connection.
pub proof fn law_failure_changes_nothing<A, E>(
    service: ServiceState<A>,
    key: ConnectionKeyView,
    refresh: bool,
    search: AppsForKeyStage<A>,
    stage: RefreshStage,
    identity: usize,
    error: E,
    now: u128,
)
    ensures
        apps_for_key_step::<A, E>(
            search,
            key,
            refresh,
            service,
            AppsForKeyEvent::Connected(Err(error)),
        ).service == service,
        apps_for_key_step::<A, E>(
            search,
            key,
            refresh,
            service,
            AppsForKeyEvent::Updated { result: Err(error), now },
        ).service == service,
        refresh_step::<A, E>(
            stage,
            key,
            identity,
            service,
            RefreshEvent::Updated { result: Err(error), now },
        ).service == service,
{
}

/// An inventory that was live at `then` is fetched again exactly from `cache_ttl` on; until then a
/// refresh is over at once, without the lock and without outside work.
pub proof fn law_live_inventory_is_fresh_until_its_time<A, E>(
    service: ServiceState<A>,
    key: ConnectionKeyView,
    identity: usize,
    then: u128,
    now: u128,
)
    requires
        service.is_current(key, identity),
        service.current->0.refreshed_at == Some(then),
        then <= now,
    ensures
        now - then < service.cache_ttl ==> {
            let outcome = refresh_step::<A, E>(
                RefreshStage::Start,
                key,
                identity,
                service,
                RefreshEvent::Begin { now },
            );
            outcome.action == RefreshAction::<E>::Return(Ok(())) && outcome.service == service
        },
        now - then >= service.cache_ttl ==> service.requirement(key, identity, now)
            == AppsRefreshRequirement::Refresh,
{
}

/// A cached inventory has to become live, however recent it is.
pub proof fn law_cached_inventory_must_become_live<A>(
    service: ServiceState<A>,
    key: ConnectionKeyView,
    apps: AppsHandle<A>,
    reserved: bool,
    now: u128,
)
    ensures
        service.published(key, apps, None, reserved).requirement(key, apps.identity, now)
            == AppsRefreshRequirement::EnsureLive,
{
}

/// Stale readers are coalesced: once one of them refreshed the inventory, another that was waiting
/// for the lock is done without fetching, as long as the inventory did not grow stale again.
pub proof fn law_stale_readers_are_coalesced<A, E>(
    service: ServiceState<A>,
    key: ConnectionKeyView,
    identity: usize,
    then: u128,
    now: u128,
)
    requires
        service.is_current(key, identity),
        then <= now,
        now - then < service.cache_ttl,
    ensures
        ({
            let first = refresh_step::<A, E>(
                RefreshStage::Update,
                key,
                identity,
                service,
                RefreshEvent::Updated { result: Ok(()), now: then },
            );
            let second = refresh_step::<A, E>(
                RefreshStage::LockConnect,
                key,
                identity,
                first.service,
                RefreshEvent::ConnectLocked { now },
            );
            &&& first.service.current->0.refreshed_at == Some(then)
            &&& second.action == RefreshAction::<E>::Return(Ok(()))
            &&& second.service == first.service
        }),
{
}

/// A refresh notes only the runtime that it refreshed: if another one took its place meanwhile,
/// nothing is noted, and the replaced one needs nothing more.
pub proof fn law_replaced_runtime_is_left_alone<A>(
    service: ServiceState<A>,
    key: ConnectionKeyView,
    identity: usize,
    now: u128,
)
    requires
        !service.is_current(key, identity),
    ensures
        service.refreshed(key, identity, now) == service,
        service.requirement(key, identity, now) == AppsRefreshRequirement::NotNeeded,
{
}

/// A stale inventory that cannot be refreshed is returned all the same, with a warning.
pub proof fn law_failed_refresh_falls_back_to_last_good<A, E>(apps: AppsHandle<A>, error: E)
    ensures
        snapshot_step::<A, E>(
            true,
            SnapshotStage::RefreshStale(apps),
            SnapshotEventView::Refreshed(Err(error)),
        ).1 == (SnapshotActionView::<A, E>::ReturnSnapshot { apps, warning: Some(error) }),
{
}

/// What was found under a login that is no longer the current one is dropped, failures too, and the
/// login is read again.
pub proof fn law_changed_login_is_read_again<A, E>(
    request: AppsForConfigView,
    service: ServiceState<A>,
    key: ConnectionKeyView,
    result: Result<Option<AppsHandle<A>>, E>,
    auth_revision: u64,
)
    requires
        request.stage == AppsForConfigStageView::Resolve(key),
        auth_revision != key.auth_revision,
    ensures
        apps_for_config_step::<A, E>(
            request,
            service,
            AppsForConfigEventView::Resolved { result, auth_revision },
        ) == auth_requested::<A, E>(request, service),
{
}

/// A runtime is returned only under the login that is current when the search for it ends.
pub proof fn law_returned_runtime_has_current_login<A, E>(
    request: AppsForConfigView,
    service: ServiceState<A>,
    result: Result<Option<AppsHandle<A>>, E>,
    auth_revision: u64,
    key: ConnectionKeyView,
    apps: AppsHandle<A>,
)
    requires
        apps_for_config_step::<A, E>(
            request,
            service,
            AppsForConfigEventView::Resolved { result, auth_revision },
        ).action == AppsForConfigActionView::<A, E>::Return(Ok(Some((key, apps)))),
    ensures
        request.stage == AppsForConfigStageView::Resolve(key),
        key.auth_revision == auth_revision,
        result == Ok::<Option<AppsHandle<A>>, E>(Some(apps)),
{
}

/// Background work under a key is single-flight: while it runs no other is launched under that
/// key, and once it is over, the next one can be.
pub proof fn law_background_work_is_single_flight<A>(
    service: ServiceState<A>,
    key: ConnectionKeyView,
    waiting: bool,
    failed: bool,
)
    requires
        service.wf(),
        service.launches(key),
    ensures
        ({
            let running = service.initialization_asked(key, waiting);
            let over = running.background_finished(key, failed);
            &&& running.wf() && over.wf()
            &&& !running.launches(key)
            &&& over.launches(key)
            &&& over.initializations == service.initializations
        }),
{
    let running = service.initialization_asked(key, waiting);
    assert(running.background_finished(key, failed).initializations =~= service.initializations);
}

/// Joining a running initialization announces a thread that waits, once for each time it asks, and
/// nothing else; whoever has no thread to strand does not advance the revision.
pub proof fn law_joining_announces_only_waiting_threads<A>(
    service: ServiceState<A>,
    key: ConnectionKeyView,
)
    requires
        !service.shutdown,
        service.initializations.contains(key),
    ensures
        service.initialization_asked(key, true) == service.announced(),
        service.initialization_asked(key, false) == service,
{
}

/// A reservation that is given back leaves no trace, even if it was moved to another key meanwhile.
pub proof fn law_reservations_leave_no_trace<A>(
    service: ServiceState<A>,
    from: ConnectionKeyView,
    to: ConnectionKeyView,
)
    ensures
        service.reserved(from).released(from) == service,
        service.reserved(from).retargeted(from, to).released(to) == service,
        service.reserved(from).retargeted(from, to).reservations.contains(to),
{
    let moved = service.reserved(from).retargeted(from, to);
    assert(service.reserved(from).released(from).reservations =~= service.reservations);
    assert(moved.released(to).reservations =~= service.reservations);
}

/// A background initialization that connects uses up the one publication that was announced at its
/// launch, even if the login changed before it connected: from launch to end the revision advances
/// by one, and everything but the connection is as before.
pub proof fn law_successful_initialization_is_announced_once<A, E>(
    service: ServiceState<A>,
    key: ConnectionKeyView,
    waiting: bool,
    config: ConnectConfigView,
    revision: u64,
    apps: AppsHandle<A>,
    live: bool,
    now: u128,
)
    requires
        service.launches(key),
    ensures
        ({
            let launched = service.initialization_asked(key, waiting);
            let request = AppsForConfigView {
                refresh: false,
                reservation: Some(key),
                stage: AppsForConfigStageView::ReadAuth,
            };
            let resolving = apps_for_config_step::<A, E>(
                request,
                launched,
                AppsForConfigEventView::Auth { config: Some(config), revision },
            );
            let target = ConnectionKeyView { config, auth_revision: revision };
            let connected = apps_for_key_step::<A, E>(
                AppsForKeyStage::Connect,
                target,
                false,
                resolving.service,
                AppsForKeyEvent::Connected(Ok(apps)),
            );
            let published = apps_for_key_step::<A, E>(
                connected.stage,
                target,
                false,
                connected.service,
                AppsForKeyEvent::Inspected { live, now },
            );
            let over = published.service.released(resolving.request.reservation->0)
                .background_finished(key, false);
            &&& over.publication_revision == service.announced().publication_revision
            &&& over.apps_for(target) == Some(apps)
            &&& over.reservations == service.reservations
            &&& over.initializations == service.initializations
        }),
{
    let launched = service.initialization_asked(key, waiting);
    let target = ConnectionKeyView { config, auth_revision: revision };
    law_reservations_leave_no_trace(service, key, target);
    assert(launched.retargeted(key, target).released(target).reservations
        =~= service.reservations);
    assert(launched.retargeted(key, target).ended(key).initializations
        =~= service.initializations);
}

/// A background initialization that fails is announced once more at its end, when the next one can
/// be launched, even if the login changed and its reservation moved meanwhile: from launch to end the
/// revision advances by two, and everything else is as before.
pub proof fn law_failed_initialization_is_announced_again<A>(
    service: ServiceState<A>,
    key: ConnectionKeyView,
    to: ConnectionKeyView,
    waiting: bool,
)
    requires
        service.launches(key),
    ensures
        service.initialization_asked(key, waiting).retargeted(key, to).released(
            to,
        ).background_finished(key, true) == service.announced().announced(),
        service.announced().announced().launches(key),
{
    let over = service.initialization_asked(key, waiting).retargeted(key, to).released(
        to,
    ).background_finished(key, true);
    assert(over.reservations =~= service.reservations);
    assert(over.initializations =~= service.initializations);
}

/// Once shutdown has begun nothing new is launched in the background under any key, and asking for
/// it changes nothing.
pub proof fn law_shutdown_launches_nothing<A>(
    service: ServiceState<A>,
    key: ConnectionKeyView,
    waiting: bool,
    identity: usize,
    now: u128,
)
    ensures
        ({
            let down = service.shut_down();
            &&& !down.launches(key)
            &&& !down.refreshes(key, identity, now)
            &&& down.initialization_asked(key, waiting) == down
            &&& down.shut_down() == down
        }),
{
}

/// A request that is looking for a runtime when the service shuts down returns without one, and
/// without a change.
pub proof fn law_shutdown_ends_requests<A, E>(
    request: AppsForConfigView,
    service: ServiceState<A>,
    key: ConnectionKeyView,
)
    requires
        request.stage == AppsForConfigStageView::Resolve(key),
    ensures
        apps_for_config_step::<A, E>(request, service, AppsForConfigEventView::ShutDown)
            == request_returned::<A, E>(request, service, Ok(None)),
{
}

/// Once the service is shut down, a request that is not yet looking for a runtime never will: it is
/// not asked to, and it returns none, not even one that is connected under its very key.
pub proof fn law_shut_down_service_finds_nothing<A, E>(
    request: AppsForConfigView,
    service: ServiceState<A>,
    event: AppsForConfigEventView<A, E>,
)
    requires
        service.shutdown,
        !(request.stage is Resolve),
    ensures
        ({
            let outcome = apps_for_config_step(request, service, event);
            &&& !(outcome.request.stage is Resolve)
            &&& !(outcome.action is Resolve)
            &&& outcome.action matches AppsForConfigActionView::Return(found) ==> found == Ok::<
                Option<(ConnectionKeyView, AppsHandle<A>)>,
                E,
            >(None)
            &&& outcome.service.shutdown
            &&& outcome.service.publication_revision == service.publication_revision
        }),
{
}

/// A request of somebody who is logged in, on a service that is shut down, returns nothing as soon
/// as the login is read. Only its reservation has moved; the connection and the revision are as
/// before.
pub proof fn law_request_after_shutdown_returns_nothing<A, E>(
    request: AppsForConfigView,
    service: ServiceState<A>,
    config: ConnectConfigView,
    revision: u64,
)
    requires
        service.shutdown,
        request.stage == AppsForConfigStageView::ReadAuth,
    ensures
        ({
            let key = ConnectionKeyView { config, auth_revision: revision };
            let outcome = apps_for_config_step::<A, E>(
                request,
                service,
                AppsForConfigEventView::Auth { config: Some(config), revision },
            );
            &&& outcome.action == AppsForConfigActionView::<A, E>::Return(Ok(None))
            &&& outcome.request.stage == AppsForConfigStageView::Finished
            &&& outcome.service.current == service.current
            &&& outcome.service.publication_revision == service.publication_revision
            &&& match request.reservation {
                Some(from) => outcome.request.reservation == Some(key) && outcome.service
                    == service.retargeted(from, key),
                None => outcome.request.reservation is None && outcome.service == service,
            }
        }),
{
}

/// Background work that shutdown cuts short has not failed: it is not announced, no warning is
/// given, the connection is as before, and the work no longer runs.
pub proof fn law_interrupted_work_is_no_failure<A, E>(
    service: ServiceState<A>,
    key: ConnectionKeyView,
    thread_revision: Option<u64>,
)
    requires
        service.wf(),
    ensures
        ({
            let over = service.background_finished(key, false);
            &&& over == service.ended(key)
            &&& over.publication_revision == service.publication_revision
            &&& over.current == service.current
            &&& !over.initializations.contains(key)
        }),
        initialization_end::<A, E>(Ok(None), thread_revision) == match thread_revision {
            Some(thread_revision) => InitializationEndView::<A, E>::ClearApps { thread_revision },
            None => InitializationEndView::<A, E>::Nothing,
        },
{
    assert(service.initializations.count(key) <= 1);
}

/// A shutdown stops a runtime only when it hears that no background task is left, and then the one
/// that is connected at that time, which it gives up.
pub proof fn law_runtime_is_stopped_after_tasks<A>(
    stage: ShutdownStage,
    service: ServiceState<A>,
    event: ShutdownEvent,
    apps: AppsHandle<A>,
)
    requires
        shutdown_step(stage, service, event).action == ShutdownAction::StopRuntime(apps),
    ensures
        stage == ShutdownStage::JoinTasks,
        event is NoTaskLeft,
        service.current matches Some(connected) && connected.apps == apps,
        shutdown_step(stage, service, event).service == service.disconnected(),
{
}

/// The stage of a shutdown after each of `history` happened, with the service as it then was.
pub open spec fn shutdown_stage_after<A>(
    history: Seq<(ServiceState<A>, ShutdownEvent)>,
) -> ShutdownStage
    decreases history.len(),
{
    if history.len() == 0 {
        ShutdownStage::JoinTasks
    } else {
        shutdown_step(
            shutdown_stage_after(history.drop_last()),
            history.last().0,
            history.last().1,
        ).stage
    }
}

/// How many runtimes a shutdown has stopped after each of `history` happened.
pub open spec fn shutdown_stops<A>(history: Seq<(ServiceState<A>, ShutdownEvent)>) -> nat
    decreases history.len(),
{
    if history.len() == 0 {
        0
    } else {
        let step = shutdown_step(
            shutdown_stage_after(history.drop_last()),
            history.last().0,
            history.last().1,
        );
        shutdown_stops(history.drop_last()) + if step.action is StopRuntime {
            1nat
        } else {
            0nat
        }
    }
}

/// Whatever happens to the service meanwhile, a shutdown goes on joining until it hears that no
/// background task is left; it stops nothing before that, and at most one runtime in all.
pub proof fn law_shutdown_joins_before_it_stops<A>(
    history: Seq<(ServiceState<A>, ShutdownEvent)>,
)
    ensures
        shutdown_stage_after(history) == ShutdownStage::JoinTasks <==> (forall|i: int|
            0 <= i < history.len() ==> !((#[trigger] history[i]).1 is NoTaskLeft)),
        shutdown_stage_after(history) == ShutdownStage::JoinTasks ==> shutdown_stops(history) == 0,
        shutdown_stops(history) <= 1,
    decreases history.len(),
{
    if history.len() > 0 {
        let before = history.drop_last();
        law_shutdown_joins_before_it_stops(before);
        assert(forall|i: int|
            #![trigger before[i]]
            #![trigger history[i]]
            0 <= i < before.len() ==> before[i] == history[i]);
        let last = history.len() - 1;
        assert(history[last] == history.last());
    }
}

/// A second shutdown right after the first has nothing to stop.
pub proof fn law_second_shutdown_stops_nothing<A>(service: ServiceState<A>)
    ensures
        ({
            let first = shutdown_step(
                ShutdownStage::JoinTasks,
                service.shut_down(),
                ShutdownEvent::NoTaskLeft,
            );
            let second = shutdown_step(
                ShutdownStage::JoinTasks,
                first.service.shut_down(),
                ShutdownEvent::NoTaskLeft,
            );
            &&& first.service == service.shut_down().disconnected()
            &&& second.action == ShutdownAction::<A>::Return
            &&& second.service == first.service
        }),
{
}

/// Executor plugin discovery is registered before the Apps contributor that uses what it finds.
pub proof fn law_executor_plugins_come_first(builder: Seq<Registration>, place: int)
    requires
        builder.len() <= place < builder.len() + executor_plugin_registrations().len()
            + apps_registrations().len(),
        (builder + executor_plugin_registrations() + apps_registrations())[place]
            == Registration::AppsMcpServerContributor,
    ensures
        exists|earlier: int|
            builder.len() <= earlier < place && (#[trigger] (builder
                + executor_plugin_registrations() + apps_registrations())[earlier])
                == Registration::ExecutorPluginMcpServerContributor,
{
    let all = builder + executor_plugin_registrations() + apps_registrations();
    let earlier = builder.len() as int;
    assert(all[earlier] == executor_plugin_registrations()[0]);
    assert(all[earlier] == Registration::ExecutorPluginMcpServerContributor);
    assert(earlier != place);
}

} // verus!
