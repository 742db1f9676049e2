//! What requests for a runtime and for an inventory do.
//!
//! As in [`crate::promises`], each law speaks of calls, and says of their arguments and results when
//! which result comes back.

use crate::apps_for_config::{
    AppsForConfig, AppsForConfigAction, AppsForConfigEvent, AppsForConfigStage,
};
use crate::connected::AppsHandle;
use crate::extension::CodexAppsMcpExtension;
use crate::key::CodexAppsConnectConfig;
use crate::promises::{entered_once_less, same_but_reservations};
use crate::service::{AppsConnectionService, AppsPublicationReservation, ConnectionKeyRequest};
use crate::snapshot::{SnapshotAction, SnapshotEvent, SnapshotRequest, SnapshotStage};
use vstd::prelude::*;

verus! {

/// A new request has yet to be started. It keeps what it was asked, and holds the reservation that it
/// was given, or none.
pub proof fn law_new_request_is_as_asked(
    refresh: bool,
    reservation: AppsPublicationReservation,
    plain: AppsForConfig,
    reserved: AppsForConfig,
)
    requires
        call_ensures(AppsForConfig::new, (refresh,), plain),
        call_ensures(AppsForConfig::with_reserved_publication, (refresh, reservation), reserved),
    ensures
        plain.refresh == refresh,
        plain.stage is Start,
        plain.reservation is None,
        reserved.refresh == refresh,
        reserved.stage is Start,
        reserved.reservation is Some,
        reserved.reservation->0.key@ == reservation.key@,
{
}

/// On a service that is not shut down, a request that hears of a usable login looks for the runtime
/// under exactly the key of that login: with or without a refresh, with or without a reservation, and
/// whatever is connected.
pub proof fn law_usable_login_is_resolved<A, E>(
    request: &mut AppsForConfig,
    service: &mut AppsConnectionService<A>,
    config: CodexAppsConnectConfig,
    revision: u64,
    action: AppsForConfigAction<A, E>,
)
    requires
        call_ensures(
            AppsForConfig::step::<A, E>,
            (request, service, AppsForConfigEvent::Auth { config: Some(config), revision }),
            action,
        ),
        old(request).stage is ReadAuth,
        !old(service).shutdown,
    ensures
        action is Resolve,
        action->Resolve_0.config@ == config@,
        action->Resolve_0.auth_revision == revision,
        final(request).stage is Resolve,
        final(request).stage->0.config@ == config@,
        final(request).stage->0.auth_revision == revision,
        final(request).reservation is Some ==> final(request).reservation->0.key@
            == action->Resolve_0@,
{
}

/// A runtime is looked for only when a usable login was read while the service was not shut down.
pub proof fn law_only_usable_logins_are_resolved<A, E>(
    request: &mut AppsForConfig,
    service: &mut AppsConnectionService<A>,
    event: AppsForConfigEvent<A, E>,
    action: AppsForConfigAction<A, E>,
)
    requires
        call_ensures(AppsForConfig::step::<A, E>, (request, service, event), action),
        action is Resolve,
    ensures
        old(request).stage is ReadAuth,
        event is Auth,
        event->config is Some,
        !old(service).shutdown,
{
}

/// A request returns no runtime exactly if nobody usable is logged in or the service is shut down:
/// when the login is read, or while the runtime is being looked for.
pub proof fn law_nothing_is_returned_only_without_login_or_after_shutdown<A, E>(
    request: &mut AppsForConfig,
    service: &mut AppsConnectionService<A>,
    event: AppsForConfigEvent<A, E>,
    action: AppsForConfigAction<A, E>,
)
    requires
        call_ensures(AppsForConfig::step::<A, E>, (request, service, event), action),
    ensures
        action == AppsForConfigAction::<A, E>::Return(Ok(None)) <==> {
            ||| old(request).stage is ReadAuth && event is Auth && event->config is None
            ||| old(request).stage is ReadAuth && event is Auth && old(service).shutdown
            ||| old(request).stage is Resolve && event is ShutDown
        },
{
}

/// A request returns a runtime exactly if that was found under the key that it looks for, and the
/// login of that key is still the current one; it returns it with that key.
pub proof fn law_found_runtime_is_returned<A, E>(
    request: &mut AppsForConfig,
    service: &mut AppsConnectionService<A>,
    event: AppsForConfigEvent<A, E>,
    action: AppsForConfigAction<A, E>,
    apps: AppsHandle<A>,
)
    requires
        call_ensures(AppsForConfig::step::<A, E>, (request, service, event), action),
    ensures
        (action matches AppsForConfigAction::Return(Ok(Some((_, returned)))) && returned == apps)
            <==> {
            &&& old(request).stage is Resolve
            &&& event is Resolved
            &&& event->result == Ok::<Option<AppsHandle<A>>, E>(Some(apps))
            &&& event->auth_revision == old(request).stage->0.auth_revision
        },
        action matches AppsForConfigAction::Return(Ok(Some((key, _)))) ==> key@ == old(
            request).stage->0@,
{
}

/// A request fails exactly if the search for the runtime failed and the login that it was for is still
/// the current one; it fails with that very error.
pub proof fn law_failed_search_is_returned<A, E>(
    request: &mut AppsForConfig,
    service: &mut AppsConnectionService<A>,
    event: AppsForConfigEvent<A, E>,
    action: AppsForConfigAction<A, E>,
    error: E,
)
    requires
        call_ensures(AppsForConfig::step::<A, E>, (request, service, event), action),
    ensures
        action == AppsForConfigAction::<A, E>::Return(Err(error)) <==> {
            &&& old(request).stage is Resolve
            &&& event is Resolved
            &&& event->result == Err::<Option<AppsHandle<A>>, E>(error)
            &&& event->auth_revision == old(request).stage->0.auth_revision
        },
{
}

/// The login is read when the request starts, and again exactly if it changed while the runtime was
/// being looked for, or the search found that it was superseded.
pub proof fn law_login_is_read_until_it_holds<A, E>(
    request: &mut AppsForConfig,
    service: &mut AppsConnectionService<A>,
    event: AppsForConfigEvent<A, E>,
    action: AppsForConfigAction<A, E>,
)
    requires
        call_ensures(AppsForConfig::step::<A, E>, (request, service, event), action),
    ensures
        action is ReadAuth <==> {
            ||| old(request).stage is Start && event is Begin
            ||| {
                &&& old(request).stage is Resolve
                &&& event is Resolved
                &&& event->auth_revision != old(request).stage->0.auth_revision || event->result
                    == Ok::<Option<AppsHandle<A>>, E>(None)
            }
        },
        action is ReadAuth ==> final(request).stage is ReadAuth,
{
}

/// A request is over once it returns, and an event that it does not wait for leaves it and the service
/// as they were.
pub proof fn law_request_waits_for_its_event<A, E>(
    request: &mut AppsForConfig,
    service: &mut AppsConnectionService<A>,
    event: AppsForConfigEvent<A, E>,
    action: AppsForConfigAction<A, E>,
)
    requires
        call_ensures(AppsForConfig::step::<A, E>, (request, service, event), action),
    ensures
        action is Return ==> final(request).stage is Finished,
        action is Unexpected <==> !(match old(request).stage {
            AppsForConfigStage::Start => event is Begin,
            AppsForConfigStage::ReadAuth => event is Auth,
            AppsForConfigStage::Resolve(_) => event is ShutDown || event is Resolved,
            AppsForConfigStage::Finished => false,
        }),
        action is Unexpected ==> final(request)@ == old(request)@ && final(service)@ == old(
            service)@,
{
}

/// What a request is told depends on the event, on what it waits for, and on whether the service is
/// shut down; on nothing else.
pub proof fn law_requests_are_told_alike<A, E>(
    one: &mut AppsForConfig,
    other: &mut AppsForConfig,
    service: &mut AppsConnectionService<A>,
    another: &mut AppsConnectionService<A>,
    event: AppsForConfigEvent<A, E>,
    action: AppsForConfigAction<A, E>,
    told: AppsForConfigAction<A, E>,
)
    requires
        call_ensures(AppsForConfig::step::<A, E>, (one, service, event), action),
        call_ensures(AppsForConfig::step::<A, E>, (other, another, event), told),
        old(one).stage@ == old(other).stage@,
        old(service).shutdown == old(another).shutdown,
    ensures
        action@ == told@,
        final(one).stage@ == final(other).stage@,
{
}

/// A request never connects, never announces and never launches. It gives the connection up only
/// when it hears that nobody usable is logged in, and then unless that was made under a later login.
pub proof fn law_request_spares_the_service<A, E>(
    request: &mut AppsForConfig,
    service: &mut AppsConnectionService<A>,
    event: AppsForConfigEvent<A, E>,
    action: AppsForConfigAction<A, E>,
)
    requires
        call_ensures(AppsForConfig::step::<A, E>, (request, service, event), action),
    ensures
        final(service)@.publication_revision == old(service)@.publication_revision,
        final(service)@.initializations == old(service)@.initializations,
        final(service)@.shutdown == old(service)@.shutdown,
        final(service)@.cache_ttl == old(service)@.cache_ttl,
        final(service)@.current == old(service)@.current || final(service)@.current is None,
        old(service)@.current is Some ==> (final(service)@.current is None <==> {
            &&& old(request).stage is ReadAuth
            &&& event is Auth
            &&& event->config is None
            &&& old(service)@.current->0.key.auth_revision <= event->revision
        }),
{
}

/// A request keeps its reservation, under the key of the last usable login that it heard of; it is the
/// only one that moves.
pub proof fn law_reservation_follows_the_login<A, E>(
    request: &mut AppsForConfig,
    service: &mut AppsConnectionService<A>,
    event: AppsForConfigEvent<A, E>,
    action: AppsForConfigAction<A, E>,
)
    requires
        call_ensures(AppsForConfig::step::<A, E>, (request, service, event), action),
    ensures
        final(request).refresh == old(request).refresh,
        final(request).reservation is Some <==> old(request).reservation is Some,
        ({
            let heard = old(request).stage is ReadAuth && event is Auth && event->config is Some;
            let from = old(request).reservation->0.key@;
            let to = final(request).reservation->0.key@;
            let before = old(service)@.reservations;
            let after = final(service)@.reservations;
            &&& old(request).reservation is Some && heard ==> {
                &&& to.config == event->config->0@
                &&& to.auth_revision == event->revision
            }
            &&& old(request).reservation is Some && !heard ==> to == from
            &&& old(request).reservation is None || to == from ==> after == before
            &&& old(request).reservation is Some && to != from ==> {
                &&& after.count(to) == before.count(to) + 1
                &&& before.count(from) > 0 ==> after.count(from) == before.count(from) - 1
                &&& before.count(from) == 0 ==> after.count(from) == 0
                &&& forall|other|
                    other != from && other != to ==> #[trigger] after.count(other)
                        == before.count(other)
            }
        }),
{
}

/// Closing a request ends it and gives its reservation back; nothing else changes.
pub proof fn law_closed_request_holds_nothing<A>(
    request: &mut AppsForConfig,
    service: &mut AppsConnectionService<A>,
)
    requires
        call_ensures(AppsForConfig::close::<A>, (request, service), ()),
    ensures
        final(request).stage is Finished,
        final(request).reservation is None,
        same_but_reservations(final(service)@, old(service)@),
        old(request).reservation is None ==> final(service)@.reservations == old(
            service)@.reservations,
        old(request).reservation is Some ==> entered_once_less(
            old(service)@.reservations,
            final(service)@.reservations,
            old(request).reservation->0.key@,
        ),
{
}

/// All three inventory requests look for a runtime exactly if Apps is eligible, and end without one
/// otherwise. Only `refresh_snapshot` has the inventory fetched on the way, and only `snapshot` brings
/// a stale one up to date afterwards.
pub proof fn law_inventory_is_looked_for_if_eligible<A, E>(
    extension: &CodexAppsMcpExtension<A>,
    eligible: bool,
    fresh: (SnapshotRequest<A>, SnapshotAction<A, E>),
    cached: (SnapshotRequest<A>, SnapshotAction<A, E>),
    refreshed: (SnapshotRequest<A>, SnapshotAction<A, E>),
)
    requires
        call_ensures(CodexAppsMcpExtension::<A>::snapshot::<E>, (extension, eligible), fresh),
        call_ensures(
            CodexAppsMcpExtension::<A>::snapshot_allowing_cached::<E>,
            (extension, eligible),
            cached,
        ),
        call_ensures(
            CodexAppsMcpExtension::<A>::refresh_snapshot::<E>,
            (extension, eligible),
            refreshed,
        ),
    ensures
        eligible ==> {
            &&& fresh.1 == (SnapshotAction::<A, E>::FindApps { refresh: false })
            &&& cached.1 == (SnapshotAction::<A, E>::FindApps { refresh: false })
            &&& refreshed.1 == (SnapshotAction::<A, E>::FindApps { refresh: true })
            &&& fresh.0.stage is FindApps && cached.0.stage is FindApps
            &&& refreshed.0.stage is FindApps
        },
        !eligible ==> {
            &&& fresh.1 is ReturnNothing && cached.1 is ReturnNothing
            &&& refreshed.1 is ReturnNothing
            &&& fresh.0.stage is Finished && cached.0.stage is Finished
            &&& refreshed.0.stage is Finished
        },
        fresh.0.refresh_stale && !cached.0.refresh_stale && !refreshed.0.refresh_stale,
{
}

/// The inventory that is already connected is asked for exactly if Apps is eligible and the service is
/// not shut down.
pub proof fn law_connected_inventory_is_asked_for_if_eligible<A>(
    extension: &CodexAppsMcpExtension<A>,
    eligible: bool,
    asked: Option<ConnectionKeyRequest>,
)
    requires
        call_ensures(CodexAppsMcpExtension::<A>::current_snapshot, (extension, eligible), asked),
    ensures
        asked is Some <==> eligible && !extension.connection.shutdown,
{
}

/// An inventory request fails exactly if its search for the runtime failed, and with that very error,
/// whether or not it brings a stale inventory up to date.
pub proof fn law_inventory_request_passes_errors_on<A, E>(
    request: &mut SnapshotRequest<A>,
    event: SnapshotEvent<A, E>,
    action: SnapshotAction<A, E>,
    error: E,
)
    requires
        call_ensures(SnapshotRequest::<A>::step::<E>, (request, event), action),
    ensures
        action == SnapshotAction::<A, E>::ReturnError(error) <==> {
            &&& old(request).stage is FindApps
            &&& event is Found
            &&& event->Found_0 is Err
            &&& event->Found_0->Err_0 == error
        },
{
}

/// An inventory request ends without an inventory exactly if its search found no runtime.
pub proof fn law_inventory_request_finds_nothing_only_without_runtime<A, E>(
    request: &mut SnapshotRequest<A>,
    event: SnapshotEvent<A, E>,
    action: SnapshotAction<A, E>,
)
    requires
        call_ensures(SnapshotRequest::<A>::step::<E>, (request, event), action),
    ensures
        action is ReturnNothing <==> {
            &&& old(request).stage is FindApps
            &&& event is Found
            &&& event->Found_0 is Ok
            &&& event->Found_0->Ok_0 is None
        },
{
}

/// A request that brings a stale inventory up to date does so for exactly the runtime and the key that
/// were found, and no other request does.
pub proof fn law_stale_inventory_is_refreshed_first<A, E>(
    request: &mut SnapshotRequest<A>,
    event: SnapshotEvent<A, E>,
    action: SnapshotAction<A, E>,
)
    requires
        call_ensures(SnapshotRequest::<A>::step::<E>, (request, event), action),
    ensures
        action is RefreshIfStale <==> {
            &&& old(request).stage is FindApps
            &&& old(request).refresh_stale
            &&& event matches SnapshotEvent::Found(Ok(Some(_)))
        },
        action matches SnapshotAction::RefreshIfStale(key, apps) ==> {
            &&& event matches SnapshotEvent::Found(Ok(Some((found, runtime)))) && key@ == found@
                && apps == runtime
            &&& final(request).stage == SnapshotStage::RefreshStale(apps)
        },
{
}

/// An inventory is returned of the runtime that was found: at once, or after the refresh of it, failed
/// or not. There is a warning exactly if the refresh failed, and it is that very error.
pub proof fn law_inventory_is_returned_of_the_found_runtime<A, E>(
    request: &mut SnapshotRequest<A>,
    event: SnapshotEvent<A, E>,
    action: SnapshotAction<A, E>,
)
    requires
        call_ensures(SnapshotRequest::<A>::step::<E>, (request, event), action),
    ensures
        action is ReturnSnapshot <==> {
            ||| old(request).stage is RefreshStale && event is Refreshed
            ||| old(request).stage is FindApps && !old(request).refresh_stale && (event matches
                SnapshotEvent::Found(Ok(Some(_))))
        },
        action is ReturnSnapshot && event is Refreshed ==> {
            &&& action->apps == old(request).stage->0
            &&& event->Refreshed_0 is Ok ==> action->warning is None
            &&& event->Refreshed_0 is Err ==> action->warning == Some(event->Refreshed_0->Err_0)
        },
        action is ReturnSnapshot && event is Found ==> {
            &&& action->warning is None
            &&& event matches SnapshotEvent::Found(Ok(Some((_, runtime)))) && action->apps == runtime
        },
{
}

/// An inventory request is over once it returns, looks for its runtime only once, and an event that it
/// does not wait for leaves it as it was.
pub proof fn law_inventory_request_waits_for_its_event<A, E>(
    request: &mut SnapshotRequest<A>,
    event: SnapshotEvent<A, E>,
    action: SnapshotAction<A, E>,
)
    requires
        call_ensures(SnapshotRequest::<A>::step::<E>, (request, event), action),
    ensures
        final(request).refresh_stale == old(request).refresh_stale,
        !(action is FindApps),
        action is ReturnSnapshot || action is ReturnNothing || action is ReturnError ==> final(
            request).stage is Finished,
        action is Unexpected <==> !(match old(request).stage {
            SnapshotStage::FindApps => event is Found,
            SnapshotStage::RefreshStale(_) => event is Refreshed,
            SnapshotStage::Finished => false,
        }),
        action is Unexpected ==> final(request).stage == old(request).stage,
{
}

} // verus!
