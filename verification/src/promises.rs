//! What the operations on keys and on the shared connection do.
//!
//! Each law speaks of a call: `call_ensures` says that the operation, called with these arguments,
//! may give this result. What the law then says, it says of the arguments and the result alone. The
//! laws on requests, searches and background work are in [`crate::request_promises`],
//! [`crate::search_promises`] and [`crate::background_promises`].

use crate::connected::{AppsHandle, AppsRefreshRequirement, ConnectedView};
use crate::key::{CodexAppsConnectConfig, CodexAppsConnectionKey, ConnectionKeyView};
use crate::register::KeyRegister;
use crate::service::{
    current_auth, AppsBackgroundInitialization, AppsConnectionService, AppsPublicationReservation,
    ConnectionKeyRequest,
};
use crate::state::ServiceState;
use vstd::multiset::Multiset;
use vstd::prelude::*;

verus! {

/// Whether two services differ at most in their connection.
pub open spec fn same_but_connection<A>(one: ServiceState<A>, other: ServiceState<A>) -> bool {
    &&& one.publication_revision == other.publication_revision
    &&& one.reservations == other.reservations
    &&& one.initializations == other.initializations
    &&& one.shutdown == other.shutdown
    &&& one.cache_ttl == other.cache_ttl
}

/// Whether two services differ at most in their revision.
pub open spec fn same_but_revision<A>(one: ServiceState<A>, other: ServiceState<A>) -> bool {
    &&& one.current == other.current
    &&& one.reservations == other.reservations
    &&& one.initializations == other.initializations
    &&& one.shutdown == other.shutdown
    &&& one.cache_ttl == other.cache_ttl
}

/// Whether two services differ at most in their reservations.
pub open spec fn same_but_reservations<A>(one: ServiceState<A>, other: ServiceState<A>) -> bool {
    &&& one.current == other.current
    &&& one.publication_revision == other.publication_revision
    &&& one.initializations == other.initializations
    &&& one.shutdown == other.shutdown
    &&& one.cache_ttl == other.cache_ttl
}

/// Whether two services differ at most in which initializations are running.
pub open spec fn same_but_initializations<A>(one: ServiceState<A>, other: ServiceState<A>) -> bool {
    &&& one.current == other.current
    &&& one.publication_revision == other.publication_revision
    &&& one.reservations == other.reservations
    &&& one.shutdown == other.shutdown
    &&& one.cache_ttl == other.cache_ttl
}

/// Whether `after` is the revision that follows `before`; the one after the last is zero.
pub open spec fn follows(before: u64, after: u64) -> bool {
    if before < u64::MAX {
        after == before + 1
    } else {
        after == 0
    }
}

/// Whether `key` is entered once more in `after` than in `before`, and every other key as often.
pub open spec fn entered_once_more(
    before: Multiset<ConnectionKeyView>,
    after: Multiset<ConnectionKeyView>,
    key: ConnectionKeyView,
) -> bool {
    forall|other: ConnectionKeyView| #[trigger]
        after.count(other) == before.count(other) + if other == key {
            1int
        } else {
            0
        }
}

/// Whether `key` is entered once less in `after` than in `before`, if it was entered, and every other
/// key as often.
pub open spec fn entered_once_less(
    before: Multiset<ConnectionKeyView>,
    after: Multiset<ConnectionKeyView>,
    key: ConnectionKeyView,
) -> bool {
    forall|other: ConnectionKeyView| #[trigger]
        after.count(other) == before.count(other) - if other == key && before.count(key) > 0 {
            1int
        } else {
            0
        }
}

/// Settings are told apart by each of their parts.
pub proof fn law_settings_are_their_parts(
    one: CodexAppsConnectConfig,
    other: CodexAppsConnectConfig,
)
    ensures
        one@ == other@ <==> {
            &&& one.base_url@ == other.base_url@
            &&& match (one.product_sku, other.product_sku) {
                (Some(mine), Some(theirs)) => mine@ == theirs@,
                (None, None) => true,
                _ => false,
            }
            &&& one.credentials_store_mode == other.credentials_store_mode
            &&& one.keyring_backend == other.keyring_backend
        },
{
}

/// Comparing settings is comparing each of their parts, a copy of them is the same in each part, and new
/// ones have the parts that they were given.
pub proof fn law_settings_are_compared_whole(
    one: &CodexAppsConnectConfig,
    other: &CodexAppsConnectConfig,
    same: bool,
    copy: CodexAppsConnectConfig,
    made: CodexAppsConnectConfig,
)
    requires
        call_ensures(CodexAppsConnectConfig::eq, (one, other), same),
        call_ensures(CodexAppsConnectConfig::clone, (one,), copy),
        call_ensures(
            CodexAppsConnectConfig::new,
            (
                one.base_url,
                one.product_sku,
                one.credentials_store_mode,
                one.keyring_backend,
            ),
            made,
        ),
    ensures
        same <==> {
            &&& one.base_url@ == other.base_url@
            &&& match (one.product_sku, other.product_sku) {
                (Some(mine), Some(theirs)) => mine@ == theirs@,
                (None, None) => true,
                _ => false,
            }
            &&& one.credentials_store_mode == other.credentials_store_mode
            &&& one.keyring_backend == other.keyring_backend
        },
        copy@ == one@,
        made == *one,
{
}

/// A handle holds the runtime and the identity that it was given, and a copy of it holds the same.
pub proof fn law_handle_holds_its_runtime<A>(
    identity: usize,
    apps: std::sync::Arc<A>,
    handle: AppsHandle<A>,
    copy: AppsHandle<A>,
)
    requires
        call_ensures(AppsHandle::<A>::new, (identity, apps), handle),
        call_ensures(AppsHandle::<A>::clone, (&handle,), copy),
    ensures
        handle.identity == identity,
        handle.apps == apps,
        copy.identity == identity,
        copy.apps == apps,
{
}

/// A new register is empty, an entry is seen under its key, and the register is empty exactly if there
/// is none under any key.
pub proof fn law_register_shows_its_entries(
    fresh: KeyRegister,
    register: &KeyRegister,
    key: &CodexAppsConnectionKey,
    entered: bool,
    empty: bool,
)
    requires
        call_ensures(KeyRegister::new, (), fresh),
        call_ensures(KeyRegister::contains, (register, key), entered),
        call_ensures(KeyRegister::is_empty, (register,), empty),
    ensures
        forall|other: ConnectionKeyView| #[trigger] fresh@.count(other) == 0,
        entered <==> register@.count(key@) > 0,
        empty <==> forall|other: ConnectionKeyView| #[trigger] register@.count(other) == 0,
{
    if forall|other: ConnectionKeyView| #[trigger] register@.count(other) == 0 {
        assert(register@ =~= Multiset::empty());
    }
}

/// Entering a key and striking it are each felt once under that key, and under no other.
pub proof fn law_register_counts_its_entries(
    entering: &mut KeyRegister,
    striking: &mut KeyRegister,
    entry: CodexAppsConnectionKey,
    key: &CodexAppsConnectionKey,
)
    requires
        call_ensures(KeyRegister::enter, (entering, entry), ()),
        call_ensures(KeyRegister::strike, (striking, key), ()),
    ensures
        entered_once_more(old(entering)@, final(entering)@, entry@),
        entered_once_less(old(striking)@, final(striking)@, key@),
{
}

/// Keys are told apart by their settings and by their login.
pub proof fn law_keys_are_settings_and_login(
    one: CodexAppsConnectionKey,
    other: CodexAppsConnectionKey,
)
    ensures
        one@ == other@ <==> one.config@ == other.config@ && one.auth_revision
            == other.auth_revision,
        one@.config == one.config@,
        one@.auth_revision == one.auth_revision,
{
}

/// Comparing keys is comparing their settings and their logins, and a copy of a key is the same key.
pub proof fn law_keys_are_compared_whole(
    one: &CodexAppsConnectionKey,
    other: &CodexAppsConnectionKey,
    same: bool,
    copy: CodexAppsConnectionKey,
)
    requires
        call_ensures(CodexAppsConnectionKey::eq, (one, other), same),
        call_ensures(CodexAppsConnectionKey::clone, (one,), copy),
    ensures
        same <==> one.config@ == other.config@ && one.auth_revision == other.auth_revision,
        copy.config@ == one.config@,
        copy.auth_revision == one.auth_revision,
{
}

/// The value of a service is made of the values of its parts.
pub proof fn law_service_is_its_parts<A>(service: AppsConnectionService<A>)
    ensures
        match (service.current, service@.current) {
            (Some(connected), Some(value)) => {
                &&& value.key == connected.key@
                &&& value.apps == connected.apps
                &&& value.refreshed_at == connected.refreshed_at
            },
            (None, None) => true,
            _ => false,
        },
        service@.publication_revision == service.publication_revision,
        service@.reservations == service.publication_reservations@,
        service@.initializations == service.background_initializations@,
        service@.shutdown == service.shutdown,
        service@.cache_ttl == service.cache_ttl,
        service@.wf() <==> forall|key: ConnectionKeyView| #[trigger]
            service.background_initializations@.count(key) <= 1,
{
}

/// A new service has no connection, has announced nothing, and is not shut down.
pub proof fn law_new_service_is_empty<A>(cache_ttl: u128, service: AppsConnectionService<A>)
    requires
        call_ensures(AppsConnectionService::<A>::new, (cache_ttl,), service),
    ensures
        service.current is None,
        service.publication_revision == 0,
        forall|key: ConnectionKeyView| #[trigger]
            service.publication_reservations@.count(key) == 0,
        forall|key: ConnectionKeyView| #[trigger]
            service.background_initializations@.count(key) == 0,
        !service.shutdown,
        service.cache_ttl == cache_ttl,
{
}

/// A login is usable exactly if it speaks to the Codex backend; it keeps the revision that it was
/// observed at, usable or not.
pub proof fn law_usable_login_speaks_to_the_backend<T>(
    observed: Option<(T, bool)>,
    revision: u64,
    usable: (Option<T>, u64),
)
    requires
        call_ensures(current_auth::<T>, (observed, revision), usable),
    ensures
        usable.0 is Some <==> observed is Some && (observed->0).1,
        usable.0 is Some ==> (usable.0)->0 == (observed->0).0,
        usable.1 == revision,
{
}

/// Whether a connection is of a later login is decided by the two revisions.
pub proof fn law_later_login_has_greater_revision<A>(
    service: &AppsConnectionService<A>,
    auth_revision: u64,
    newer: bool,
)
    requires
        call_ensures(AppsConnectionService::<A>::is_newer_than, (service, auth_revision), newer),
    ensures
        newer <==> service.current is Some && service.current->0.key.auth_revision > auth_revision,
{
}

/// The runtime of the current connection is found under its key, and none under any other.
pub proof fn law_runtime_is_found_under_its_key<A>(
    service: &AppsConnectionService<A>,
    key: &CodexAppsConnectionKey,
    apps: Option<AppsHandle<A>>,
)
    requires
        call_ensures(AppsConnectionService::<A>::current_apps_for_key, (service, key), apps),
    ensures
        apps is Some <==> service.current is Some && service.current->0.key@ == key@,
        apps is Some ==> apps->0 == service.current->0.apps,
{
}

/// A connection key is asked for exactly while the service is not shut down, whatever is connected.
pub proof fn law_key_is_asked_for_until_shutdown<A>(
    service: &AppsConnectionService<A>,
    asked: Option<ConnectionKeyRequest>,
)
    requires
        call_ensures(AppsConnectionService::<A>::connection_key, (service,), asked),
    ensures
        asked is Some <==> !service.shutdown,
{
}

/// A usable login gives its key and changes nothing. Without one there is no key, and a connection is
/// given up unless it was made under a later login than the one that was read.
pub proof fn law_login_gives_its_key<A>(
    request: ConnectionKeyRequest,
    service: &mut AppsConnectionService<A>,
    config: Option<CodexAppsConnectConfig>,
    auth_revision: u64,
    key: Option<CodexAppsConnectionKey>,
)
    requires
        call_ensures(
            ConnectionKeyRequest::answer::<A>,
            (request, service, config, auth_revision),
            key,
        ),
    ensures
        key is Some <==> config is Some,
        key is Some ==> key->0.config@ == config->0@ && key->0.auth_revision == auth_revision,
        same_but_connection(final(service)@, old(service)@),
        final(service)@.current == old(service)@.current || final(service)@.current is None,
        old(service)@.current is Some ==> (final(service)@.current is None <==> config is None
            && old(service)@.current->0.key.auth_revision <= auth_revision),
{
}

/// A runtime is found, with its key, exactly if a usable login was read and the current connection
/// was made with its settings and under it. A usable login changes nothing; without one, a connection
/// is given up unless it was made under a later login.
pub proof fn law_connected_runtime_is_found_for_its_login<A>(
    service: &mut AppsConnectionService<A>,
    request: ConnectionKeyRequest,
    config: Option<CodexAppsConnectConfig>,
    auth_revision: u64,
    found: Option<(CodexAppsConnectionKey, AppsHandle<A>)>,
)
    requires
        call_ensures(
            AppsConnectionService::<A>::current_snapshot_with_key,
            (service, request, config, auth_revision),
            found,
        ),
    ensures
        found is Some <==> {
            &&& config is Some
            &&& old(service)@.current is Some
            &&& old(service)@.current->0.key.config == config->0@
            &&& old(service)@.current->0.key.auth_revision == auth_revision
        },
        found is Some ==> {
            &&& (found->0).0.config@ == config->0@
            &&& (found->0).0.auth_revision == auth_revision
            &&& (found->0).1 == old(service)@.current->0.apps
        },
        same_but_connection(final(service)@, old(service)@),
        final(service)@.current == old(service)@.current || final(service)@.current is None,
        old(service)@.current is Some ==> (final(service)@.current is None <==> config is None
            && old(service)@.current->0.key.auth_revision <= auth_revision),
{
}

/// A runtime needs to become live exactly if it is the current one and its inventory is cached, and
/// to be fetched again exactly if it is the current one and its inventory was live for the last time
/// `cache_ttl` ago or earlier.
pub proof fn law_need_is_decided_by_age<A>(
    service: &AppsConnectionService<A>,
    key: &CodexAppsConnectionKey,
    apps: &AppsHandle<A>,
    now: u128,
    requirement: AppsRefreshRequirement,
)
    requires
        call_ensures(
            AppsConnectionService::<A>::refresh_requirement,
            (service, key, apps, now),
            requirement,
        ),
    ensures
        requirement == AppsRefreshRequirement::EnsureLive <==> {
            &&& service.current is Some
            &&& service.current->0.key@ == key@
            &&& service.current->0.apps.identity == apps.identity
            &&& service.current->0.refreshed_at is None
        },
        requirement == AppsRefreshRequirement::Refresh <==> {
            &&& service.current is Some
            &&& service.current->0.key@ == key@
            &&& service.current->0.apps.identity == apps.identity
            &&& service.current->0.refreshed_at is Some
            &&& service.cache_ttl == 0 || now - service.current->0.refreshed_at->0
                >= service.cache_ttl
        },
{
}

/// An inventory that needs something goes on needing it as time passes.
pub proof fn law_need_does_not_pass<A>(
    service: &AppsConnectionService<A>,
    key: &CodexAppsConnectionKey,
    apps: &AppsHandle<A>,
    then: u128,
    now: u128,
    before: AppsRefreshRequirement,
    after: AppsRefreshRequirement,
)
    requires
        call_ensures(
            AppsConnectionService::<A>::refresh_requirement,
            (service, key, apps, then),
            before,
        ),
        call_ensures(
            AppsConnectionService::<A>::refresh_requirement,
            (service, key, apps, now),
            after,
        ),
        then <= now,
        before != AppsRefreshRequirement::NotNeeded,
    ensures
        after == before,
{
}

/// Noting that an inventory was live changes when the current runtime was last live, if it is that
/// runtime, and nothing else.
pub proof fn law_refresh_is_noted_of_its_runtime<A>(
    service: &mut AppsConnectionService<A>,
    key: &CodexAppsConnectionKey,
    apps: &AppsHandle<A>,
    now: u128,
)
    requires
        call_ensures(AppsConnectionService::<A>::mark_refreshed, (service, key, apps, now), ()),
    ensures
        same_but_connection(final(service)@, old(service)@),
        final(service)@.current is Some <==> old(service)@.current is Some,
        old(service)@.current is Some ==> {
            let before = old(service)@.current->0;
            let after = final(service)@.current->0;
            &&& after.key == before.key
            &&& after.apps == before.apps
            &&& before.key == key@ && before.apps.identity == apps.identity ==> after.refreshed_at
                == Some(now)
            &&& before.key != key@ || before.apps.identity != apps.identity ==> after.refreshed_at
                == before.refreshed_at
        },
{
}

/// An announcement moves the revision on by one and changes nothing else.
pub proof fn law_announcement_moves_the_revision<A>(service: &mut AppsConnectionService<A>)
    requires
        call_ensures(AppsConnectionService::<A>::announce_publication, (service,), ()),
    ensures
        follows(old(service).publication_revision, final(service).publication_revision),
        same_but_revision(final(service)@, old(service)@),
{
}

/// What is published becomes the connection, whatever was connected, and is announced unless its
/// publication was reserved; nothing else changes.
pub proof fn law_published_connection_is_current<A>(
    service: &mut AppsConnectionService<A>,
    key: CodexAppsConnectionKey,
    apps: AppsHandle<A>,
    refreshed_at: Option<u128>,
    reserved: bool,
)
    requires
        call_ensures(
            AppsConnectionService::<A>::publish,
            (service, key, apps, refreshed_at, reserved),
            (),
        ),
    ensures
        final(service)@.current == Some(ConnectedView { key: key@, apps, refreshed_at }),
        reserved ==> same_but_connection(final(service)@, old(service)@),
        !reserved ==> follows(old(service).publication_revision, final(service).publication_revision),
        final(service)@.reservations == old(service)@.reservations,
        final(service)@.initializations == old(service)@.initializations,
        final(service)@.shutdown == old(service)@.shutdown,
        final(service)@.cache_ttl == old(service)@.cache_ttl,
{
}

/// A reservation is entered once more under its key, and nothing else changes.
pub proof fn law_reservation_is_entered<A>(
    service: &mut AppsConnectionService<A>,
    key: CodexAppsConnectionKey,
    reservation: AppsPublicationReservation,
)
    requires
        call_ensures(
            AppsConnectionService::<A>::reserve_publication,
            (service, key),
            reservation,
        ),
    ensures
        reservation.key@ == key@,
        entered_once_more(old(service)@.reservations, final(service)@.reservations, key@),
        same_but_reservations(final(service)@, old(service)@),
{
}

/// A reservation that is given back is taken out once under its key, and nothing else changes.
pub proof fn law_reservation_is_given_back<A>(
    reservation: AppsPublicationReservation,
    service: &mut AppsConnectionService<A>,
)
    requires
        call_ensures(AppsPublicationReservation::release::<A>, (reservation, service), ()),
    ensures
        entered_once_less(
            old(service)@.reservations,
            final(service)@.reservations,
            reservation.key@,
        ),
        same_but_reservations(final(service)@, old(service)@),
{
}

/// A reservation that is moved is under its new key from then on; if that is another key, it is
/// entered there once more and, if it was entered, once less under its old one.
pub proof fn law_reservation_is_moved<A>(
    reservation: &mut AppsPublicationReservation,
    service: &mut AppsConnectionService<A>,
    key: CodexAppsConnectionKey,
)
    requires
        call_ensures(AppsPublicationReservation::retarget::<A>, (reservation, service, key), ()),
    ensures
        final(reservation).key@ == key@,
        same_but_reservations(final(service)@, old(service)@),
        forall|other: ConnectionKeyView|
            other != key@ && other != old(reservation).key@ ==> #[trigger] final(service)@.reservations.count(other) == old(service)@.reservations.count(other),
        key@ != old(reservation).key@ ==> {
            let from = old(reservation).key@;
            &&& final(service)@.reservations.count(key@) == old(service)@.reservations.count(key@)
                + 1
            &&& old(service)@.reservations.count(from) > 0 ==> final(service)@.reservations.count(
                from,
            ) == old(service)@.reservations.count(from) - 1
            &&& old(service)@.reservations.count(from) == 0 ==> final(service)@.reservations.count(
                from,
            ) == 0
        },
        key@ == old(reservation).key@ ==> final(service)@.reservations.count(key@) == old(service)@.reservations.count(key@),
{
}

/// A publication is reserved under a key exactly if it is entered there at least once.
pub proof fn law_reservation_is_seen_under_its_key<A>(
    service: &AppsConnectionService<A>,
    key: &CodexAppsConnectionKey,
    reserved: bool,
)
    requires
        call_ensures(AppsConnectionService::<A>::publication_is_reserved, (service, key), reserved),
    ensures
        reserved <==> service@.reservations.count(key@) > 0,
{
}

/// An initialization begins exactly if none is running under that very key, whatever is connected,
/// reserved or running under other keys. It is entered there; otherwise nothing changes.
pub proof fn law_initialization_begins_unless_running<A>(
    service: &mut AppsConnectionService<A>,
    key: CodexAppsConnectionKey,
    begun: Option<AppsBackgroundInitialization>,
)
    requires
        call_ensures(
            AppsConnectionService::<A>::begin_background_initialization,
            (service, key),
            begun,
        ),
    ensures
        begun is Some <==> old(service)@.initializations.count(key@) == 0,
        begun is Some ==> begun->0.key@ == key@ && entered_once_more(
            old(service)@.initializations,
            final(service)@.initializations,
            key@,
        ),
        begun is None ==> final(service)@.initializations == old(service)@.initializations,
        same_but_initializations(final(service)@, old(service)@),
{
}

/// An initialization that is over is taken out once under its key, and nothing else changes.
pub proof fn law_initialization_ends<A>(
    initialization: AppsBackgroundInitialization,
    service: &mut AppsConnectionService<A>,
)
    requires
        call_ensures(AppsBackgroundInitialization::release::<A>, (initialization, service), ()),
    ensures
        entered_once_less(
            old(service)@.initializations,
            final(service)@.initializations,
            initialization.key@,
        ),
        same_but_initializations(final(service)@, old(service)@),
{
}

/// An initialization is seen under its key, and by whoever asks for any.
pub proof fn law_running_initialization_is_seen<A>(
    service: &AppsConnectionService<A>,
    key: &CodexAppsConnectionKey,
    active: bool,
    any: bool,
)
    requires
        call_ensures(
            AppsConnectionService::<A>::background_initialization_is_active_for,
            (service, key),
            active,
        ),
        call_ensures(
            AppsConnectionService::<A>::background_initialization_is_active,
            (service,),
            any,
        ),
    ensures
        active <==> service@.initializations.count(key@) > 0,
        active ==> any,
        !any <==> forall|other: ConnectionKeyView| #[trigger]
            service@.initializations.count(other) == 0,
{
    if forall|other: ConnectionKeyView| #[trigger] service@.initializations.count(other) == 0 {
        assert(service@.initializations =~= Multiset::empty());
    }
}

/// A connection is given up exactly if it was not made under a later login, and nothing else changes.
pub proof fn law_connection_is_given_up_through_its_login<A>(
    service: &mut AppsConnectionService<A>,
    auth_revision: u64,
)
    requires
        call_ensures(
            AppsConnectionService::<A>::clear_connected_through,
            (service, auth_revision),
            (),
        ),
    ensures
        same_but_connection(final(service)@, old(service)@),
        final(service)@.current == old(service)@.current || final(service)@.current is None,
        old(service)@.current is Some ==> (final(service)@.current is None <==> old(service)@.current->0.key.auth_revision <= auth_revision),
{
}

/// Taking the connection hands its runtime out and leaves none; nothing else changes.
pub proof fn law_taken_connection_is_handed_out<A>(
    service: &mut AppsConnectionService<A>,
    apps: Option<AppsHandle<A>>,
)
    requires
        call_ensures(AppsConnectionService::<A>::take_connected, (service,), apps),
    ensures
        apps is Some <==> old(service)@.current is Some,
        apps is Some ==> apps->0 == old(service)@.current->0.apps,
        final(service)@.current is None,
        same_but_connection(final(service)@, old(service)@),
{
}

/// Beginning a shutdown changes nothing but that it has begun.
pub proof fn law_shutdown_begins<A>(service: &mut AppsConnectionService<A>)
    requires
        call_ensures(AppsConnectionService::<A>::begin_shutdown, (service,), ()),
    ensures
        final(service).shutdown,
        final(service)@.current == old(service)@.current,
        final(service)@.publication_revision == old(service)@.publication_revision,
        final(service)@.reservations == old(service)@.reservations,
        final(service)@.initializations == old(service)@.initializations,
        final(service)@.cache_ttl == old(service)@.cache_ttl,
{
}

} // verus!
