//! The connection that the process shares.

use crate::connected::{AppsHandle, AppsRefreshRequirement, ConnectedCodexApps};
use crate::key::{CodexAppsConnectConfig, CodexAppsConnectionKey, ConnectionKeyView};
use crate::register::KeyRegister;
use crate::state::ServiceState;
use vstd::multiset::Multiset;
use vstd::prelude::*;

verus! {

/// The right to initialize one connection in the background. Given back with
/// [`AppsBackgroundInitialization::release`].
#[derive(Debug)]
pub struct AppsBackgroundInitialization {
    pub key: CodexAppsConnectionKey,
}

/// A publication that was announced before its connection exists. Given back with
/// [`AppsPublicationReservation::release`].
#[derive(Debug)]
pub struct AppsPublicationReservation {
    pub key: CodexAppsConnectionKey,
}

/// A request for a connection key that was made before shutdown and waits for the login to be read.
/// Only [`AppsConnectionService::connection_key`] makes one.
#[derive(Debug)]
pub struct ConnectionKeyRequest {
    granted: (),
}

/// The shared connection of the process.
///
/// `cache_ttl` is for how many nanoseconds a live inventory stays fresh.
#[derive(Debug)]
pub struct AppsConnectionService<A> {
    pub current: Option<ConnectedCodexApps<A>>,
    pub publication_revision: u64,
    pub publication_reservations: KeyRegister,
    pub background_initializations: KeyRegister,
    pub shutdown: bool,
    pub cache_ttl: u128,
}

impl<A> View for AppsConnectionService<A> {
    type V = ServiceState<A>;

    open spec fn view(&self) -> ServiceState<A> {
        ServiceState {
            current: match self.current {
                Some(connected) => Some(connected@),
                None => None,
            },
            publication_revision: self.publication_revision,
            reservations: self.publication_reservations@,
            initializations: self.background_initializations@,
            shutdown: self.shutdown,
            cache_ttl: self.cache_ttl,
        }
    }
}

/// The login that a request may use: the observed one, unless it does not speak to the Codex
/// backend; together with the revision that it was observed at.
///
/// `observed` is the login and whether it speaks to the Codex backend.
pub fn current_auth<T>(observed: Option<(T, bool)>, revision: u64) -> (usable: (Option<T>, u64))
    ensures
        usable.0 == (match observed {
            Some((auth, uses_codex_backend)) if uses_codex_backend => Some(auth),
            _ => None,
        }),
        usable.1 == revision,
{
    match observed {
        Some((auth, uses_codex_backend)) => if uses_codex_backend {
            (Some(auth), revision)
        } else {
            (None, revision)
        },
        None => (None, revision),
    }
}

impl<A> AppsConnectionService<A> {
    /// A service without a connection.
    pub fn new(cache_ttl: u128) -> (service: Self)
        ensures
            service@ == ServiceState::<A>::initial(cache_ttl),
            service@.wf(),
    {
        AppsConnectionService {
            current: None,
            publication_revision: 0,
            publication_reservations: KeyRegister::new(),
            background_initializations: KeyRegister::new(),
            shutdown: false,
            cache_ttl,
        }
    }

    /// Whether the current connection was made under a later login than `auth_revision`.
    pub fn is_newer_than(&self, auth_revision: u64) -> (newer: bool)
        ensures
            newer == self@.is_newer_than(auth_revision),
    {
        match &self.current {
            Some(connected) => connected.key.auth_revision > auth_revision,
            None => false,
        }
    }

    /// The runtime that is connected under `key`, if the current connection is that one.
    pub fn current_apps_for_key(&self, key: &CodexAppsConnectionKey) -> (apps: Option<
        AppsHandle<A>,
    >)
        ensures
            apps == self@.apps_for(key@),
    {
        match &self.current {
            Some(connected) => if connected.key == *key {
                Some(connected.apps.clone())
            } else {
                None
            },
            None => None,
        }
    }

    /// Asks for the connection key of whoever is logged in. After shutdown there is none, and nothing
    /// is changed; otherwise the login is to be read, and the request answers from that.
    pub fn connection_key(&self) -> (asked: Option<ConnectionKeyRequest>)
        ensures
            asked is None <==> self@.shutdown,
    {
        if self.shutdown {
            None
        } else {
            Some(ConnectionKeyRequest { granted: () })
        }
    }

    /// The key of the given login: `config` is the settings for it, or `None` when nobody usable is
    /// logged in. Then the connection of that or an earlier login is given up.
    pub(crate) fn key_of_login(
        &mut self,
        config: Option<CodexAppsConnectConfig>,
        auth_revision: u64,
    ) -> (key: Option<CodexAppsConnectionKey>)
        ensures
            match config {
                Some(config) => {
                    &&& key matches Some(key) && key@ == ConnectionKeyView {
                        config: config@,
                        auth_revision,
                    }
                    &&& final(self)@ == old(self)@
                },
                None => key is None && final(self)@ == old(self)@.cleared_through(auth_revision),
            },
    {
        match config {
            Some(config) => Some(CodexAppsConnectionKey { config, auth_revision }),
            None => {
                self.clear_connected_through(auth_revision);
                None
            },
        }
    }

    /// The runtime that is already connected for the login that was read for `request`, with its key.
    /// No connection is made.
    pub fn current_snapshot_with_key(
        &mut self,
        request: ConnectionKeyRequest,
        config: Option<CodexAppsConnectConfig>,
        auth_revision: u64,
    ) -> (found: Option<(CodexAppsConnectionKey, AppsHandle<A>)>)
        ensures
            match config {
                Some(config) => {
                    let key = ConnectionKeyView { config: config@, auth_revision };
                    &&& final(self)@ == old(self)@
                    &&& match old(self)@.apps_for(key) {
                        Some(apps) => found matches Some((k, a)) && k@ == key && a == apps,
                        None => found is None,
                    }
                },
                None => found is None && final(self)@ == old(self)@.cleared_through(auth_revision),
            },
    {
        match request.answer(self, config, auth_revision) {
            Some(key) => match self.current_apps_for_key(&key) {
                Some(apps) => Some((key, apps)),
                None => None,
            },
            None => None,
        }
    }

    /// What the runtime `apps` under `key` needs at `now` before it may be taken as fresh.
    pub fn refresh_requirement(
        &self,
        key: &CodexAppsConnectionKey,
        apps: &AppsHandle<A>,
        now: u128,
    ) -> (requirement: AppsRefreshRequirement)
        ensures
            requirement == self@.requirement(key@, apps.identity, now),
    {
        match &self.current {
            Some(connected) => if connected.key == *key && connected.apps.identity
                == apps.identity {
                match connected.refreshed_at {
                    None => AppsRefreshRequirement::EnsureLive,
                    Some(refreshed_at) => {
                        let age: u128 = if now >= refreshed_at {
                            now - refreshed_at
                        } else {
                            0
                        };
                        if age >= self.cache_ttl {
                            AppsRefreshRequirement::Refresh
                        } else {
                            AppsRefreshRequirement::NotNeeded
                        }
                    },
                }
            } else {
                AppsRefreshRequirement::NotNeeded
            },
            None => AppsRefreshRequirement::NotNeeded,
        }
    }

    /// Notes that the inventory of the runtime `apps` under `key` was live at `now`. A runtime that
    /// is no longer the current one is not noted.
    pub fn mark_refreshed(
        &mut self,
        key: &CodexAppsConnectionKey,
        apps: &AppsHandle<A>,
        now: u128,
    )
        ensures
            final(self)@ == old(self)@.refreshed(key@, apps.identity, now),
    {
        let matching = match &self.current {
            Some(connected) => connected.key == *key && connected.apps.identity == apps.identity,
            None => false,
        };
        if matching {
            if let Some(connected) = self.current.take() {
                self.current = Some(
                    ConnectedCodexApps {
                        key: connected.key,
                        apps: connected.apps,
                        refreshed_at: Some(now),
                    },
                );
            }
        }
    }

    /// Announces a publication to everyone who watches the revision.
    pub fn announce_publication(&mut self)
        ensures
            final(self)@ == old(self)@.announced(),
    {
        self.publication_revision = self.publication_revision.wrapping_add(1);
    }

    /// Makes `apps` the current connection, in place of whatever was current. `refreshed_at` is
    /// when its inventory was live, `None` for a cached one; a publication that was `reserved` is
    /// not announced again.
    pub fn publish(
        &mut self,
        key: CodexAppsConnectionKey,
        apps: AppsHandle<A>,
        refreshed_at: Option<u128>,
        reserved: bool,
    )
        ensures
            final(self)@ == old(self)@.published(key@, apps, refreshed_at, reserved),
    {
        self.current = Some(ConnectedCodexApps { key, apps, refreshed_at });
        if !reserved {
            self.announce_publication();
        }
    }

    /// Reserves a publication under `key`.
    pub fn reserve_publication(&mut self, key: CodexAppsConnectionKey) -> (reservation:
        AppsPublicationReservation)
        ensures
            reservation.key@ == key@,
            final(self)@ == old(self)@.reserved(key@),
    {
        self.publication_reservations.enter(key.clone());
        AppsPublicationReservation { key }
    }

    /// Whether a publication is reserved under `key`.
    pub fn publication_is_reserved(&self, key: &CodexAppsConnectionKey) -> (reserved: bool)
        ensures
            reserved == self@.reservations.contains(key@),
    {
        self.publication_reservations.contains(key)
    }

    /// Begins a background initialization under `key`, unless one is running under it.
    pub fn begin_background_initialization(&mut self, key: CodexAppsConnectionKey) -> (begun:
        Option<AppsBackgroundInitialization>)
        ensures
            old(self)@.initializations.contains(key@) ==> begun is None && final(self)@ == old(
                self,
            )@,
            !old(self)@.initializations.contains(key@) ==> {
                &&& begun matches Some(initialization) && initialization.key@ == key@
                &&& final(self)@ == old(self)@.begun(key@)
            },
            old(self)@.wf() ==> final(self)@.wf(),
    {
        if self.background_initializations.contains(&key) {
            return None;
        }
        self.background_initializations.enter(key.clone());
        Some(AppsBackgroundInitialization { key })
    }

    /// Whether any background initialization is running.
    pub fn background_initialization_is_active(&self) -> (active: bool)
        ensures
            active == (self@.initializations != Multiset::<ConnectionKeyView>::empty()),
    {
        !self.background_initializations.is_empty()
    }

    /// Whether a background initialization is running under `key`.
    pub fn background_initialization_is_active_for(&self, key: &CodexAppsConnectionKey) -> (active:
        bool)
        ensures
            active == self@.initializations.contains(key@),
    {
        self.background_initializations.contains(key)
    }

    /// Gives up the current connection if it was made under the login `auth_revision` or an earlier
    /// one.
    pub fn clear_connected_through(&mut self, auth_revision: u64)
        ensures
            final(self)@ == old(self)@.cleared_through(auth_revision),
    {
        if !self.is_newer_than(auth_revision) {
            self.current = None;
        }
    }

    /// Gives up the current connection and hands its runtime out.
    pub fn take_connected(&mut self) -> (apps: Option<AppsHandle<A>>)
        ensures
            final(self)@ == old(self)@.disconnected(),
            match old(self)@.current {
                Some(connected) => apps == Some(connected.apps),
                None => apps is None,
            },
    {
        match self.current.take() {
            Some(connected) => Some(connected.apps),
            None => None,
        }
    }

    /// Starts nothing new from now on.
    pub fn begin_shutdown(&mut self)
        ensures
            final(self)@ == old(self)@.shut_down(),
    {
        self.shutdown = true;
    }
}

impl ConnectionKeyRequest {
    /// The key under which to connect with the login that was read: `config` is the settings for it,
    /// or `None` when nobody usable is logged in. Then the connection of that or an earlier login is
    /// given up.
    pub fn answer<A>(
        self,
        service: &mut AppsConnectionService<A>,
        config: Option<CodexAppsConnectConfig>,
        auth_revision: u64,
    ) -> (key: Option<CodexAppsConnectionKey>)
        ensures
            match config {
                Some(config) => {
                    &&& key matches Some(key) && key@ == ConnectionKeyView {
                        config: config@,
                        auth_revision,
                    }
                    &&& final(service)@ == old(service)@
                },
                None => key is None && final(service)@ == old(service)@.cleared_through(
                    auth_revision,
                ),
            },
    {
        service.key_of_login(config, auth_revision)
    }
}

impl AppsBackgroundInitialization {
    /// Ends the initialization.
    pub fn release<A>(self, connection: &mut AppsConnectionService<A>)
        ensures
            final(connection)@ == old(connection)@.ended(self.key@),
            old(connection)@.wf() ==> final(connection)@.wf(),
    {
        connection.background_initializations.strike(&self.key);
    }
}

impl AppsPublicationReservation {
    /// Moves the reservation to another key.
    pub fn retarget<A>(
        &mut self,
        connection: &mut AppsConnectionService<A>,
        key: CodexAppsConnectionKey,
    )
        ensures
            final(self).key@ == key@,
            final(connection)@ == old(connection)@.retargeted(old(self).key@, key@),
    {
        if self.key == key {
            return;
        }
        connection.publication_reservations.strike(&self.key);
        connection.publication_reservations.enter(key.clone());
        self.key = key;
    }

    /// Gives the reservation back.
    pub fn release<A>(self, connection: &mut AppsConnectionService<A>)
        ensures
            final(connection)@ == old(connection)@.released(self.key@),
    {
        connection.publication_reservations.strike(&self.key);
    }
}

} // verus!
