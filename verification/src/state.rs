//! The shared connection as a value, and what every operation makes of it.

use crate::connected::{AppsHandle, AppsRefreshRequirement, ConnectedView};
use crate::key::ConnectionKeyView;
use vstd::multiset::Multiset;
use vstd::prelude::*;

verus! {

/// The value of an [`AppsConnectionService`].
#[verifier::ext_equal]
pub struct ServiceState<A> {
    pub current: Option<ConnectedView<A>>,
    pub publication_revision: u64,
    pub reservations: Multiset<ConnectionKeyView>,
    pub initializations: Multiset<ConnectionKeyView>,
    pub shutdown: bool,
    pub cache_ttl: u128,
}

/// How long ago `then` was at `now`; nothing when `now` is not later.
pub open spec fn elapsed(then: u128, now: u128) -> int {
    if now >= then {
        now - then
    } else {
        0
    }
}

impl<A> ServiceState<A> {
    /// At most one background initialization runs for each key.
    pub open spec fn wf(self) -> bool {
        forall|key: ConnectionKeyView| #[trigger] self.initializations.count(key) <= 1
    }

    /// The service as it starts out.
    pub open spec fn initial(cache_ttl: u128) -> Self {
        ServiceState {
            current: None,
            publication_revision: 0,
            reservations: Multiset::empty(),
            initializations: Multiset::empty(),
            shutdown: false,
            cache_ttl,
        }
    }

    /// Whether the current connection was made under a later login than `auth_revision`.
    pub open spec fn is_newer_than(self, auth_revision: u64) -> bool {
        self.current matches Some(connected) && connected.key.auth_revision > auth_revision
    }

    /// The runtime that is connected under `key`.
    pub open spec fn apps_for(self, key: ConnectionKeyView) -> Option<AppsHandle<A>> {
        match self.current {
            Some(connected) if connected.key == key => Some(connected.apps),
            _ => None,
        }
    }

    /// Whether the runtime `identity` is the one that is connected under `key`.
    pub open spec fn is_current(self, key: ConnectionKeyView, identity: usize) -> bool {
        self.apps_for(key) matches Some(apps) && apps.identity == identity
    }

    /// What the runtime `identity` under `key` needs at `now`. One that is no longer current needs
    /// nothing; a cached inventory has to become live; a live one is fetched again once it is as
    /// old as `cache_ttl`.
    pub open spec fn requirement(
        self,
        key: ConnectionKeyView,
        identity: usize,
        now: u128,
    ) -> AppsRefreshRequirement {
        if !self.is_current(key, identity) {
            AppsRefreshRequirement::NotNeeded
        } else {
            match self.current->0.refreshed_at {
                None => AppsRefreshRequirement::EnsureLive,
                Some(refreshed_at) => if elapsed(refreshed_at, now) >= self.cache_ttl {
                    AppsRefreshRequirement::Refresh
                } else {
                    AppsRefreshRequirement::NotNeeded
                },
            }
        }
    }

    /// One more publication is announced; the revision wraps around at its end.
    pub open spec fn announced(self) -> Self {
        ServiceState {
            publication_revision: ((self.publication_revision + 1) % 0x1_0000_0000_0000_0000) as u64,
            ..self
        }
    }

    /// The connection under `key` becomes the current one. It is announced unless its publication
    /// was reserved.
    pub open spec fn published(
        self,
        key: ConnectionKeyView,
        apps: AppsHandle<A>,
        refreshed_at: Option<u128>,
        reserved: bool,
    ) -> Self {
        let connected = ServiceState {
            current: Some(ConnectedView { key, apps, refreshed_at }),
            ..self
        };
        if reserved {
            connected
        } else {
            connected.announced()
        }
    }

    /// The inventory of the runtime `identity` under `key` was live at `now`.
    pub open spec fn refreshed(self, key: ConnectionKeyView, identity: usize, now: u128) -> Self {
        if self.is_current(key, identity) {
            ServiceState {
                current: Some(ConnectedView { refreshed_at: Some(now), ..self.current->0 }),
                ..self
            }
        } else {
            self
        }
    }

    /// The current connection is given up, whatever it is.
    pub open spec fn disconnected(self) -> Self {
        ServiceState { current: None, ..self }
    }

    /// The current connection is given up unless it was made under a later login.
    pub open spec fn cleared_through(self, auth_revision: u64) -> Self {
        if self.is_newer_than(auth_revision) {
            self
        } else {
            self.disconnected()
        }
    }

    /// A publication is reserved under `key`.
    pub open spec fn reserved(self, key: ConnectionKeyView) -> Self {
        ServiceState { reservations: self.reservations.insert(key), ..self }
    }

    /// A publication that was reserved under `key` is given back.
    pub open spec fn released(self, key: ConnectionKeyView) -> Self {
        ServiceState { reservations: self.reservations.remove(key), ..self }
    }

    /// A publication that was reserved under `from` is reserved under `to` instead.
    pub open spec fn retargeted(self, from: ConnectionKeyView, to: ConnectionKeyView) -> Self {
        if from == to {
            self
        } else {
            self.released(from).reserved(to)
        }
    }

    /// A background initialization under `key` begins.
    pub open spec fn begun(self, key: ConnectionKeyView) -> Self {
        ServiceState { initializations: self.initializations.insert(key), ..self }
    }

    /// The background initialization under `key` is over.
    pub open spec fn ended(self, key: ConnectionKeyView) -> Self {
        ServiceState { initializations: self.initializations.remove(key), ..self }
    }

    /// Nothing new is started from now on.
    pub open spec fn shut_down(self) -> Self {
        ServiceState { shutdown: true, ..self }
    }
}

} // verus!
