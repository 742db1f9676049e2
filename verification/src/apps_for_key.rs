//! Finding the runtime for one key: the current one, or a new connection.
//!
//! The work alternates between decisions and outside work (locks, connecting, fetching an
//! inventory). The decisions are made by [`AppsForKey::step`]: it is told what happened outside and
//! says what to do next. Whoever performs the work acquires the connect lock when told to and keeps
//! it until told to return.

use crate::connected::AppsHandle;
use crate::key::{CodexAppsConnectionKey, ConnectionKeyView};
use crate::service::AppsConnectionService;
use crate::state::ServiceState;
use vstd::prelude::*;

verus! {

/// What a search is waiting for.
#[derive(Debug)]
pub enum AppsForKeyStage<A> {
    /// To be started.
    Start,
    /// To hear whether the inventory of a runtime that is already connected is live.
    InspectExisting(AppsHandle<A>),
    /// The inventory of a runtime that is already connected, from the service.
    UpdateExisting(AppsHandle<A>),
    /// The connect lock.
    LockConnect,
    /// A new connection.
    Connect,
    /// A live inventory of the new connection.
    EnsureConnectedLive(AppsHandle<A>),
    /// To hear whether the inventory of the new connection is live.
    InspectConnected(AppsHandle<A>, bool),
    /// Nothing: the search is over.
    Finished,
}

/// What happened outside. `now` is the clock reading after it happened.
#[derive(Debug)]
pub enum AppsForKeyEvent<A, E> {
    /// The search was asked for.
    Begin,
    /// The connect lock was acquired.
    ConnectLocked,
    /// A connection was made, or failed.
    Connected(Result<AppsHandle<A>, E>),
    /// An inventory was looked at, and was live or not.
    Inspected { live: bool, now: u128 },
    /// An inventory was refreshed or made live, or that failed.
    Updated { result: Result<(), E>, now: u128 },
}

/// What to do next.
#[derive(Debug)]
pub enum AppsForKeyAction<A, E> {
    /// Acquire the connect lock, and keep it until told to return.
    LockConnect,
    /// Connect under the key of the search.
    Connect,
    /// Look whether the runtime's inventory is live.
    Inspect(AppsHandle<A>),
    /// Fetch the runtime's inventory again.
    Refresh(AppsHandle<A>),
    /// Make the runtime's inventory live.
    EnsureLive(AppsHandle<A>),
    /// Give up the lock, and return this: `None` when the key's login was superseded.
    Return(Result<Option<AppsHandle<A>>, E>),
    /// Nothing: the search was not waiting for that event.
    Unexpected,
}

/// The search for the runtime of one key.
#[derive(Debug)]
pub struct AppsForKey<A> {
    pub key: CodexAppsConnectionKey,
    pub refresh: bool,
    pub stage: AppsForKeyStage<A>,
}

/// What a step leaves and asks for.
pub struct AppsForKeyOutcome<A, E> {
    pub stage: AppsForKeyStage<A>,
    pub service: ServiceState<A>,
    pub action: AppsForKeyAction<A, E>,
}

/// What the current connection means for a search under `key`. One of a later login ends the
/// search without a runtime. One under that very key is the answer, once it is updated if the
/// caller asked for that. Otherwise a connection has to be made, under the connect lock.
pub open spec fn looked_up<A, E>(
    service: ServiceState<A>,
    key: ConnectionKeyView,
    refresh: bool,
    locked: bool,
) -> AppsForKeyOutcome<A, E> {
    let (stage, action) = if service.is_newer_than(key.auth_revision) {
        (AppsForKeyStage::Finished, AppsForKeyAction::Return(Ok(None)))
    } else {
        match service.apps_for(key) {
            Some(apps) => if refresh {
                (AppsForKeyStage::InspectExisting(apps), AppsForKeyAction::Inspect(apps))
            } else {
                (AppsForKeyStage::Finished, AppsForKeyAction::Return(Ok(Some(apps))))
            },
            None => if locked {
                (AppsForKeyStage::Connect, AppsForKeyAction::Connect)
            } else {
                (AppsForKeyStage::LockConnect, AppsForKeyAction::LockConnect)
            },
        }
    };
    AppsForKeyOutcome { stage, service, action }
}

/// The search is over and nothing was changed.
pub open spec fn returned<A, E>(
    service: ServiceState<A>,
    result: Result<Option<AppsHandle<A>>, E>,
) -> AppsForKeyOutcome<A, E> {
    AppsForKeyOutcome {
        stage: AppsForKeyStage::Finished,
        service,
        action: AppsForKeyAction::Return(result),
    }
}

/// What the search under `key` does in `stage` when `event` happens.
pub open spec fn apps_for_key_step<A, E>(
    stage: AppsForKeyStage<A>,
    key: ConnectionKeyView,
    refresh: bool,
    service: ServiceState<A>,
    event: AppsForKeyEvent<A, E>,
) -> AppsForKeyOutcome<A, E> {
    let reserved = service.reservations.contains(key);
    match (stage, event) {
        (AppsForKeyStage::Start, AppsForKeyEvent::Begin) => {
            looked_up(service, key, refresh, false)
        },
        (AppsForKeyStage::LockConnect, AppsForKeyEvent::ConnectLocked) => {
            looked_up(service, key, refresh, true)
        },
        (AppsForKeyStage::InspectExisting(apps), AppsForKeyEvent::Inspected { live, now }) => {
            AppsForKeyOutcome {
                stage: AppsForKeyStage::UpdateExisting(apps),
                service,
                action: if live {
                    AppsForKeyAction::Refresh(apps)
                } else {
                    AppsForKeyAction::EnsureLive(apps)
                },
            }
        },
        (AppsForKeyStage::UpdateExisting(apps), AppsForKeyEvent::Updated { result, now }) => {
            match result {
                Ok(()) => returned(
                    service.refreshed(key, apps.identity, now),
                    Ok(Some(apps)),
                ),
                Err(error) => returned(service, Err(error)),
            }
        },
        (AppsForKeyStage::Connect, AppsForKeyEvent::Connected(result)) => {
            match result {
                Ok(apps) => if refresh {
                    AppsForKeyOutcome {
                        stage: AppsForKeyStage::EnsureConnectedLive(apps),
                        service,
                        action: AppsForKeyAction::EnsureLive(apps),
                    }
                } else {
                    AppsForKeyOutcome {
                        stage: AppsForKeyStage::InspectConnected(apps, reserved),
                        service,
                        action: AppsForKeyAction::Inspect(apps),
                    }
                },
                Err(error) => returned(service, Err(error)),
            }
        },
        (AppsForKeyStage::EnsureConnectedLive(apps), AppsForKeyEvent::Updated { result, now }) => {
            match result {
                Ok(()) => AppsForKeyOutcome {
                    stage: AppsForKeyStage::InspectConnected(apps, reserved),
                    service,
                    action: AppsForKeyAction::Inspect(apps),
                },
                Err(error) => returned(service, Err(error)),
            }
        },
        (
            AppsForKeyStage::InspectConnected(apps, was_reserved),
            AppsForKeyEvent::Inspected { live, now },
        ) => {
            let refreshed_at = if live {
                Some(now)
            } else {
                None
            };
            returned(
                service.published(key, apps, refreshed_at, was_reserved),
                Ok(Some(apps)),
            )
        },
        _ => AppsForKeyOutcome { stage, service, action: AppsForKeyAction::Unexpected },
    }
}

impl<A> AppsForKey<A> {
    /// A search for the runtime under `key`; with `refresh`, one whose inventory is up to date.
    pub fn new(key: CodexAppsConnectionKey, refresh: bool) -> (search: Self)
        ensures
            search.key == key,
            search.refresh == refresh,
            search.stage == AppsForKeyStage::<A>::Start,
    {
        AppsForKey { key, refresh, stage: AppsForKeyStage::Start }
    }

    /// Looks at the current connection, under the connect lock or not.
    fn look_up<E>(&mut self, service: &AppsConnectionService<A>, locked: bool) -> (action:
        AppsForKeyAction<A, E>)
        ensures
            ({
                let outcome = looked_up::<A, E>(service@, old(self).key@, old(self).refresh, locked);
                &&& final(self).key == old(self).key
                &&& final(self).refresh == old(self).refresh
                &&& final(self).stage == outcome.stage
                &&& action == outcome.action
            }),
    {
        if service.is_newer_than(self.key.auth_revision) {
            self.stage = AppsForKeyStage::Finished;
            return AppsForKeyAction::Return(Ok(None));
        }
        match service.current_apps_for_key(&self.key) {
            Some(apps) => if self.refresh {
                self.stage = AppsForKeyStage::InspectExisting(apps.clone());
                AppsForKeyAction::Inspect(apps)
            } else {
                self.stage = AppsForKeyStage::Finished;
                AppsForKeyAction::Return(Ok(Some(apps)))
            },
            None => if locked {
                self.stage = AppsForKeyStage::Connect;
                AppsForKeyAction::Connect
            } else {
                self.stage = AppsForKeyStage::LockConnect;
                AppsForKeyAction::LockConnect
            },
        }
    }

    /// What to do now that `event` happened. An event that the search is not waiting for changes
    /// nothing.
    pub fn step<E>(
        &mut self,
        service: &mut AppsConnectionService<A>,
        event: AppsForKeyEvent<A, E>,
    ) -> (action: AppsForKeyAction<A, E>)
        ensures
            ({
                let outcome = apps_for_key_step(
                    old(self).stage,
                    old(self).key@,
                    old(self).refresh,
                    old(service)@,
                    event,
                );
                &&& final(self).key == old(self).key
                &&& final(self).refresh == old(self).refresh
                &&& final(self).stage == outcome.stage
                &&& final(service)@ == outcome.service
                &&& action == outcome.action
            }),
            old(service)@.wf() ==> final(service)@.wf(),
    {
        let mut stage = AppsForKeyStage::Finished;
        std::mem::swap(&mut stage, &mut self.stage);
        match (stage, event) {
            (AppsForKeyStage::Start, AppsForKeyEvent::Begin) => self.look_up(service, false),
            (AppsForKeyStage::LockConnect, AppsForKeyEvent::ConnectLocked) => self.look_up(
                service,
                true,
            ),
            (AppsForKeyStage::InspectExisting(apps), AppsForKeyEvent::Inspected { live, now: _ }) => {
                self.stage = AppsForKeyStage::UpdateExisting(apps.clone());
                if live {
                    AppsForKeyAction::Refresh(apps)
                } else {
                    AppsForKeyAction::EnsureLive(apps)
                }
            },
            (AppsForKeyStage::UpdateExisting(apps), AppsForKeyEvent::Updated { result, now }) => {
                match result {
                    Ok(()) => {
                        service.mark_refreshed(&self.key, &apps, now);
                        AppsForKeyAction::Return(Ok(Some(apps)))
                    },
                    Err(error) => AppsForKeyAction::Return(Err(error)),
                }
            },
            (AppsForKeyStage::Connect, AppsForKeyEvent::Connected(result)) => {
                match result {
                    Ok(apps) => if self.refresh {
                        self.stage = AppsForKeyStage::EnsureConnectedLive(apps.clone());
                        AppsForKeyAction::EnsureLive(apps)
                    } else {
                        let reserved = service.publication_is_reserved(&self.key);
                        self.stage = AppsForKeyStage::InspectConnected(apps.clone(), reserved);
                        AppsForKeyAction::Inspect(apps)
                    },
                    Err(error) => AppsForKeyAction::Return(Err(error)),
                }
            },
            (
                AppsForKeyStage::EnsureConnectedLive(apps),
                AppsForKeyEvent::Updated { result, now: _ },
            ) => {
                match result {
                    Ok(()) => {
                        let reserved = service.publication_is_reserved(&self.key);
                        self.stage = AppsForKeyStage::InspectConnected(apps.clone(), reserved);
                        AppsForKeyAction::Inspect(apps)
                    },
                    Err(error) => AppsForKeyAction::Return(Err(error)),
                }
            },
            (
                AppsForKeyStage::InspectConnected(apps, reserved),
                AppsForKeyEvent::Inspected { live, now },
            ) => {
                let refreshed_at: Option<u128> = if live {
                    Some(now)
                } else {
                    None
                };
                service.publish(self.key.clone(), apps.clone(), refreshed_at, reserved);
                AppsForKeyAction::Return(Ok(Some(apps)))
            },
            (stage, _) => {
                self.stage = stage;
                AppsForKeyAction::Unexpected
            },
        }
    }
}

} // verus!
