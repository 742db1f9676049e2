//! Bringing a connection's inventory up to date once it is stale.
//!
//! Several callers may find the same inventory stale. They take turns under the connect lock, and
//! each looks again once it has the lock, so that only the first one fetches.

use crate::connected::{AppsHandle, AppsRefreshRequirement};
use crate::key::{CodexAppsConnectionKey, ConnectionKeyView};
use crate::service::AppsConnectionService;
use crate::state::ServiceState;
use vstd::prelude::*;

verus! {

/// What a refresh is waiting for.
#[derive(Clone, Copy, Debug, PartialEq, Eq, Structural)]
pub enum RefreshStage {
    /// To be started.
    Start,
    /// The connect lock.
    LockConnect,
    /// The inventory, from the service.
    Update,
    /// Nothing: the refresh is over.
    Finished,
}

/// What happened outside. `now` is the clock reading after it happened.
#[derive(Debug)]
pub enum RefreshEvent<E> {
    /// The refresh was asked for.
    Begin { now: u128 },
    /// The connect lock was acquired.
    ConnectLocked { now: u128 },
    /// The inventory was refreshed or made live, or that failed.
    Updated { result: Result<(), E>, now: u128 },
}

/// What to do next.
#[derive(Debug)]
pub enum RefreshAction<E> {
    /// Acquire the connect lock, and keep it until told to return.
    LockConnect,
    /// Fetch the inventory again.
    Refresh,
    /// Make the inventory live.
    EnsureLive,
    /// Give up the lock, and return this.
    Return(Result<(), E>),
    /// Nothing: the refresh was not waiting for that event.
    Unexpected,
}

/// The refresh of one connection.
#[derive(Debug)]
pub struct RefreshIfStale<A> {
    pub key: CodexAppsConnectionKey,
    pub apps: AppsHandle<A>,
    pub stage: RefreshStage,
}

/// What a step leaves and asks for.
pub struct RefreshOutcome<A, E> {
    pub stage: RefreshStage,
    pub service: ServiceState<A>,
    pub action: RefreshAction<E>,
}

/// What the refresh of the runtime `identity` under `key` does in `stage` when `event` happens.
pub open spec fn refresh_step<A, E>(
    stage: RefreshStage,
    key: ConnectionKeyView,
    identity: usize,
    service: ServiceState<A>,
    event: RefreshEvent<E>,
) -> RefreshOutcome<A, E> {
    match (stage, event) {
        (RefreshStage::Start, RefreshEvent::Begin { now }) => {
            if service.requirement(key, identity, now) == AppsRefreshRequirement::NotNeeded {
                RefreshOutcome {
                    stage: RefreshStage::Finished,
                    service,
                    action: RefreshAction::Return(Ok(())),
                }
            } else {
                RefreshOutcome {
                    stage: RefreshStage::LockConnect,
                    service,
                    action: RefreshAction::LockConnect,
                }
            }
        },
        (RefreshStage::LockConnect, RefreshEvent::ConnectLocked { now }) => {
            match service.requirement(key, identity, now) {
                AppsRefreshRequirement::NotNeeded => RefreshOutcome {
                    stage: RefreshStage::Finished,
                    service,
                    action: RefreshAction::Return(Ok(())),
                },
                AppsRefreshRequirement::EnsureLive => RefreshOutcome {
                    stage: RefreshStage::Update,
                    service,
                    action: RefreshAction::EnsureLive,
                },
                AppsRefreshRequirement::Refresh => RefreshOutcome {
                    stage: RefreshStage::Update,
                    service,
                    action: RefreshAction::Refresh,
                },
            }
        },
        (RefreshStage::Update, RefreshEvent::Updated { result, now }) => RefreshOutcome {
            stage: RefreshStage::Finished,
            service: if result is Ok {
                service.refreshed(key, identity, now)
            } else {
                service
            },
            action: RefreshAction::Return(result),
        },
        _ => RefreshOutcome { stage, service, action: RefreshAction::Unexpected },
    }
}

impl<A> RefreshIfStale<A> {
    /// The refresh of the runtime `apps` under `key`.
    pub fn new(key: CodexAppsConnectionKey, apps: AppsHandle<A>) -> (refresh: Self)
        ensures
            refresh.key == key,
            refresh.apps == apps,
            refresh.stage == RefreshStage::Start,
    {
        RefreshIfStale { key, apps, stage: RefreshStage::Start }
    }

    /// What to do now that `event` happened. An event that the refresh is not waiting for changes
    /// nothing.
    pub fn step<E>(&mut self, service: &mut AppsConnectionService<A>, event: RefreshEvent<E>) -> (
    action: RefreshAction<E>)
        ensures
            ({
                let outcome = refresh_step(
                    old(self).stage,
                    old(self).key@,
                    old(self).apps.identity,
                    old(service)@,
                    event,
                );
                &&& final(self).key == old(self).key
                &&& final(self).apps == old(self).apps
                &&& final(self).stage == outcome.stage
                &&& final(service)@ == outcome.service
                &&& action == outcome.action
            }),
            old(service)@.wf() ==> final(service)@.wf(),
    {
        match (self.stage, event) {
            (RefreshStage::Start, RefreshEvent::Begin { now }) => {
                match service.refresh_requirement(&self.key, &self.apps, now) {
                    AppsRefreshRequirement::NotNeeded => {
                        self.stage = RefreshStage::Finished;
                        RefreshAction::Return(Ok(()))
                    },
                    _ => {
                        self.stage = RefreshStage::LockConnect;
                        RefreshAction::LockConnect
                    },
                }
            },
            (RefreshStage::LockConnect, RefreshEvent::ConnectLocked { now }) => {
                match service.refresh_requirement(&self.key, &self.apps, now) {
                    AppsRefreshRequirement::NotNeeded => {
                        self.stage = RefreshStage::Finished;
                        RefreshAction::Return(Ok(()))
                    },
                    AppsRefreshRequirement::EnsureLive => {
                        self.stage = RefreshStage::Update;
                        RefreshAction::EnsureLive
                    },
                    AppsRefreshRequirement::Refresh => {
                        self.stage = RefreshStage::Update;
                        RefreshAction::Refresh
                    },
                }
            },
            (RefreshStage::Update, RefreshEvent::Updated { result, now }) => {
                self.stage = RefreshStage::Finished;
                if result.is_ok() {
                    service.mark_refreshed(&self.key, &self.apps, now);
                }
                RefreshAction::Return(result)
            },
            _ => RefreshAction::Unexpected,
        }
    }
}

} // verus!
