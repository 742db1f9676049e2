//! Answering requests for the connector inventory.

use crate::apps_for_config::found_view;
use crate::connected::AppsHandle;
use crate::key::{CodexAppsConnectionKey, ConnectionKeyView};
use vstd::prelude::*;

verus! {

/// What an inventory request is waiting for.
#[derive(Debug)]
pub enum SnapshotStage<A> {
    /// The runtime.
    FindApps,
    /// The runtime's stale inventory to be brought up to date.
    RefreshStale(AppsHandle<A>),
    /// Nothing: the request is over.
    Finished,
}

/// What happened outside.
#[derive(Debug)]
pub enum SnapshotEvent<A, E> {
    /// The search for the runtime is over.
    Found(Result<Option<(CodexAppsConnectionKey, AppsHandle<A>)>, E>),
    /// The refresh of a stale inventory is over.
    Refreshed(Result<(), E>),
}

/// The value of a [`SnapshotEvent`].
pub enum SnapshotEventView<A, E> {
    Found(Result<Option<(ConnectionKeyView, AppsHandle<A>)>, E>),
    Refreshed(Result<(), E>),
}

impl<A, E> View for SnapshotEvent<A, E> {
    type V = SnapshotEventView<A, E>;

    open spec fn view(&self) -> SnapshotEventView<A, E> {
        match *self {
            SnapshotEvent::Found(found) => SnapshotEventView::Found(found_view(found)),
            SnapshotEvent::Refreshed(result) => SnapshotEventView::Refreshed(result),
        }
    }
}

/// What to do next.
#[derive(Debug)]
pub enum SnapshotAction<A, E> {
    /// Find the runtime of whoever is logged in; with `refresh`, with its inventory up to date.
    FindApps { refresh: bool },
    /// Bring the runtime's inventory up to date if it is stale.
    RefreshIfStale(CodexAppsConnectionKey, AppsHandle<A>),
    /// Return the runtime's inventory. A warning says why it is only the last good one.
    ReturnSnapshot { apps: AppsHandle<A>, warning: Option<E> },
    /// Return that there is no inventory.
    ReturnNothing,
    /// Return this error.
    ReturnError(E),
    /// Nothing: the request was not waiting for that event.
    Unexpected,
}

/// The value of a [`SnapshotAction`].
pub enum SnapshotActionView<A, E> {
    FindApps { refresh: bool },
    RefreshIfStale(ConnectionKeyView, AppsHandle<A>),
    ReturnSnapshot { apps: AppsHandle<A>, warning: Option<E> },
    ReturnNothing,
    ReturnError(E),
    Unexpected,
}

impl<A, E> View for SnapshotAction<A, E> {
    type V = SnapshotActionView<A, E>;

    open spec fn view(&self) -> SnapshotActionView<A, E> {
        match *self {
            SnapshotAction::FindApps { refresh } => SnapshotActionView::FindApps { refresh },
            SnapshotAction::RefreshIfStale(key, apps) => SnapshotActionView::RefreshIfStale(
                key@,
                apps,
            ),
            SnapshotAction::ReturnSnapshot { apps, warning } => {
                SnapshotActionView::ReturnSnapshot { apps, warning }
            },
            SnapshotAction::ReturnNothing => SnapshotActionView::ReturnNothing,
            SnapshotAction::ReturnError(error) => SnapshotActionView::ReturnError(error),
            SnapshotAction::Unexpected => SnapshotActionView::Unexpected,
        }
    }
}

/// A request for the connector inventory. With `refresh_stale`, a stale inventory is brought up to
/// date before it is returned, or else the last good one is returned.
#[derive(Debug)]
pub struct SnapshotRequest<A> {
    pub refresh_stale: bool,
    pub stage: SnapshotStage<A>,
}

/// What an inventory request does when it is made: nothing is looked for unless Apps is eligible.
pub open spec fn snapshot_started<A, E>(eligible: bool, refresh: bool) -> (
    SnapshotStage<A>,
    SnapshotActionView<A, E>,
) {
    if eligible {
        (SnapshotStage::FindApps, SnapshotActionView::FindApps { refresh })
    } else {
        (SnapshotStage::Finished, SnapshotActionView::ReturnNothing)
    }
}

/// What an inventory request does in `stage` when `event` happens.
pub open spec fn snapshot_step<A, E>(
    refresh_stale: bool,
    stage: SnapshotStage<A>,
    event: SnapshotEventView<A, E>,
) -> (SnapshotStage<A>, SnapshotActionView<A, E>) {
    match (stage, event) {
        (SnapshotStage::FindApps, SnapshotEventView::Found(found)) => match found {
            Ok(Some((key, apps))) => if refresh_stale {
                (SnapshotStage::RefreshStale(apps), SnapshotActionView::RefreshIfStale(key, apps))
            } else {
                (
                    SnapshotStage::Finished,
                    SnapshotActionView::ReturnSnapshot { apps, warning: None },
                )
            },
            Ok(None) => (SnapshotStage::Finished, SnapshotActionView::ReturnNothing),
            Err(error) => (SnapshotStage::Finished, SnapshotActionView::ReturnError(error)),
        },
        (SnapshotStage::RefreshStale(apps), SnapshotEventView::Refreshed(result)) => (
            SnapshotStage::Finished,
            SnapshotActionView::ReturnSnapshot {
                apps,
                warning: match result {
                    Ok(()) => None,
                    Err(error) => Some(error),
                },
            },
        ),
        _ => (stage, SnapshotActionView::Unexpected),
    }
}

impl<A> SnapshotRequest<A> {
    /// A request with what it does first.
    pub(crate) fn start<E>(eligible: bool, refresh: bool, refresh_stale: bool) -> (started: (
        Self,
        SnapshotAction<A, E>,
    ))
        ensures
            started.0.refresh_stale == refresh_stale,
            (started.0.stage, started.1@) == snapshot_started::<A, E>(eligible, refresh),
    {
        if eligible {
            (
                SnapshotRequest { refresh_stale, stage: SnapshotStage::FindApps },
                SnapshotAction::FindApps { refresh },
            )
        } else {
            (
                SnapshotRequest { refresh_stale, stage: SnapshotStage::Finished },
                SnapshotAction::ReturnNothing,
            )
        }
    }

    /// What to do now that `event` happened. An event that the request is not waiting for changes
    /// nothing.
    pub fn step<E>(&mut self, event: SnapshotEvent<A, E>) -> (action: SnapshotAction<A, E>)
        ensures
            final(self).refresh_stale == old(self).refresh_stale,
            (final(self).stage, action@) == snapshot_step(
                old(self).refresh_stale,
                old(self).stage,
                event@,
            ),
    {
        let mut stage = SnapshotStage::Finished;
        std::mem::swap(&mut stage, &mut self.stage);
        match (stage, event) {
            (SnapshotStage::FindApps, SnapshotEvent::Found(found)) => match found {
                Ok(Some((key, apps))) => if self.refresh_stale {
                    self.stage = SnapshotStage::RefreshStale(apps.clone());
                    SnapshotAction::RefreshIfStale(key, apps)
                } else {
                    SnapshotAction::ReturnSnapshot { apps, warning: None }
                },
                Ok(None) => SnapshotAction::ReturnNothing,
                Err(error) => SnapshotAction::ReturnError(error),
            },
            (SnapshotStage::RefreshStale(apps), SnapshotEvent::Refreshed(result)) => match result {
                Ok(()) => SnapshotAction::ReturnSnapshot { apps, warning: None },
                Err(error) => SnapshotAction::ReturnSnapshot { apps, warning: Some(error) },
            },
            (stage, _) => {
                self.stage = stage;
                SnapshotAction::Unexpected
            },
        }
    }
}

} // verus!
