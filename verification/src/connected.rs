//! A connected Apps runtime and how fresh its inventory is.

use crate::key::{CodexAppsConnectionKey, ConnectionKeyView};
use std::sync::Arc;
use vstd::prelude::*;

verus! {

/// Another owner of the same allocation, by `std::sync::Arc::clone`.
///
/// Trusted: the clone points to the value that `shared` points to.
#[verifier::external_body]
fn share<A>(shared: &Arc<A>) -> (other: Arc<A>)
    ensures
        other == *shared,
{
    Arc::clone(shared)
}

/// One connected Apps runtime: the runtime, and the number by which it is told apart from every
/// other runtime that is alive at the same time.
#[derive(Debug)]
pub struct AppsHandle<A> {
    pub identity: usize,
    pub apps: Arc<A>,
}

impl<A> AppsHandle<A> {
    /// The handle of `apps` under the given identity.
    pub fn new(identity: usize, apps: Arc<A>) -> (handle: Self)
        ensures
            handle.identity == identity,
            handle.apps == apps,
    {
        AppsHandle { identity, apps }
    }
}

impl<A> Clone for AppsHandle<A> {
    fn clone(&self) -> (copy: Self)
        ensures
            copy == *self,
    {
        AppsHandle { identity: self.identity, apps: share(&self.apps) }
    }
}

/// The runtime that the process currently shares.
///
/// `refreshed_at` is when its inventory was last known to be live, in nanoseconds of a clock that
/// never runs backwards; it is `None` while the inventory comes from a cache.
#[derive(Debug)]
pub struct ConnectedCodexApps<A> {
    pub key: CodexAppsConnectionKey,
    pub apps: AppsHandle<A>,
    pub refreshed_at: Option<u128>,
}

/// The value of a [`ConnectedCodexApps`].
pub struct ConnectedView<A> {
    pub key: ConnectionKeyView,
    pub apps: AppsHandle<A>,
    pub refreshed_at: Option<u128>,
}

impl<A> View for ConnectedCodexApps<A> {
    type V = ConnectedView<A>;

    open spec fn view(&self) -> ConnectedView<A> {
        ConnectedView { key: self.key@, apps: self.apps, refreshed_at: self.refreshed_at }
    }
}

/// What has to be done before the inventory of a connection may be taken as fresh.
#[derive(Clone, Copy, Debug, PartialEq, Eq, Structural)]
pub enum AppsRefreshRequirement {
    NotNeeded,
    EnsureLive,
    Refresh,
}

} // verus!
