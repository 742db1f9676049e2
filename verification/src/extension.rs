//! The extension: one shared connection, inventory requests, background work and shutdown.

use crate::apps_for_config::{
    found_view, AppsForConfig, AppsForConfigStageView, AppsForConfigView,
};
use crate::connected::{AppsHandle, AppsRefreshRequirement};
use crate::key::{CodexAppsConnectionKey, ConnectionKeyView};
use crate::service::{
    AppsBackgroundInitialization, AppsConnectionService, ConnectionKeyRequest,
};
use crate::shutdown::{Shutdown, ShutdownAction, ShutdownStage};
use crate::snapshot::{snapshot_started, SnapshotAction, SnapshotRequest};
use crate::spawn::{SpawnAction, SpawnStage, SpawnTask};
use crate::state::ServiceState;
use vstd::prelude::*;

verus! {

/// Shares one Apps inventory among everything that contributes connector-scoped MCP servers.
#[derive(Debug)]
pub struct CodexAppsMcpExtension<A> {
    pub connection: AppsConnectionService<A>,
    pub analytics_enabled: bool,
}

/// A background initialization that was launched: the request to carry out, the right to carry it
/// out, and the revision of the thread state that waits for it.
#[derive(Debug)]
pub struct InitializationTask {
    pub request: AppsForConfig,
    pub initialization: AppsBackgroundInitialization,
    pub thread_revision: Option<u64>,
}

/// What to do at the end of a background initialization.
#[derive(Debug)]
pub enum InitializationEnd<A, E> {
    /// Nothing: no thread waits for it.
    Nothing,
    /// Hand the runtime to the thread state, if that is still at this revision.
    ReplaceApps { thread_revision: u64, key: CodexAppsConnectionKey, apps: AppsHandle<A> },
    /// Clear the thread state, if it is still at this revision.
    ClearApps { thread_revision: u64 },
    /// Warn that the initialization failed.
    Warn(E),
}

/// The value of an [`InitializationEnd`].
pub enum InitializationEndView<A, E> {
    Nothing,
    ReplaceApps { thread_revision: u64, key: ConnectionKeyView, apps: AppsHandle<A> },
    ClearApps { thread_revision: u64 },
    Warn(E),
}

impl<A, E> View for InitializationEnd<A, E> {
    type V = InitializationEndView<A, E>;

    open spec fn view(&self) -> InitializationEndView<A, E> {
        match *self {
            InitializationEnd::Nothing => InitializationEndView::Nothing,
            InitializationEnd::ReplaceApps { thread_revision, key, apps } => {
                InitializationEndView::ReplaceApps { thread_revision, key: key@, apps }
            },
            InitializationEnd::ClearApps { thread_revision } => InitializationEndView::ClearApps {
                thread_revision,
            },
            InitializationEnd::Warn(error) => InitializationEndView::Warn(error),
        }
    }
}

impl<A> ServiceState<A> {
    /// Whether a background initialization under `key` is launched: one at a time, and none once
    /// the service shuts down.
    pub open spec fn launches(self, key: ConnectionKeyView) -> bool {
        !self.shutdown && !self.initializations.contains(key)
    }

    /// A background initialization under `key` was asked for, by a thread that waits for it or by
    /// nobody in particular. A launched one is announced at once, its own publication being
    /// reserved. A thread that only joins one that is running is announced too.
    pub open spec fn initialization_asked(self, key: ConnectionKeyView, waiting: bool) -> Self {
        if self.launches(key) {
            self.begun(key).reserved(key).announced()
        } else if !self.shutdown && waiting {
            self.announced()
        } else {
            self
        }
    }

    /// The background work under `key` is over; a failure is announced, so that it is tried again.
    pub open spec fn background_finished(self, key: ConnectionKeyView, failed: bool) -> Self {
        if failed {
            self.ended(key).announced()
        } else {
            self.ended(key)
        }
    }

    /// Whether a background refresh of the runtime `identity` under `key` is launched at `now`.
    pub open spec fn refreshes(self, key: ConnectionKeyView, identity: usize, now: u128) -> bool {
        self.launches(key) && self.requirement(key, identity, now)
            != AppsRefreshRequirement::NotNeeded
    }
}

/// What to do at the end of a background initialization that found `found`.
pub open spec fn initialization_end<A, E>(
    found: Result<Option<(ConnectionKeyView, AppsHandle<A>)>, E>,
    thread_revision: Option<u64>,
) -> InitializationEndView<A, E> {
    match (found, thread_revision) {
        (Err(error), _) => InitializationEndView::Warn(error),
        (_, None) => InitializationEndView::Nothing,
        (Ok(Some((key, apps))), Some(thread_revision)) => InitializationEndView::ReplaceApps {
            thread_revision,
            key,
            apps,
        },
        (Ok(None), Some(thread_revision)) => InitializationEndView::ClearApps { thread_revision },
    }
}

impl<A> CodexAppsMcpExtension<A> {
    /// An extension without a connection, which reports no analytics.
    pub fn new(cache_ttl: u128) -> (extension: Self)
        ensures
            extension.connection@ == ServiceState::<A>::initial(cache_ttl),
            extension.connection@.wf(),
            !extension.analytics_enabled,
    {
        Self::new_with_analytics(cache_ttl, false)
    }

    /// An extension without a connection, which reports analytics or not.
    pub fn new_with_analytics(cache_ttl: u128, analytics_enabled: bool) -> (extension: Self)
        ensures
            extension.connection@ == ServiceState::<A>::initial(cache_ttl),
            extension.connection@.wf(),
            extension.analytics_enabled == analytics_enabled,
    {
        CodexAppsMcpExtension { connection: AppsConnectionService::new(cache_ttl), analytics_enabled }
    }

    /// Requests the inventory, brought up to date if it is stale.
    pub fn snapshot<E>(&self, eligible: bool) -> (started: (
        SnapshotRequest<A>,
        SnapshotAction<A, E>,
    ))
        ensures
            started.0.refresh_stale,
            (started.0.stage, started.1@) == snapshot_started::<A, E>(eligible, false),
    {
        SnapshotRequest::start(eligible, false, true)
    }

    /// Requests the first inventory that is available, fresh or not.
    pub fn snapshot_allowing_cached<E>(&self, eligible: bool) -> (started: (
        SnapshotRequest<A>,
        SnapshotAction<A, E>,
    ))
        ensures
            !started.0.refresh_stale,
            (started.0.stage, started.1@) == snapshot_started::<A, E>(eligible, false),
    {
        SnapshotRequest::start(eligible, false, false)
    }

    /// Requests the inventory, fetched again.
    pub fn refresh_snapshot<E>(&self, eligible: bool) -> (started: (
        SnapshotRequest<A>,
        SnapshotAction<A, E>,
    ))
        ensures
            !started.0.refresh_stale,
            (started.0.stage, started.1@) == snapshot_started::<A, E>(eligible, true),
    {
        SnapshotRequest::start(eligible, true, false)
    }

    /// Asks for the inventory that is already connected. There is none unless Apps is eligible, nor
    /// after shutdown; otherwise the login is to be read, and
    /// [`AppsConnectionService::current_snapshot_with_key`] answers from that.
    pub fn current_snapshot(&self, eligible: bool) -> (asked: Option<ConnectionKeyRequest>)
        ensures
            asked is Some <==> eligible && !self.connection@.shutdown,
    {
        if eligible {
            self.connection.connection_key()
        } else {
            None
        }
    }

    /// Asks for a background initialization under `key`. `thread_revision` is the revision of the
    /// thread state that waits for it. `None` means that there is nothing to carry out.
    pub fn initialize_in_background(
        &mut self,
        key: CodexAppsConnectionKey,
        thread_revision: Option<u64>,
    ) -> (task: Option<InitializationTask>)
        ensures
            final(self).analytics_enabled == old(self).analytics_enabled,
            final(self).connection@ == old(self).connection@.initialization_asked(
                key@,
                thread_revision is Some,
            ),
            task is Some <==> old(self).connection@.launches(key@),
            task matches Some(task) ==> {
                &&& task.request@ == AppsForConfigView {
                    refresh: false,
                    reservation: Some(key@),
                    stage: AppsForConfigStageView::Start,
                }
                &&& task.initialization.key@ == key@
                &&& task.thread_revision == thread_revision
            },
            old(self).connection@.wf() ==> final(self).connection@.wf(),
    {
        if self.connection.shutdown {
            return None;
        }
        match self.connection.begin_background_initialization(key.clone()) {
            None => {
                // The announcement of the running initialization may have been seen before this
                // thread began to wait for it.
                if thread_revision.is_some() {
                    self.connection.announce_publication();
                }
                None
            },
            Some(initialization) => {
                let reservation = self.connection.reserve_publication(key);
                self.connection.announce_publication();
                Some(
                    InitializationTask {
                        request: AppsForConfig::with_reserved_publication(false, reservation),
                        initialization,
                        thread_revision,
                    },
                )
            },
        }
    }

    /// Ends a background initialization that found `found`, and says what to do with that. A
    /// failure is announced only once the next initialization can begin.
    pub fn finish_initialization<E>(
        &mut self,
        initialization: AppsBackgroundInitialization,
        thread_revision: Option<u64>,
        found: Result<Option<(CodexAppsConnectionKey, AppsHandle<A>)>, E>,
    ) -> (end: InitializationEnd<A, E>)
        ensures
            final(self).analytics_enabled == old(self).analytics_enabled,
            final(self).connection@ == old(self).connection@.background_finished(
                initialization.key@,
                found is Err,
            ),
            end@ == initialization_end(found_view(found), thread_revision),
            old(self).connection@.wf() ==> final(self).connection@.wf(),
    {
        initialization.release(&mut self.connection);
        match found {
            Ok(Some((key, apps))) => match thread_revision {
                Some(thread_revision) => InitializationEnd::ReplaceApps {
                    thread_revision,
                    key,
                    apps,
                },
                None => InitializationEnd::Nothing,
            },
            Ok(None) => match thread_revision {
                Some(thread_revision) => InitializationEnd::ClearApps { thread_revision },
                None => InitializationEnd::Nothing,
            },
            Err(error) => {
                self.connection.announce_publication();
                InitializationEnd::Warn(error)
            },
        }
    }

    /// Ends a background initialization that was cut short by shutdown. It found nothing, which is
    /// no failure.
    pub fn interrupt_initialization<E>(
        &mut self,
        initialization: AppsBackgroundInitialization,
        thread_revision: Option<u64>,
    ) -> (end: InitializationEnd<A, E>)
        ensures
            final(self).analytics_enabled == old(self).analytics_enabled,
            final(self).connection@ == old(self).connection@.background_finished(
                initialization.key@,
                false,
            ),
            end@ == initialization_end::<A, E>(Ok(None), thread_revision),
            old(self).connection@.wf() ==> final(self).connection@.wf(),
    {
        self.finish_initialization(initialization, thread_revision, Ok(None))
    }

    /// Asks for a background refresh of the runtime `apps` under `key`. `None` means that there is
    /// nothing to carry out.
    pub fn refresh_in_background(
        &mut self,
        key: &CodexAppsConnectionKey,
        apps: &AppsHandle<A>,
        now: u128,
    ) -> (task: Option<AppsBackgroundInitialization>)
        ensures
            final(self).analytics_enabled == old(self).analytics_enabled,
            old(self).connection@.refreshes(key@, apps.identity, now) ==> {
                &&& task matches Some(initialization) && initialization.key@ == key@
                &&& final(self).connection@ == old(self).connection@.begun(key@)
            },
            !old(self).connection@.refreshes(key@, apps.identity, now) ==> {
                &&& task is None
                &&& final(self).connection@ == old(self).connection@
            },
            old(self).connection@.wf() ==> final(self).connection@.wf(),
    {
        if self.connection.shutdown {
            return None;
        }
        match self.connection.refresh_requirement(key, apps, now) {
            AppsRefreshRequirement::NotNeeded => None,
            _ => self.connection.begin_background_initialization(key.clone()),
        }
    }

    /// Ends a background refresh. What comes back is the error to warn about.
    pub fn finish_refresh<E>(
        &mut self,
        refresh: AppsBackgroundInitialization,
        result: Result<(), E>,
    ) -> (warning: Option<E>)
        ensures
            final(self).analytics_enabled == old(self).analytics_enabled,
            final(self).connection@ == old(self).connection@.background_finished(
                refresh.key@,
                result is Err,
            ),
            warning == (match result {
                Ok(()) => None,
                Err(error) => Some(error),
            }),
            old(self).connection@.wf() ==> final(self).connection@.wf(),
    {
        refresh.release(&mut self.connection);
        match result {
            Ok(()) => None,
            Err(error) => {
                self.connection.announce_publication();
                Some(error)
            },
        }
    }

    /// Ends a background refresh that was cut short by shutdown, which is no failure.
    pub fn interrupt_refresh(&mut self, refresh: AppsBackgroundInitialization)
        ensures
            final(self).analytics_enabled == old(self).analytics_enabled,
            final(self).connection@ == old(self).connection@.background_finished(
                refresh.key@,
                false,
            ),
            old(self).connection@.wf() ==> final(self).connection@.wf(),
    {
        refresh.release(&mut self.connection);
    }

    /// Asks for a background task to be spawned. Tasks that have ended are taken out first; the rest is
    /// carried out with [`SpawnTask::step`].
    pub fn spawn_background_task(&self) -> (started: (SpawnTask, SpawnAction))
        ensures
            started.0.stage == SpawnStage::TakeEnded,
            started.1 == (SpawnAction::TakeEnded { warning: None }),
    {
        (SpawnTask { stage: SpawnStage::TakeEnded }, SpawnAction::TakeEnded { warning: None })
    }

    /// Prevents new background work.
    pub fn begin_shutdown(&mut self)
        ensures
            final(self).analytics_enabled == old(self).analytics_enabled,
            final(self).connection@ == old(self).connection@.shut_down(),
    {
        self.connection.begin_shutdown();
    }

    /// Prevents new background work and asks for what is under way to be joined. The rest of the
    /// shutdown is carried out with [`Shutdown::step`].
    pub fn shutdown(&mut self) -> (started: (Shutdown, ShutdownAction<A>))
        ensures
            final(self).analytics_enabled == old(self).analytics_enabled,
            final(self).connection@ == old(self).connection@.shut_down(),
            started.0.stage == ShutdownStage::JoinTasks,
            started.1 == (ShutdownAction::<A>::JoinTask { warning: None }),
    {
        self.begin_shutdown();
        (
            Shutdown { stage: ShutdownStage::JoinTasks },
            ShutdownAction::JoinTask { warning: None },
        )
    }
}

} // verus!
