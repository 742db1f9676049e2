//! What background work, shutdown and installation do.
//!
//! As in [`crate::promises`], each law speaks of calls, and says of their arguments and results when
//! which result comes back.

use crate::connected::AppsHandle;
use crate::extension::{CodexAppsMcpExtension, InitializationEnd, InitializationTask};
use crate::install::{
    install, install_executor_plugins, install_with_executor_plugins, ExtensionRegistryBuilder,
    Registration,
};
use crate::join::{join_end_is_reported, join_error_is_cancelled, log_initialization_join_result};
use crate::key::{CodexAppsConnectionKey, ConnectionKeyView};
use crate::promises::{
    entered_once_less, entered_once_more, follows, same_but_connection, same_but_initializations,
    same_but_revision,
};
use crate::search_promises::is_due;
use crate::service::{AppsBackgroundInitialization, AppsConnectionService};
use crate::shutdown::{Shutdown, ShutdownAction, ShutdownEvent};
use crate::spawn::{SpawnAction, SpawnEvent, SpawnTask};
use tokio::task::JoinError;
use vstd::prelude::*;

verus! {

/// A new extension has no connection, has announced nothing and is not shut down; it reports analytics
/// exactly if it was asked to.
pub proof fn law_new_extension_is_empty<A>(
    cache_ttl: u128,
    analytics_enabled: bool,
    plain: CodexAppsMcpExtension<A>,
    reporting: CodexAppsMcpExtension<A>,
)
    requires
        call_ensures(CodexAppsMcpExtension::<A>::new, (cache_ttl,), plain),
        call_ensures(
            CodexAppsMcpExtension::<A>::new_with_analytics,
            (cache_ttl, analytics_enabled),
            reporting,
        ),
    ensures
        !plain.analytics_enabled,
        reporting.analytics_enabled == analytics_enabled,
        plain.connection@ == reporting.connection@,
        plain.connection.current is None,
        plain.connection.publication_revision == 0,
        plain.connection.cache_ttl == cache_ttl,
        !plain.connection.shutdown,
        forall|key: ConnectionKeyView| #[trigger]
            plain.connection@.reservations.count(key) == 0,
        forall|key: ConnectionKeyView| #[trigger]
            plain.connection@.initializations.count(key) == 0,
{
}

/// An initialization that is asked for is launched exactly if the service is not shut down and none is
/// running under that very key. A launched one carries the right to run under that key, a reservation
/// there, and the thread that waits for it, and has yet to be started.
pub proof fn law_initialization_is_launched_unless_running<A>(
    extension: &mut CodexAppsMcpExtension<A>,
    key: CodexAppsConnectionKey,
    thread_revision: Option<u64>,
    task: Option<InitializationTask>,
)
    requires
        call_ensures(
            CodexAppsMcpExtension::<A>::initialize_in_background,
            (extension, key, thread_revision),
            task,
        ),
    ensures
        task is Some <==> !old(extension).connection.shutdown && old(
            extension).connection@.initializations.count(key@) == 0,
        task is Some ==> {
            &&& task->0.initialization.key@ == key@
            &&& task->0.thread_revision == thread_revision
            &&& task->0.request.reservation is Some
            &&& task->0.request.reservation->0.key@ == key@
            &&& task->0.request.stage is Start
            &&& !task->0.request.refresh
        },
{
}

/// Whether an initialization is launched does not depend on what is connected, announced or reserved,
/// on who waits for it, or on what runs under other keys.
pub proof fn law_launch_ignores_the_connection<A>(
    one: &mut CodexAppsMcpExtension<A>,
    other: &mut CodexAppsMcpExtension<A>,
    key: CodexAppsConnectionKey,
    thread_revision: Option<u64>,
    another: Option<u64>,
    task: Option<InitializationTask>,
    alike: Option<InitializationTask>,
)
    requires
        call_ensures(
            CodexAppsMcpExtension::<A>::initialize_in_background,
            (one, key, thread_revision),
            task,
        ),
        call_ensures(
            CodexAppsMcpExtension::<A>::initialize_in_background,
            (other, key, another),
            alike,
        ),
        old(one).connection.shutdown == old(other).connection.shutdown,
        old(one).connection@.initializations.count(key@) == old(
            other).connection@.initializations.count(key@),
    ensures
        task is Some <==> alike is Some,
{
}

/// Asking for an initialization announces it exactly if it is launched, or if a thread comes to wait
/// for one that is running. A launched one is entered as running and reserved under its key. Nothing
/// else changes, and after shutdown nothing at all.
pub proof fn law_asked_initialization_is_announced<A>(
    extension: &mut CodexAppsMcpExtension<A>,
    key: CodexAppsConnectionKey,
    thread_revision: Option<u64>,
    task: Option<InitializationTask>,
)
    requires
        call_ensures(
            CodexAppsMcpExtension::<A>::initialize_in_background,
            (extension, key, thread_revision),
            task,
        ),
    ensures
        ({
            let before = old(extension).connection@;
            let after = final(extension).connection@;
            let announced = task is Some || !before.shutdown && thread_revision is Some;
            &&& announced ==> follows(before.publication_revision, after.publication_revision)
            &&& !announced ==> after == before
            &&& task is Some ==> {
                &&& entered_once_more(before.initializations, after.initializations, key@)
                &&& entered_once_more(before.reservations, after.reservations, key@)
            }
            &&& task is None ==> same_but_revision(after, before)
            &&& after.current == before.current
            &&& after.shutdown == before.shutdown
            &&& after.cache_ttl == before.cache_ttl
        }),
        final(extension).analytics_enabled == old(extension).analytics_enabled,
{
}

/// The end of an initialization takes it out under its key, and is announced exactly if it failed;
/// nothing else changes.
pub proof fn law_failed_initialization_is_announced<A, E>(
    extension: &mut CodexAppsMcpExtension<A>,
    initialization: AppsBackgroundInitialization,
    thread_revision: Option<u64>,
    found: Result<Option<(CodexAppsConnectionKey, AppsHandle<A>)>, E>,
    end: InitializationEnd<A, E>,
)
    requires
        call_ensures(
            CodexAppsMcpExtension::<A>::finish_initialization::<E>,
            (extension, initialization, thread_revision, found),
            end,
        ),
    ensures
        ({
            let before = old(extension).connection@;
            let after = final(extension).connection@;
            &&& entered_once_less(
                before.initializations,
                after.initializations,
                initialization.key@,
            )
            &&& found is Err ==> follows(before.publication_revision, after.publication_revision)
            &&& found is Ok ==> after.publication_revision == before.publication_revision
            &&& after.current == before.current
            &&& after.reservations == before.reservations
            &&& after.shutdown == before.shutdown
            &&& after.cache_ttl == before.cache_ttl
        }),
        final(extension).analytics_enabled == old(extension).analytics_enabled,
{
}

/// An initialization that failed is warned about, with that very error. One that did not is handed to
/// the thread that waits for it, if one does: the runtime that was found with its key, or that there
/// is none.
pub proof fn law_initialization_is_handed_to_its_thread<A, E>(
    extension: &mut CodexAppsMcpExtension<A>,
    initialization: AppsBackgroundInitialization,
    thread_revision: Option<u64>,
    found: Result<Option<(CodexAppsConnectionKey, AppsHandle<A>)>, E>,
    end: InitializationEnd<A, E>,
)
    requires
        call_ensures(
            CodexAppsMcpExtension::<A>::finish_initialization::<E>,
            (extension, initialization, thread_revision, found),
            end,
        ),
    ensures
        end is Warn <==> found is Err,
        end is Warn ==> end->Warn_0 == found->Err_0,
        end is Nothing <==> found is Ok && thread_revision is None,
        end is ReplaceApps <==> found is Ok && found->Ok_0 is Some && thread_revision is Some,
        end is ReplaceApps ==> {
            &&& end->ReplaceApps_thread_revision == thread_revision->0
            &&& found matches Ok(Some((key, apps))) && end->key@ == key@ && end->apps == apps
        },
        end is ClearApps <==> found is Ok && found->Ok_0 is None && thread_revision is Some,
        end is ClearApps ==> end->ClearApps_thread_revision == thread_revision->0,
{
}

/// An initialization that is cut short is taken out under its key and not announced. The thread that
/// waits for it, if one does, hears that there is no runtime; nothing is warned about.
pub proof fn law_interrupted_initialization_has_not_failed<A, E>(
    extension: &mut CodexAppsMcpExtension<A>,
    initialization: AppsBackgroundInitialization,
    thread_revision: Option<u64>,
    end: InitializationEnd<A, E>,
)
    requires
        call_ensures(
            CodexAppsMcpExtension::<A>::interrupt_initialization::<E>,
            (extension, initialization, thread_revision),
            end,
        ),
    ensures
        entered_once_less(
            old(extension).connection@.initializations,
            final(extension).connection@.initializations,
            initialization.key@,
        ),
        same_but_initializations(final(extension).connection@, old(extension).connection@),
        thread_revision is None ==> end is Nothing,
        thread_revision is Some ==> end is ClearApps && end->ClearApps_thread_revision
            == thread_revision->0,
        final(extension).analytics_enabled == old(extension).analytics_enabled,
{
}

/// A background refresh is launched exactly if the service is not shut down, nothing is running under
/// that key, and the refresh is due. A launched one is entered as running; it is not announced, and
/// nothing else changes.
pub proof fn law_due_refresh_is_launched<A>(
    extension: &mut CodexAppsMcpExtension<A>,
    key: &CodexAppsConnectionKey,
    apps: &AppsHandle<A>,
    now: u128,
    task: Option<AppsBackgroundInitialization>,
)
    requires
        call_ensures(
            CodexAppsMcpExtension::<A>::refresh_in_background,
            (extension, key, apps, now),
            task,
        ),
    ensures
        task is Some <==> {
            &&& !old(extension).connection.shutdown
            &&& old(extension).connection@.initializations.count(key@) == 0
            &&& is_due(old(extension).connection, key@, apps.identity, now)
        },
        task is Some ==> task->0.key@ == key@ && entered_once_more(
            old(extension).connection@.initializations,
            final(extension).connection@.initializations,
            key@,
        ),
        task is None ==> final(extension).connection@ == old(extension).connection@,
        same_but_initializations(final(extension).connection@, old(extension).connection@),
        final(extension).analytics_enabled == old(extension).analytics_enabled,
{
}

/// The end of a background refresh takes it out under its key. It is announced, and warned about with
/// that very error, exactly if it failed; nothing else changes.
pub proof fn law_failed_refresh_is_announced<A, E>(
    extension: &mut CodexAppsMcpExtension<A>,
    refresh: AppsBackgroundInitialization,
    result: Result<(), E>,
    warning: Option<E>,
)
    requires
        call_ensures(
            CodexAppsMcpExtension::<A>::finish_refresh::<E>,
            (extension, refresh, result),
            warning,
        ),
    ensures
        ({
            let before = old(extension).connection@;
            let after = final(extension).connection@;
            &&& entered_once_less(before.initializations, after.initializations, refresh.key@)
            &&& result is Err ==> follows(before.publication_revision, after.publication_revision)
            &&& result is Ok ==> after.publication_revision == before.publication_revision
            &&& after.current == before.current
            &&& after.reservations == before.reservations
            &&& after.shutdown == before.shutdown
            &&& after.cache_ttl == before.cache_ttl
        }),
        warning is Some <==> result is Err,
        warning is Some ==> warning->0 == result->Err_0,
        final(extension).analytics_enabled == old(extension).analytics_enabled,
{
}

/// A background refresh that is cut short is taken out under its key, and nothing else changes.
pub proof fn law_interrupted_refresh_has_not_failed<A>(
    extension: &mut CodexAppsMcpExtension<A>,
    refresh: AppsBackgroundInitialization,
)
    requires
        call_ensures(CodexAppsMcpExtension::<A>::interrupt_refresh, (extension, refresh), ()),
    ensures
        entered_once_less(
            old(extension).connection@.initializations,
            final(extension).connection@.initializations,
            refresh.key@,
        ),
        same_but_initializations(final(extension).connection@, old(extension).connection@),
        final(extension).analytics_enabled == old(extension).analytics_enabled,
{
}

/// The end of a background task is warned about exactly if it failed without having been cancelled, and
/// with that very error.
pub proof fn law_only_failures_are_warned_about(
    result: Result<(), JoinError>,
    warning: Option<JoinError>,
    cancelled: Option<bool>,
    reported: bool,
)
    requires
        call_ensures(log_initialization_join_result, (result,), warning),
        call_ensures(join_end_is_reported, (cancelled,), reported),
    ensures
        warning is Some <==> result is Err && !join_error_is_cancelled(result->Err_0),
        warning is Some ==> warning->0 == result->Err_0,
        reported <==> cancelled is Some && !cancelled->0,
{
}

/// A spawn begins by taking out a task that has ended, with nothing to warn about yet.
pub proof fn law_spawn_begins_with_ended_tasks<A>(
    extension: &CodexAppsMcpExtension<A>,
    started: (SpawnTask, SpawnAction),
)
    requires
        call_ensures(CodexAppsMcpExtension::<A>::spawn_background_task, (extension,), started),
    ensures
        started.0.stage is TakeEnded,
        started.1 is TakeEnded,
        started.1->warning is None,
{
}

/// A spawn goes on taking out ended tasks, and warns exactly of those that failed. Once none is left,
/// the new task is started exactly if the service is not shut down, and dropped otherwise.
pub proof fn law_task_is_spawned_unless_shut_down<A>(
    spawn: &mut SpawnTask,
    service: &AppsConnectionService<A>,
    event: SpawnEvent,
    action: SpawnAction,
)
    requires
        call_ensures(SpawnTask::step::<A>, (spawn, service, event), action),
    ensures
        action is Spawn <==> old(spawn).stage is TakeEnded && event is NoneEnded
            && !service.shutdown,
        action is Discard <==> old(spawn).stage is TakeEnded && event is NoneEnded
            && service.shutdown,
        action is TakeEnded <==> old(spawn).stage is TakeEnded && event is TaskEnded,
        action is TakeEnded ==> {
            let end = event->TaskEnded_0;
            &&& action->warning is Some <==> end is Err && !join_error_is_cancelled(end->Err_0)
            &&& action->warning is Some ==> action->warning->0 == end->Err_0
        },
        final(spawn).stage is Finished <==> old(spawn).stage is Finished || event is NoneEnded,
{
}

/// A shutdown begins by joining a task. From then on the service is shut down; the connection, what was
/// announced, and what is reserved or running are as before.
pub proof fn law_shutdown_begins_with_joining<A>(
    extension: &mut CodexAppsMcpExtension<A>,
    started: (Shutdown, ShutdownAction<A>),
)
    requires
        call_ensures(CodexAppsMcpExtension::<A>::shutdown, (extension,), started),
    ensures
        started.0.stage is JoinTasks,
        started.1 is JoinTask,
        started.1->warning is None,
        final(extension).connection.shutdown,
        final(extension).connection@.current == old(extension).connection@.current,
        final(extension).connection@.publication_revision == old(
            extension).connection@.publication_revision,
        final(extension).connection@.reservations == old(extension).connection@.reservations,
        final(extension).connection@.initializations == old(extension).connection@.initializations,
        final(extension).connection@.cache_ttl == old(extension).connection@.cache_ttl,
        final(extension).analytics_enabled == old(extension).analytics_enabled,
{
}

/// Beginning a shutdown does to the service exactly what a shutdown does first.
pub proof fn law_begun_shutdown_is_the_first_step<A>(
    one: &mut CodexAppsMcpExtension<A>,
    other: &mut CodexAppsMcpExtension<A>,
    started: (Shutdown, ShutdownAction<A>),
)
    requires
        call_ensures(CodexAppsMcpExtension::<A>::begin_shutdown, (one,), ()),
        call_ensures(CodexAppsMcpExtension::<A>::shutdown, (other,), started),
        old(one).connection@ == old(other).connection@,
    ensures
        final(one).connection@ == final(other).connection@,
        final(one).connection.shutdown,
        final(one).connection@.current == old(one).connection@.current,
        final(one).analytics_enabled == old(one).analytics_enabled,
{
}

/// A shutdown goes on joining, and warns exactly of tasks that failed, until no task is left. Then it
/// stops the runtime that is connected, if there is one, and returns once that has stopped; if there
/// is none it returns at once.
pub proof fn law_shutdown_joins_then_stops<A>(
    shutdown: &mut Shutdown,
    service: &mut AppsConnectionService<A>,
    event: ShutdownEvent,
    action: ShutdownAction<A>,
)
    requires
        call_ensures(Shutdown::step::<A>, (shutdown, service, event), action),
    ensures
        action is JoinTask <==> old(shutdown).stage is JoinTasks && event is TaskEnded,
        action is JoinTask ==> {
            let end = event->TaskEnded_0;
            &&& action->warning is Some <==> end is Err && !join_error_is_cancelled(end->Err_0)
            &&& action->warning is Some ==> action->warning->0 == end->Err_0
        },
        action is StopRuntime <==> old(shutdown).stage is JoinTasks && event is NoTaskLeft && old(
            service)@.current is Some,
        action is StopRuntime ==> action->StopRuntime_0 == old(service)@.current->0.apps,
        action is Return <==> {
            ||| old(shutdown).stage is JoinTasks && event is NoTaskLeft && old(
                service)@.current is None
            ||| old(shutdown).stage is StopRuntime && event is RuntimeStopped
        },
        action is JoinTask ==> final(shutdown).stage is JoinTasks,
        action is StopRuntime ==> final(shutdown).stage is StopRuntime,
        action is Return ==> final(shutdown).stage is Finished,
        action is Unexpected ==> final(shutdown).stage == old(shutdown).stage,
{
}

/// A shutdown gives the connection up exactly when no task is left to join, and changes nothing else.
pub proof fn law_shutdown_gives_the_connection_up<A>(
    shutdown: &mut Shutdown,
    service: &mut AppsConnectionService<A>,
    event: ShutdownEvent,
    action: ShutdownAction<A>,
)
    requires
        call_ensures(Shutdown::step::<A>, (shutdown, service, event), action),
    ensures
        same_but_connection(final(service)@, old(service)@),
        old(shutdown).stage is JoinTasks && event is NoTaskLeft ==> final(service)@.current is None,
        !(old(shutdown).stage is JoinTasks && event is NoTaskLeft) ==> final(service)@.current
            == old(service)@.current,
{
}

/// The place of a registration among those of the Apps service; executor plugin discovery is none.
pub open spec fn apps_place(registration: Registration) -> int {
    match registration {
        Registration::AppsThreadDataInitializer => 0,
        Registration::AppsMcpServerContributor => 1,
        Registration::AppsPluginInstallVerifier => 2,
        Registration::AppsPromptContributor => 3,
        Registration::AppsTurnInputContributor => 4,
        Registration::AppsToolLifecycleContributor => 5,
        Registration::AppsTurnItemContributor => 6,
        Registration::ExecutorPluginMcpServerContributor => 7,
    }
}

/// Installing adds each registration of the Apps service once, at its place, behind what was
/// registered before, and nothing else.
pub proof fn law_apps_are_registered_once_each(builder: &mut ExtensionRegistryBuilder)
    requires
        call_ensures(install, (builder,), ()),
    ensures
        ({
            let before = old(builder).registrations@;
            let after = final(builder).registrations@;
            &&& after.len() == before.len() + 7
            &&& forall|i: int| 0 <= i < before.len() ==> #[trigger] after[i] == before[i]
            &&& forall|i: int|
                before.len() <= i < after.len() ==> apps_place(#[trigger] after[i]) == i
                    - before.len()
        }),
{
}

/// Installing with executor plugins is installing those first, and then the Apps service.
pub proof fn law_executor_plugins_are_installed_first(
    plugins: &mut ExtensionRegistryBuilder,
    apps: &mut ExtensionRegistryBuilder,
    both: &mut ExtensionRegistryBuilder,
)
    requires
        call_ensures(install_executor_plugins, (plugins,), ()),
        call_ensures(install, (apps,), ()),
        call_ensures(install_with_executor_plugins, (both,), ()),
        old(both).registrations@ == old(plugins).registrations@,
        old(apps).registrations@ == final(plugins).registrations@,
    ensures
        final(both).registrations@ == final(apps).registrations@,
        final(plugins).registrations@ == old(plugins).registrations@.push(
            Registration::ExecutorPluginMcpServerContributor,
        ),
{
    assert(final(both).registrations@ =~= final(apps).registrations@);
}

/// A new registry has no registration.
pub proof fn law_new_registry_is_empty(builder: ExtensionRegistryBuilder)
    requires
        call_ensures(ExtensionRegistryBuilder::new, (), builder),
    ensures
        builder.registrations@.len() == 0,
{
}

} // verus!
