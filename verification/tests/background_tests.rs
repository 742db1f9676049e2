use std::sync::Arc;

use codex_mcp_extension::apps_for_config::{AppsForConfig, AppsForConfigAction, AppsForConfigEvent};
use codex_mcp_extension::apps_for_key::{AppsForKey, AppsForKeyAction, AppsForKeyEvent};
use codex_mcp_extension::connected::AppsHandle;
use codex_mcp_extension::extension::{CodexAppsMcpExtension, InitializationEnd};
use codex_mcp_extension::install::{
    install, install_executor_plugins, install_with_executor_plugins, ExtensionRegistryBuilder,
    Registration,
};
use codex_mcp_extension::join::{join_end_is_reported, log_initialization_join_result};
use codex_mcp_extension::key::{CodexAppsConnectConfig, CodexAppsConnectionKey};
use codex_mcp_extension::service::{current_auth, AppsConnectionService};
use codex_mcp_extension::shutdown::{ShutdownAction, ShutdownEvent};
use codex_mcp_extension::snapshot::{SnapshotAction, SnapshotEvent};
use codex_mcp_extension::spawn::{SpawnAction, SpawnEvent};

fn config(label: &str) -> CodexAppsConnectConfig {
    CodexAppsConnectConfig::new(format!("https://{label}.example"), None, 0, 0)
}

fn key(label: &str, auth_revision: u64) -> CodexAppsConnectionKey {
    CodexAppsConnectionKey { config: config(label), auth_revision }
}

fn runtime(identity: usize) -> AppsHandle<&'static str> {
    AppsHandle::new(identity, Arc::new("runtime"))
}

#[test]
fn keys_differ_in_every_part() {
    let plain = key("a", 1);
    assert_eq!(plain, plain.clone());
    assert_ne!(plain, key("b", 1));
    assert_ne!(plain, key("a", 2));
    let sku = |sku: Option<&str>, store: u8, keyring: u8| {
        CodexAppsConnectConfig::new("url".to_string(), sku.map(str::to_string), store, keyring)
    };
    assert_eq!(sku(Some("x"), 1, 2), sku(Some("x"), 1, 2).clone());
    assert_ne!(sku(Some("x"), 1, 2), sku(Some("y"), 1, 2));
    assert_ne!(sku(Some("x"), 1, 2), sku(None, 1, 2));
    assert_ne!(sku(None, 1, 2), sku(None, 0, 2));
    assert_ne!(sku(None, 1, 2), sku(None, 1, 0));
}

#[test]
fn only_backend_logins_are_used() {
    assert_eq!(current_auth(Some(("chatgpt", true)), 4), (Some("chatgpt"), 4));
    assert_eq!(current_auth(Some(("api key", false)), 5), (None, 5));
    assert_eq!(current_auth::<&str>(None, 6), (None, 6));
}

#[test]
fn a_shared_runtime_is_the_same_allocation() {
    let original = runtime(1);
    let copy = original.clone();
    assert_eq!(copy.identity, 1);
    assert!(Arc::ptr_eq(&original.apps, &copy.apps));
    let mut service = AppsConnectionService::new(1);
    service.publish(key("a", 1), original, None, false);
    let handed_out = service.current_apps_for_key(&key("a", 1)).expect("connected");
    assert!(Arc::ptr_eq(&handed_out.apps, &copy.apps));
    assert!(service.current_apps_for_key(&key("a", 2)).is_none());
}

#[test]
fn nobody_logged_in_clears_and_returns_nothing() {
    let mut service = AppsConnectionService::new(1);
    service.publish(key("a", 2), runtime(1), None, false);
    let mut request = AppsForConfig::new(false);
    assert!(matches!(
        request.step::<_, String>(&mut service, AppsForConfigEvent::Begin),
        AppsForConfigAction::ReadAuth
    ));
    assert!(matches!(
        request.step::<_, String>(
            &mut service,
            AppsForConfigEvent::Auth { config: None, revision: 2 }
        ),
        AppsForConfigAction::Return(Ok(None))
    ));
    assert!(service.current.is_none());
}

#[test]
fn changed_login_drops_result_and_error() {
    let mut service: AppsConnectionService<&str> = AppsConnectionService::new(1);
    let mut request = AppsForConfig::new(false);
    request.step::<_, String>(&mut service, AppsForConfigEvent::Begin);
    let auth = |revision: u64| AppsForConfigEvent::Auth { config: Some(config("a")), revision };
    assert!(matches!(
        request.step::<_, String>(&mut service, auth(1)),
        AppsForConfigAction::Resolve(found) if found == key("a", 1)
    ));
    assert!(matches!(
        request.step::<_, String>(
            &mut service,
            AppsForConfigEvent::Resolved { result: Err("late".to_string()), auth_revision: 2 }
        ),
        AppsForConfigAction::ReadAuth
    ));
    request.step::<_, String>(&mut service, auth(2));
    assert!(matches!(
        request.step::<_, String>(
            &mut service,
            AppsForConfigEvent::Resolved { result: Ok(Some(runtime(1))), auth_revision: 3 }
        ),
        AppsForConfigAction::ReadAuth
    ));
    request.step::<_, String>(&mut service, auth(3));
    assert!(matches!(
        request.step::<_, String>(
            &mut service,
            AppsForConfigEvent::Resolved { result: Ok(None), auth_revision: 3 }
        ),
        AppsForConfigAction::ReadAuth
    ));
    request.step::<_, String>(&mut service, auth(3));
    assert!(matches!(
        request.step::<_, String>(
            &mut service,
            AppsForConfigEvent::Resolved { result: Ok(Some(runtime(7))), auth_revision: 3 }
        ),
        AppsForConfigAction::Return(Ok(Some((found, apps))))
            if found == key("a", 3) && apps.identity == 7
    ));
    assert!(matches!(
        request.step::<_, String>(&mut service, AppsForConfigEvent::Begin),
        AppsForConfigAction::Unexpected
    ));
}

#[test]
fn request_returns_errors_and_ends_at_shutdown() {
    let mut service: AppsConnectionService<&str> = AppsConnectionService::new(1);
    let mut failing = AppsForConfig::new(false);
    failing.step::<_, String>(&mut service, AppsForConfigEvent::Begin);
    failing.step::<_, String>(
        &mut service,
        AppsForConfigEvent::Auth { config: Some(config("a")), revision: 1 },
    );
    assert!(matches!(
        failing.step::<_, String>(
            &mut service,
            AppsForConfigEvent::Resolved { result: Err("down".to_string()), auth_revision: 1 }
        ),
        AppsForConfigAction::Return(Err(error)) if error == "down"
    ));
    let mut stopped = AppsForConfig::new(false);
    stopped.step::<_, String>(&mut service, AppsForConfigEvent::Begin);
    stopped.step::<_, String>(
        &mut service,
        AppsForConfigEvent::Auth { config: Some(config("a")), revision: 1 },
    );
    assert!(matches!(
        stopped.step::<_, String>(&mut service, AppsForConfigEvent::ShutDown),
        AppsForConfigAction::Return(Ok(None))
    ));
}

#[test]
fn reservations_follow_the_login_and_leave_no_trace() {
    let mut service: AppsConnectionService<&str> = AppsConnectionService::new(1);
    let first = service.reserve_publication(key("a", 1));
    let second = service.reserve_publication(key("a", 1));
    first.release(&mut service);
    assert!(service.publication_is_reserved(&key("a", 1)));
    let mut request = AppsForConfig::with_reserved_publication(false, second);
    request.step::<_, String>(&mut service, AppsForConfigEvent::Begin);
    request.step::<_, String>(
        &mut service,
        AppsForConfigEvent::Auth { config: Some(config("a")), revision: 2 },
    );
    assert!(!service.publication_is_reserved(&key("a", 1)));
    assert!(service.publication_is_reserved(&key("a", 2)));
    request.close(&mut service);
    assert!(!service.publication_is_reserved(&key("a", 2)));
    request.close(&mut service);
    assert!(service.publication_reservations.is_empty());
}

#[test]
fn background_initialization_is_single_flight_and_announced() {
    let mut extension = CodexAppsMcpExtension::<&str>::new(1);
    let mut task = extension
        .initialize_in_background(key("a", 1), Some(9))
        .expect("launched");
    assert_eq!(extension.connection.publication_revision, 1);
    assert!(extension.connection.publication_is_reserved(&key("a", 1)));
    assert!(extension.connection.background_initialization_is_active());
    assert!(extension.initialize_in_background(key("a", 1), None).is_none());
    assert_eq!(extension.connection.publication_revision, 1);
    assert!(extension.initialize_in_background(key("a", 1), Some(2)).is_none());
    assert_eq!(extension.connection.publication_revision, 2);
    let other = extension
        .initialize_in_background(key("b", 1), None)
        .expect("another key is independent");
    assert_eq!(extension.connection.publication_revision, 3);

    extension.connection.publish(key("a", 1), runtime(5), Some(0), true);
    task.request.close(&mut extension.connection);
    let end = extension.finish_initialization::<String>(
        task.initialization,
        task.thread_revision,
        Ok(Some((key("a", 1), runtime(5)))),
    );
    assert!(matches!(
        end,
        InitializationEnd::ReplaceApps { thread_revision: 9, key: found, apps }
            if found == key("a", 1) && apps.identity == 5
    ));
    assert_eq!(extension.connection.publication_revision, 3);
    assert!(!extension.connection.background_initialization_is_active_for(&key("a", 1)));
    assert!(extension.connection.background_initialization_is_active_for(&key("b", 1)));

    let end = extension.finish_initialization(
        other.initialization,
        other.thread_revision,
        Err("down".to_string()),
    );
    assert!(matches!(end, InitializationEnd::Warn(error) if error == "down"));
    assert_eq!(extension.connection.publication_revision, 4);
    assert!(!extension.connection.background_initialization_is_active());
    assert!(extension.initialize_in_background(key("b", 1), None).is_some());
}

#[test]
fn initialization_that_finds_nothing_clears_its_thread() {
    let mut extension = CodexAppsMcpExtension::<&str>::new(1);
    let waited_for = extension.initialize_in_background(key("a", 1), Some(4)).expect("launched");
    let end = extension.finish_initialization::<String>(
        waited_for.initialization,
        waited_for.thread_revision,
        Ok(None),
    );
    assert!(matches!(end, InitializationEnd::ClearApps { thread_revision: 4 }));
    let unwatched = extension.initialize_in_background(key("a", 1), None).expect("launched");
    let end = extension.finish_initialization::<String>(
        unwatched.initialization,
        unwatched.thread_revision,
        Ok(Some((key("a", 1), runtime(1)))),
    );
    assert!(matches!(end, InitializationEnd::Nothing));
}

#[test]
fn background_refresh_only_for_what_is_stale_and_current() {
    let mut extension = CodexAppsMcpExtension::new(100);
    let apps = runtime(1);
    assert!(extension.refresh_in_background(&key("a", 1), &apps, 0).is_none());
    extension.connection.publish(key("a", 1), apps.clone(), Some(0), false);
    assert!(extension.refresh_in_background(&key("a", 1), &apps, 99).is_none());
    let refresh = extension
        .refresh_in_background(&key("a", 1), &apps, 100)
        .expect("stale");
    assert!(extension.refresh_in_background(&key("a", 1), &apps, 100).is_none());
    assert_eq!(extension.connection.publication_revision, 1);
    assert_eq!(
        extension.finish_refresh(refresh, Err("denied".to_string())),
        Some("denied".to_string())
    );
    assert_eq!(extension.connection.publication_revision, 2);
    let refresh = extension
        .refresh_in_background(&key("a", 1), &apps, 100)
        .expect("tried again");
    assert_eq!(extension.finish_refresh::<String>(refresh, Ok(())), None);
    assert_eq!(extension.connection.publication_revision, 2);
}

#[test]
fn nothing_is_started_after_shutdown() {
    let mut extension = CodexAppsMcpExtension::new(100);
    let apps = runtime(1);
    extension.connection.publish(key("a", 1), apps.clone(), None, false);
    extension.begin_shutdown();
    assert!(extension.current_snapshot(true).is_none());
    assert!(extension.connection.connection_key().is_none());
    assert!(extension.initialize_in_background(key("b", 1), Some(1)).is_none());
    assert!(extension.refresh_in_background(&key("a", 1), &apps, 0).is_none());
    assert_eq!(extension.connection.publication_revision, 1);
    assert!(extension.connection.current.is_some());
}

#[test]
fn connection_keys_come_from_logins() {
    let mut service = AppsConnectionService::new(1);
    service.publish(key("a", 3), runtime(1), None, false);
    let asked = service.connection_key().expect("not shut down");
    assert_eq!(asked.answer(&mut service, Some(config("b")), 3), Some(key("b", 3)));
    let asked = service.connection_key().expect("not shut down");
    assert!(service.current_snapshot_with_key(asked, Some(config("b")), 3).is_none());
    let asked = service.connection_key().expect("not shut down");
    let (found, apps) = service
        .current_snapshot_with_key(asked, Some(config("a")), 3)
        .expect("connected");
    assert_eq!((found, apps.identity), (key("a", 3), 1));
    let asked = service.connection_key().expect("not shut down");
    assert!(asked.answer(&mut service, None, 2).is_none());
    assert!(service.current.is_some());
    let asked = service.connection_key().expect("not shut down");
    assert!(service.current_snapshot_with_key(asked, None, 3).is_none());
    assert!(service.current.is_none());
    assert!(service.take_connected().is_none());
}

#[test]
fn no_connection_key_after_shutdown() {
    let mut service = AppsConnectionService::new(1);
    service.publish(key("a", 3), runtime(1), None, false);
    let asked_before = service.connection_key().expect("not shut down");
    service.begin_shutdown();
    assert!(service.connection_key().is_none());
    assert!(service.current.is_some());
    // What was asked before is answered from the login that it then reads.
    assert_eq!(asked_before.answer(&mut service, Some(config("a")), 3), Some(key("a", 3)));
    assert!(service.current.is_some());
}

#[test]
fn revision_wraps_around() {
    let mut service: AppsConnectionService<&str> = AppsConnectionService::new(1);
    service.publication_revision = u64::MAX;
    service.announce_publication();
    assert_eq!(service.publication_revision, 0);
}

#[test]
fn inventory_requests_start_as_asked() {
    let extension = CodexAppsMcpExtension::<&str>::new(1);
    assert!(!extension.analytics_enabled);
    assert!(CodexAppsMcpExtension::<&str>::new_with_analytics(1, true).analytics_enabled);
    let (_, nothing) = extension.snapshot::<String>(false);
    assert!(matches!(nothing, SnapshotAction::ReturnNothing));
    assert!(extension.current_snapshot(false).is_none());
    assert!(extension.current_snapshot(true).is_some());

    let (mut refreshing, action) = extension.refresh_snapshot::<String>(true);
    assert!(matches!(action, SnapshotAction::FindApps { refresh: true }));
    assert!(matches!(
        refreshing.step::<String>(SnapshotEvent::Found(Ok(Some((key("a", 1), runtime(2)))))),
        SnapshotAction::ReturnSnapshot { apps, warning: None } if apps.identity == 2
    ));

    let (mut cached, action) = extension.snapshot_allowing_cached::<String>(true);
    assert!(matches!(action, SnapshotAction::FindApps { refresh: false }));
    assert!(matches!(
        cached.step::<String>(SnapshotEvent::Found(Ok(None))),
        SnapshotAction::ReturnNothing
    ));

    let (mut failing, _) = extension.snapshot::<String>(true);
    assert!(matches!(
        failing.step::<String>(SnapshotEvent::Refreshed(Ok(()))),
        SnapshotAction::Unexpected
    ));
    assert!(matches!(
        failing.step::<String>(SnapshotEvent::Found(Err("down".to_string()))),
        SnapshotAction::ReturnError(error) if error == "down"
    ));

    let (mut stale, _) = extension.snapshot::<String>(true);
    assert!(matches!(
        stale.step::<String>(SnapshotEvent::Found(Ok(Some((key("a", 1), runtime(3)))))),
        SnapshotAction::RefreshIfStale(found, apps) if found == key("a", 1) && apps.identity == 3
    ));
    assert!(matches!(
        stale.step::<String>(SnapshotEvent::Refreshed(Err("denied".to_string()))),
        SnapshotAction::ReturnSnapshot { apps, warning: Some(error) }
            if apps.identity == 3 && error == "denied"
    ));
}

#[test]
fn registrations_are_made_in_order() {
    let apps = vec![
        Registration::AppsThreadDataInitializer,
        Registration::AppsMcpServerContributor,
        Registration::AppsPluginInstallVerifier,
        Registration::AppsPromptContributor,
        Registration::AppsTurnInputContributor,
        Registration::AppsToolLifecycleContributor,
        Registration::AppsTurnItemContributor,
    ];
    let mut builder = ExtensionRegistryBuilder::new();
    install(&mut builder);
    assert_eq!(builder.registrations, apps);
    let mut builder = ExtensionRegistryBuilder::new();
    install_executor_plugins(&mut builder);
    assert_eq!(
        builder.registrations,
        vec![Registration::ExecutorPluginMcpServerContributor]
    );
    let mut builder = ExtensionRegistryBuilder::new();
    install_with_executor_plugins(&mut builder);
    assert_eq!(
        builder.registrations[0],
        Registration::ExecutorPluginMcpServerContributor
    );
    assert_eq!(builder.registrations[1..], apps[..]);
}

#[test]
fn cancelled_tasks_are_not_reported() {
    let runtime = tokio::runtime::Builder::new_current_thread()
        .build()
        .expect("runtime");
    runtime.block_on(async {
        let done = tokio::spawn(async {}).await;
        assert!(log_initialization_join_result(done).is_none());

        let cancelled = tokio::spawn(std::future::pending::<()>());
        cancelled.abort();
        let result = cancelled.await;
        assert!(result.as_ref().is_err_and(|error| error.is_cancelled()));
        assert!(log_initialization_join_result(result).is_none());

        let panicked = tokio::spawn(async { panic!("background task panics") }).await;
        let warning = log_initialization_join_result(panicked).expect("a warning");
        assert!(warning.is_panic());
    });
    assert!(join_end_is_reported(Some(false)));
    assert!(!join_end_is_reported(Some(true)));
    assert!(!join_end_is_reported(None));
}

#[test]
fn request_on_a_shut_down_service_finds_nothing() {
    let mut extension = CodexAppsMcpExtension::new(100);
    extension.connection.publish(key("a", 2), runtime(1), None, false);
    let reservation = extension.connection.reserve_publication(key("a", 1));
    extension.begin_shutdown();
    let mut request = AppsForConfig::with_reserved_publication(false, reservation);
    request.step::<_, String>(&mut extension.connection, AppsForConfigEvent::Begin);
    assert!(matches!(
        request.step::<_, String>(
            &mut extension.connection,
            AppsForConfigEvent::Auth { config: Some(config("a")), revision: 2 }
        ),
        AppsForConfigAction::Return(Ok(None))
    ));
    assert!(extension.connection.current.is_some());
    assert_eq!(extension.connection.publication_revision, 1);
    assert!(extension.connection.publication_is_reserved(&key("a", 2)));
    assert!(!extension.connection.publication_is_reserved(&key("a", 1)));
    assert!(matches!(
        request.step::<_, String>(
            &mut extension.connection,
            AppsForConfigEvent::Resolved { result: Ok(Some(runtime(1))), auth_revision: 2 }
        ),
        AppsForConfigAction::Unexpected
    ));
    request.close(&mut extension.connection);
    assert!(extension.connection.publication_reservations.is_empty());
}

#[test]
fn interrupted_background_work_is_not_announced() {
    let mut extension = CodexAppsMcpExtension::new(100);
    let apps = runtime(1);
    extension.connection.publish(key("c", 1), apps.clone(), None, false);
    let waited_for = extension.initialize_in_background(key("a", 1), Some(4)).expect("launched");
    let unwatched = extension.initialize_in_background(key("b", 1), None).expect("launched");
    let refresh = extension.refresh_in_background(&key("c", 1), &apps, 0).expect("launched");
    assert_eq!(extension.connection.publication_revision, 3);
    extension.begin_shutdown();
    let end = extension
        .interrupt_initialization::<String>(waited_for.initialization, waited_for.thread_revision);
    assert!(matches!(end, InitializationEnd::ClearApps { thread_revision: 4 }));
    let end = extension
        .interrupt_initialization::<String>(unwatched.initialization, unwatched.thread_revision);
    assert!(matches!(end, InitializationEnd::Nothing));
    extension.interrupt_refresh(refresh);
    assert_eq!(extension.connection.publication_revision, 3);
    assert!(!extension.connection.background_initialization_is_active());
    assert!(extension.connection.current.is_some());
}

#[test]
fn spawning_takes_out_ended_tasks_first() {
    let runtime = tokio::runtime::Builder::new_current_thread()
        .build()
        .expect("runtime");
    runtime.block_on(async {
        let mut extension = CodexAppsMcpExtension::<&str>::new(1);
        let mut tasks = tokio::task::JoinSet::new();
        tasks.spawn(async {});
        tasks.spawn(async { panic!("background task panics") });
        tasks.spawn(std::future::pending::<()>()).abort();
        tasks.spawn(std::future::pending::<()>());
        for _ in 0..8 {
            tokio::task::yield_now().await;
        }
        for shut_down in [false, true] {
            let (mut spawn, mut action) = extension.spawn_background_task();
            let mut warnings = 0;
            let spawned = loop {
                let event = match action {
                    SpawnAction::TakeEnded { warning } => {
                        if let Some(error) = warning {
                            assert!(error.is_panic());
                            warnings += 1;
                        }
                        match tasks.try_join_next() {
                            Some(result) => SpawnEvent::TaskEnded(result),
                            None => SpawnEvent::NoneEnded,
                        }
                    }
                    SpawnAction::Spawn => break true,
                    SpawnAction::Discard => break false,
                    SpawnAction::Unexpected => panic!("unexpected event"),
                };
                action = spawn.step(&extension.connection, event);
            };
            assert!(matches!(
                spawn.step(&extension.connection, SpawnEvent::NoneEnded),
                SpawnAction::Unexpected
            ));
            if !shut_down {
                assert!(spawned);
                assert_eq!(warnings, 1);
                assert_eq!(tasks.len(), 1);
                extension.begin_shutdown();
            } else {
                assert!(!spawned);
                assert_eq!(warnings, 0);
                assert_eq!(tasks.len(), 1);
            }
        }
    });
}

#[test]
fn refreshing_waiter_inspects_the_published_runtime() {
    let mut service = AppsConnectionService::new(1);
    let mut waiter = AppsForKey::new(key("a", 1), true);
    assert!(matches!(
        waiter.step::<String>(&mut service, AppsForKeyEvent::Begin),
        AppsForKeyAction::LockConnect
    ));
    service.publish(key("a", 1), runtime(6), Some(0), false);
    assert!(matches!(
        waiter.step::<String>(&mut service, AppsForKeyEvent::ConnectLocked),
        AppsForKeyAction::Inspect(apps) if apps.identity == 6
    ));
}

#[test]
fn reserved_refreshing_connection_is_not_announced() {
    let mut service = AppsConnectionService::new(1);
    let reservation = service.reserve_publication(key("a", 1));
    let mut search = AppsForKey::new(key("a", 1), true);
    search.step::<String>(&mut service, AppsForKeyEvent::Begin);
    search.step::<String>(&mut service, AppsForKeyEvent::ConnectLocked);
    search.step::<String>(&mut service, AppsForKeyEvent::Connected(Ok(runtime(2))));
    search.step::<String>(&mut service, AppsForKeyEvent::Updated { result: Ok(()), now: 3 });
    assert!(matches!(
        search.step::<String>(&mut service, AppsForKeyEvent::Inspected { live: true, now: 4 }),
        AppsForKeyAction::Return(Ok(Some(apps))) if apps.identity == 2
    ));
    reservation.release(&mut service);
    assert_eq!(service.publication_revision, 0);
    assert!(service.publication_reservations.is_empty());
    assert_eq!(service.current.expect("published").refreshed_at, Some(4));
}

#[test]
fn failed_initialization_is_announced_again_after_the_login_changed() {
    let mut extension = CodexAppsMcpExtension::<&str>::new(1);
    let mut task = extension.initialize_in_background(key("a", 1), None).expect("launched");
    assert_eq!(extension.connection.publication_revision, 1);
    task.request.step::<_, String>(&mut extension.connection, AppsForConfigEvent::Begin);
    task.request.step::<_, String>(
        &mut extension.connection,
        AppsForConfigEvent::Auth { config: Some(config("a")), revision: 2 },
    );
    assert!(extension.connection.publication_is_reserved(&key("a", 2)));
    assert!(matches!(
        task.request.step::<_, String>(
            &mut extension.connection,
            AppsForConfigEvent::Resolved { result: Err("down".to_string()), auth_revision: 2 }
        ),
        AppsForConfigAction::Return(Err(error)) if error == "down"
    ));
    task.request.close(&mut extension.connection);
    let end = extension.finish_initialization(
        task.initialization,
        task.thread_revision,
        Err("down".to_string()),
    );
    assert!(matches!(end, InitializationEnd::Warn(error) if error == "down"));
    assert_eq!(extension.connection.publication_revision, 2);
    assert!(extension.connection.publication_reservations.is_empty());
    assert!(extension.initialize_in_background(key("a", 1), None).is_some());
}

/// Connects for a login that changes once, and closes the request; what comes back is the revision,
/// the current key and whether any reservation is left.
fn connect_for_changed_login(reserved: bool) -> (u64, Option<CodexAppsConnectionKey>, bool) {
    let mut service = AppsConnectionService::new(1);
    let mut request = if reserved {
        let reservation = service.reserve_publication(key("a", 1));
        AppsForConfig::with_reserved_publication(false, reservation)
    } else {
        AppsForConfig::new(false)
    };
    let mut event: AppsForConfigEvent<&str, String> = AppsForConfigEvent::Begin;
    for revision in [1, 2] {
        assert!(matches!(
            request.step(&mut service, event),
            AppsForConfigAction::ReadAuth
        ));
        let resolving = match request.step::<_, String>(
            &mut service,
            AppsForConfigEvent::Auth { config: Some(config("a")), revision },
        ) {
            AppsForConfigAction::Resolve(key) => key,
            _ => panic!("unexpected action"),
        };
        let mut search = AppsForKey::new(resolving, false);
        search.step::<String>(&mut service, AppsForKeyEvent::Begin);
        search.step::<String>(&mut service, AppsForKeyEvent::ConnectLocked);
        search.step::<String>(&mut service, AppsForKeyEvent::Connected(Ok(runtime(4))));
        let found = match search
            .step::<String>(&mut service, AppsForKeyEvent::Inspected { live: true, now: 0 })
        {
            AppsForKeyAction::Return(found) => found,
            _ => panic!("unexpected action"),
        };
        event = AppsForConfigEvent::Resolved { result: found, auth_revision: 2 };
    }
    assert!(matches!(
        request.step(&mut service, event),
        AppsForConfigAction::Return(Ok(Some((found, apps))))
            if found == key("a", 2) && apps.identity == 4
    ));
    request.close(&mut service);
    (
        service.publication_revision,
        service.current.map(|current| current.key),
        service.publication_reservations.is_empty(),
    )
}

#[test]
fn reserved_attempt_differs_only_in_what_it_announces() {
    assert_eq!(connect_for_changed_login(true), (0, Some(key("a", 2)), true));
    assert_eq!(connect_for_changed_login(false), (2, Some(key("a", 2)), true));
}

#[test]
fn shutdown_warns_of_tasks_that_failed() {
    let runtime = tokio::runtime::Builder::new_current_thread()
        .build()
        .expect("runtime");
    runtime.block_on(async {
        let mut extension = CodexAppsMcpExtension::<&str>::new(1);
        let (mut shutdown, _) = extension.shutdown();
        let panicked = tokio::spawn(async { panic!("background task panics") }).await;
        assert!(matches!(
            shutdown.step(&mut extension.connection, ShutdownEvent::TaskEnded(panicked)),
            ShutdownAction::JoinTask { warning: Some(error) } if error.is_panic()
        ));
        let cancelled = tokio::spawn(std::future::pending::<()>());
        cancelled.abort();
        let cancelled = cancelled.await;
        assert!(matches!(
            shutdown.step(&mut extension.connection, ShutdownEvent::TaskEnded(cancelled)),
            ShutdownAction::JoinTask { warning: None }
        ));
        assert!(matches!(
            shutdown.step(&mut extension.connection, ShutdownEvent::NoTaskLeft),
            ShutdownAction::Return
        ));
    });
}
