use std::cell::Cell;
use std::rc::Rc;
use std::sync::Arc;

use codex_mcp_extension::apps_for_key::{AppsForKey, AppsForKeyAction, AppsForKeyEvent};
use codex_mcp_extension::connected::{AppsHandle, AppsRefreshRequirement};
use codex_mcp_extension::extension::CodexAppsMcpExtension;
use codex_mcp_extension::key::{CodexAppsConnectConfig, CodexAppsConnectionKey};
use codex_mcp_extension::refresh_if_stale::{RefreshAction, RefreshEvent, RefreshIfStale};
use codex_mcp_extension::service::{current_auth, AppsConnectionService};
use codex_mcp_extension::shutdown::{ShutdownAction, ShutdownEvent};
use codex_mcp_extension::snapshot::{SnapshotAction, SnapshotEvent};

const CACHE_TTL: u128 = 3_600_000_000_000;

/// What serves the calls of everyone who registered it, until it is closed.
struct TestServer {
    open: Cell<bool>,
    calls: Cell<u32>,
}

impl TestServer {
    fn call(&self) -> Result<u32, String> {
        if !self.open.get() {
            return Err("closed".to_string());
        }
        self.calls.set(self.calls.get() + 1);
        Ok(self.calls.get())
    }
}

/// A runtime that counts how often its inventory was asked for, and which inventory it holds. A new
/// one comes with every fetch that succeeds.
struct TestApps {
    server: Rc<TestServer>,
    live: Cell<bool>,
    refresh_allowed: Cell<bool>,
    access_checks: Cell<u32>,
    inventory: Cell<u32>,
}

impl TestApps {
    fn fetch(&self) -> Result<(), String> {
        self.access_checks.set(self.access_checks.get() + 1);
        if self.refresh_allowed.get() {
            self.live.set(true);
            self.inventory.set(self.inventory.get() + 1);
            Ok(())
        } else {
            Err("access denied".to_string())
        }
    }
}

fn test_apps() -> Arc<TestApps> {
    Arc::new(TestApps {
        server: Rc::new(TestServer {
            open: Cell::new(true),
            calls: Cell::new(0),
        }),
        live: Cell::new(true),
        refresh_allowed: Cell::new(true),
        access_checks: Cell::new(0),
        inventory: Cell::new(0),
    })
}

fn handle(apps: &Arc<TestApps>) -> AppsHandle<TestApps> {
    AppsHandle::new(Arc::as_ptr(apps) as usize, Arc::clone(apps))
}

fn connection_key(label: &str, auth_revision: u64) -> CodexAppsConnectionKey {
    CodexAppsConnectionKey {
        config: CodexAppsConnectConfig::new(format!("https://{label}.example"), None, 0, 0),
        auth_revision,
    }
}

/// Carries out one search from beginning to end.
fn apps_for_key(
    service: &mut AppsConnectionService<TestApps>,
    key: CodexAppsConnectionKey,
    refresh: bool,
    now: u128,
    connect: impl FnOnce() -> Result<AppsHandle<TestApps>, String>,
) -> Result<Option<AppsHandle<TestApps>>, String> {
    let mut connect = Some(connect);
    let mut search = AppsForKey::new(key, refresh);
    let mut event = AppsForKeyEvent::Begin;
    loop {
        event = match search.step(service, event) {
            AppsForKeyAction::LockConnect => AppsForKeyEvent::ConnectLocked,
            AppsForKeyAction::Connect => {
                AppsForKeyEvent::Connected((connect.take().expect("connects once"))())
            }
            AppsForKeyAction::Inspect(apps) => AppsForKeyEvent::Inspected {
                live: apps.apps.live.get(),
                now,
            },
            AppsForKeyAction::Refresh(apps) | AppsForKeyAction::EnsureLive(apps) => {
                AppsForKeyEvent::Updated {
                    result: apps.apps.fetch(),
                    now,
                }
            }
            AppsForKeyAction::Return(result) => return result,
            AppsForKeyAction::Unexpected => panic!("unexpected event"),
        };
    }
}

/// Carries out one refresh from beginning to end.
fn refresh_if_stale(
    service: &mut AppsConnectionService<TestApps>,
    key: CodexAppsConnectionKey,
    apps: AppsHandle<TestApps>,
    now: u128,
) -> Result<(), String> {
    let mut refresh = RefreshIfStale::new(key, apps);
    let mut event = RefreshEvent::Begin { now };
    loop {
        event = match refresh.step(service, event) {
            RefreshAction::LockConnect => RefreshEvent::ConnectLocked { now },
            RefreshAction::Refresh | RefreshAction::EnsureLive => RefreshEvent::Updated {
                result: refresh.apps.apps.fetch(),
                now,
            },
            RefreshAction::Return(result) => return result,
            RefreshAction::Unexpected => panic!("unexpected event"),
        };
    }
}

/// Carries out one inventory request; what comes back is the inventory, and the warning if any.
fn snapshot(
    extension: &mut CodexAppsMcpExtension<TestApps>,
    key: &CodexAppsConnectionKey,
    now: u128,
) -> Result<Option<(u32, Option<String>)>, String> {
    let (mut request, mut action) = extension.snapshot::<String>(true);
    loop {
        let event = match action {
            SnapshotAction::FindApps { refresh } => SnapshotEvent::Found(
                apps_for_key(&mut extension.connection, key.clone(), refresh, now, || {
                    Err("nothing to connect to".to_string())
                })
                .map(|apps| apps.map(|apps| (key.clone(), apps))),
            ),
            SnapshotAction::RefreshIfStale(key, apps) => SnapshotEvent::Refreshed(
                refresh_if_stale(&mut extension.connection, key, apps, now),
            ),
            SnapshotAction::ReturnSnapshot { apps, warning } => {
                return Ok(Some((apps.apps.inventory.get(), warning)));
            }
            SnapshotAction::ReturnNothing => return Ok(None),
            SnapshotAction::ReturnError(error) => return Err(error),
            SnapshotAction::Unexpected => panic!("unexpected event"),
        };
        action = request.step(event);
    }
}

/// Carries out one shutdown with that many background tasks; what comes back is the runtimes that
/// were stopped, each with how many tasks had ended by then.
fn shutdown(
    extension: &mut CodexAppsMcpExtension<TestApps>,
    tasks: u32,
) -> Vec<(AppsHandle<TestApps>, u32)> {
    let mut ended = 0;
    let mut stopped = Vec::new();
    let (mut shutdown, mut action) = extension.shutdown();
    loop {
        let event = match action {
            ShutdownAction::JoinTask { warning } => {
                assert!(warning.is_none());
                if ended < tasks {
                    ended += 1;
                    ShutdownEvent::TaskEnded(Ok(()))
                } else {
                    ShutdownEvent::NoTaskLeft
                }
            }
            ShutdownAction::StopRuntime(apps) => {
                apps.apps.server.open.set(false);
                stopped.push((apps, ended));
                ShutdownEvent::RuntimeStopped
            }
            ShutdownAction::Return => return stopped,
            ShutdownAction::Unexpected => panic!("unexpected event"),
        };
        action = shutdown.step(&mut extension.connection, event);
    }
}

fn current_key(service: &AppsConnectionService<TestApps>) -> Option<CodexAppsConnectionKey> {
    service.current.as_ref().map(|current| current.key.clone())
}

#[test]
fn shutdown_closes_the_current_apps_http_runtime() {
    let mut service = CodexAppsMcpExtension::new(CACHE_TTL);
    let apps = test_apps();
    let connected = apps_for_key(
        &mut service.connection,
        connection_key("config-a", /*auth_revision*/ 7),
        /*refresh*/ false,
        0,
        || Ok(handle(&apps)),
    )
    .expect("remember Apps runtime")
    .expect("Apps runtime is current");
    assert_eq!(connected.apps.server.call(), Ok(1));

    let stopped = shutdown(&mut service, 0);

    assert!(service.connection.current.is_none());
    assert_eq!(connected.apps.server.call(), Err("closed".to_string()));
    assert_eq!(stopped.len(), 1);
    assert!(shutdown(&mut service, 0).is_empty());
}

#[test]
fn current_connection_is_bounded_while_old_registrations_retain_their_runtime() {
    let mut service = CodexAppsMcpExtension::new(CACHE_TTL);
    let apps_a = test_apps();
    let weak_apps_a = Arc::downgrade(&apps_a);
    let connected_a = apps_for_key(
        &mut service.connection,
        connection_key("config-a", /*auth_revision*/ 7),
        /*refresh*/ false,
        0,
        || Ok(handle(&apps_a)),
    )
    .expect("remember config A")
    .expect("config A revision is current");
    // A registration keeps what serves its calls, but not the wrapper.
    let registration_a = Rc::clone(&connected_a.apps.server);
    drop(connected_a);
    drop(apps_a);
    assert!(weak_apps_a.upgrade().is_some());
    assert_eq!(registration_a.call(), Ok(1), "config A call before config B");

    let apps_b = test_apps();
    apps_for_key(
        &mut service.connection,
        connection_key("config-b", /*auth_revision*/ 7),
        /*refresh*/ false,
        0,
        || Ok(handle(&apps_b)),
    )
    .expect("remember config B")
    .expect("config B revision is current");
    assert_eq!(
        current_key(&service.connection),
        Some(connection_key("config-b", /*auth_revision*/ 7))
    );
    assert!(
        weak_apps_a.upgrade().is_none(),
        "the service must not retain every CodexApps wrapper"
    );
    assert_eq!(
        registration_a.call(),
        Ok(2),
        "the old manager's runtime owner must retain config A"
    );

    let apps_c = test_apps();
    apps_for_key(
        &mut service.connection,
        connection_key("config-c", /*auth_revision*/ 8),
        /*refresh*/ false,
        0,
        || Ok(handle(&apps_c)),
    )
    .expect("remember config C")
    .expect("new auth revision is current");
    let stale = apps_for_key(
        &mut service.connection,
        connection_key("stale", /*auth_revision*/ 7),
        /*refresh*/ false,
        0,
        || Err("a stale auth revision must not start a connection".to_string()),
    )
    .expect("reject stale revision without an internal error");
    assert!(stale.is_none());
    assert_eq!(
        current_key(&service.connection),
        Some(connection_key("config-c", /*auth_revision*/ 8))
    );

    service.connection.clear_connected_through(u64::MAX);
    assert!(service.connection.current.is_none());
}

#[test]
fn direct_snapshot_refreshes_stale_inventory_and_retries_after_last_good_fallback() {
    let mut service = CodexAppsMcpExtension::new(CACHE_TTL);
    let apps = test_apps();
    let key = connection_key("config-a", /*auth_revision*/ 7);
    apps_for_key(&mut service.connection, key.clone(), /*refresh*/ false, 10, || {
        Ok(handle(&apps))
    })
    .expect("publish Apps connection")
    .expect("Apps connection is current");

    let initial = apps.inventory.get();

    let fresh = snapshot(&mut service, &key, 10)
        .expect("read fresh snapshot")
        .expect("fresh Apps snapshot");
    assert_eq!(fresh, (initial, None));
    assert_eq!(apps.access_checks.get(), 0, "fresh snapshots must not fetch inventory");

    let stale_at: u128 = 5;
    let now = stale_at + CACHE_TTL;
    service
        .connection
        .current
        .as_mut()
        .expect("current Apps connection")
        .refreshed_at = Some(stale_at);
    let asked = service.current_snapshot(true).expect("eligible and not shut down");
    let (_, current) = service
        .connection
        .current_snapshot_with_key(asked, Some(key.config.clone()), key.auth_revision)
        .expect("current Apps snapshot");
    assert_eq!(current.identity, handle(&apps).identity);
    assert_eq!(current.apps.inventory.get(), initial);
    assert_eq!(
        apps.access_checks.get(),
        0,
        "current_snapshot must remain network-free even when stale"
    );

    // Eight requests find the inventory stale before any of them has the lock.
    let mut callers = Vec::new();
    for _ in 0..8 {
        let (mut request, action) = service.snapshot::<String>(true);
        assert!(matches!(action, SnapshotAction::FindApps { refresh: false }));
        let found = apps_for_key(&mut service.connection, key.clone(), false, now, || {
            Err("connected already".to_string())
        })
        .map(|apps| apps.map(|apps| (key.clone(), apps)));
        let mut refresh = match request.step(SnapshotEvent::Found(found)) {
            SnapshotAction::RefreshIfStale(key, apps) => RefreshIfStale::new(key, apps),
            _ => panic!("unexpected action"),
        };
        assert!(matches!(
            refresh.step::<String>(&mut service.connection, RefreshEvent::Begin { now }),
            RefreshAction::LockConnect
        ));
        callers.push((request, refresh));
    }
    let mut refreshed_inventories: Vec<u32> = Vec::new();
    for (request, refresh) in &mut callers {
        let mut event = RefreshEvent::ConnectLocked { now };
        let result = loop {
            event = match refresh.step(&mut service.connection, event) {
                RefreshAction::Refresh => RefreshEvent::Updated {
                    result: apps.fetch(),
                    now,
                },
                RefreshAction::Return(result) => break result,
                _ => panic!("unexpected action"),
            };
        };
        match request.step(SnapshotEvent::Refreshed(result)) {
            SnapshotAction::ReturnSnapshot { apps, warning: None } => {
                refreshed_inventories.push(apps.apps.inventory.get());
            }
            _ => panic!("refreshed Apps snapshot"),
        }
    }
    let refreshed = refreshed_inventories[0];
    assert!(refreshed_inventories.iter().all(|inventory| *inventory == refreshed));
    assert_ne!(refreshed, initial);
    assert_eq!(
        apps.access_checks.get(),
        1,
        "concurrent stale readers must coalesce one inventory refresh"
    );
    assert!(service
        .connection
        .current
        .as_ref()
        .expect("current Apps connection")
        .refreshed_at
        .is_some_and(|refreshed_at| refreshed_at > stale_at));

    apps.refresh_allowed.set(false);
    let failed_stale_at = now;
    let now = failed_stale_at + CACHE_TTL;
    let fallback = snapshot(&mut service, &key, now)
        .expect("stale refresh failure uses last-good snapshot")
        .expect("last-good Apps snapshot");
    assert_eq!(fallback, (refreshed, Some("access denied".to_string())));
    let checks_after_failure = apps.access_checks.get();
    assert!(checks_after_failure > 1);
    assert_eq!(
        service
            .connection
            .current
            .as_ref()
            .expect("current Apps connection")
            .refreshed_at,
        Some(failed_stale_at),
        "failed refresh must not advance freshness"
    );

    let retry_fallback = snapshot(&mut service, &key, now)
        .expect("subsequent stale refresh failure uses last-good snapshot")
        .expect("last-good Apps snapshot after retry");
    assert_eq!(retry_fallback, (refreshed, Some("access denied".to_string())));
    assert!(apps.access_checks.get() > checks_after_failure);
    assert_eq!(shutdown(&mut service, 0).len(), 1);
}

#[test]
fn concurrent_connection_misses_are_coalesced() {
    let mut service = CodexAppsMcpExtension::new(CACHE_TTL);
    let apps = test_apps();
    let connect_count = Rc::new(Cell::new(0));
    let mut callers: Vec<AppsForKey<TestApps>> = Vec::new();
    for _ in 0..8 {
        let mut caller = AppsForKey::new(connection_key("shared", /*auth_revision*/ 7), false);
        assert!(matches!(
            caller.step::<String>(&mut service.connection, AppsForKeyEvent::Begin),
            AppsForKeyAction::LockConnect
        ));
        callers.push(caller);
    }
    for caller in &mut callers {
        let mut event: AppsForKeyEvent<TestApps, String> = AppsForKeyEvent::ConnectLocked;
        let connected = loop {
            event = match caller.step(&mut service.connection, event) {
                AppsForKeyAction::Connect => {
                    connect_count.set(connect_count.get() + 1);
                    AppsForKeyEvent::Connected(Ok(handle(&apps)))
                }
                AppsForKeyAction::Inspect(apps) => AppsForKeyEvent::Inspected {
                    live: apps.apps.live.get(),
                    now: 0,
                },
                AppsForKeyAction::Return(result) => break result,
                _ => panic!("unexpected action"),
            };
        };
        assert!(connected.expect("connection result").is_some());
    }
    assert_eq!(connect_count.get(), 1);
    assert_eq!(service.connection.publication_revision, 1);
}

#[test]
fn stale_logged_out_observation_cannot_clear_a_newer_connection() {
    let mut service = CodexAppsMcpExtension::new(CACHE_TTL);
    let (auth, observed_logged_out_revision) = current_auth::<&str>(None, 3);
    assert!(auth.is_none());

    let apps = test_apps();
    let newer_key = connection_key("new-login", observed_logged_out_revision + 1);
    apps_for_key(&mut service.connection, newer_key.clone(), /*refresh*/ false, 0, || {
        Ok(handle(&apps))
    })
    .expect("publish newer connection")
    .expect("newer revision is accepted");

    service
        .connection
        .clear_connected_through(observed_logged_out_revision);
    assert_eq!(
        current_key(&service.connection),
        Some(newer_key),
        "cleanup must use the revision paired with the no-auth observation"
    );

    service
        .connection
        .clear_connected_through(observed_logged_out_revision + 1);
    assert!(service.connection.current.is_none());
}

#[test]
fn refreshing_search_fetches_a_live_inventory_again() {
    let mut service = AppsConnectionService::new(CACHE_TTL);
    let apps = test_apps();
    let key = connection_key("config-a", 1);
    apps_for_key(&mut service, key.clone(), false, 10, || Ok(handle(&apps))).expect("connect");
    let found = apps_for_key(&mut service, key, true, 20, || Err("connected already".to_string()))
        .expect("refresh")
        .expect("still current");
    assert_eq!(found.identity, handle(&apps).identity);
    assert_eq!(apps.access_checks.get(), 1);
    assert_eq!(service.current.expect("current").refreshed_at, Some(20));
}

#[test]
fn refreshing_search_makes_a_new_connection_live_before_it_is_published() {
    let mut service = AppsConnectionService::new(CACHE_TTL);
    let apps = test_apps();
    apps.live.set(false);
    let key = connection_key("config-a", 1);
    apps_for_key(&mut service, key, true, 10, || Ok(handle(&apps))).expect("connect");
    assert_eq!(apps.access_checks.get(), 1);
    assert_eq!(service.current.expect("current").refreshed_at, Some(10));
}

#[test]
fn refreshing_search_asks_for_what_the_inventory_needs() {
    let mut service = AppsConnectionService::new(CACHE_TTL);
    let apps = test_apps();
    let key = connection_key("config-a", 1);
    apps_for_key(&mut service, key.clone(), false, 10, || Ok(handle(&apps))).expect("connect");
    let mut cached = AppsForKey::new(key.clone(), true);
    cached.step::<String>(&mut service, AppsForKeyEvent::Begin);
    assert!(matches!(
        cached.step::<String>(&mut service, AppsForKeyEvent::Inspected { live: false, now: 11 }),
        AppsForKeyAction::EnsureLive(_)
    ));
    let mut live = AppsForKey::new(key, true);
    live.step::<String>(&mut service, AppsForKeyEvent::Begin);
    assert!(matches!(
        live.step::<String>(&mut service, AppsForKeyEvent::Inspected { live: true, now: 11 }),
        AppsForKeyAction::Refresh(_)
    ));
}

#[test]
fn failed_connection_and_failed_live_check_are_returned() {
    let mut service = AppsConnectionService::new(CACHE_TTL);
    let key = connection_key("config-a", 1);
    let refused = apps_for_key(&mut service, key.clone(), false, 0, || Err("refused".to_string()));
    assert_eq!(refused.err(), Some("refused".to_string()));
    let apps = test_apps();
    apps.refresh_allowed.set(false);
    let denied = apps_for_key(&mut service, key, true, 0, || Ok(handle(&apps)));
    assert_eq!(denied.err(), Some("access denied".to_string()));
    assert!(service.current.is_none());
    assert_eq!(service.publication_revision, 0);
}

#[test]
fn cached_connection_must_become_live() {
    let mut service = AppsConnectionService::new(CACHE_TTL);
    let apps = test_apps();
    apps.live.set(false);
    let key = connection_key("config-a", 1);
    apps_for_key(&mut service, key.clone(), false, 10, || Ok(handle(&apps))).expect("connect");
    assert_eq!(
        service.refresh_requirement(&key, &handle(&apps), 10),
        AppsRefreshRequirement::EnsureLive
    );
    refresh_if_stale(&mut service, key.clone(), handle(&apps), 12).expect("made live");
    assert_eq!(
        service.refresh_requirement(&key, &handle(&apps), 12 + CACHE_TTL - 1),
        AppsRefreshRequirement::NotNeeded
    );
    assert_eq!(
        service.refresh_requirement(&key, &handle(&apps), 12 + CACHE_TTL),
        AppsRefreshRequirement::Refresh
    );
    assert_eq!(
        service.refresh_requirement(&key, &handle(&apps), 0),
        AppsRefreshRequirement::NotNeeded
    );
}

#[test]
fn replaced_runtime_is_not_marked_refreshed() {
    let mut service = AppsConnectionService::new(CACHE_TTL);
    let key = connection_key("config-a", 1);
    let old = test_apps();
    let new = test_apps();
    apps_for_key(&mut service, key.clone(), false, 10, || Ok(handle(&old))).expect("connect");
    service.clear_connected_through(1);
    apps_for_key(&mut service, key.clone(), false, 20, || Ok(handle(&new))).expect("reconnect");
    service.mark_refreshed(&key, &handle(&old), 30);
    assert_eq!(service.current.as_ref().expect("current").refreshed_at, Some(20));
    assert_eq!(
        service.refresh_requirement(&key, &handle(&old), 20 + CACHE_TTL),
        AppsRefreshRequirement::NotNeeded
    );
    service.mark_refreshed(&key, &handle(&new), 30);
    assert_eq!(service.current.as_ref().expect("current").refreshed_at, Some(30));
}

#[test]
fn events_out_of_turn_change_nothing() {
    let mut service: AppsConnectionService<TestApps> = AppsConnectionService::new(CACHE_TTL);
    let mut search = AppsForKey::new(connection_key("config-a", 1), false);
    assert!(matches!(
        search.step::<String>(&mut service, AppsForKeyEvent::ConnectLocked),
        AppsForKeyAction::Unexpected
    ));
    assert!(matches!(
        search.step::<String>(&mut service, AppsForKeyEvent::Begin),
        AppsForKeyAction::LockConnect
    ));
    let mut refresh = RefreshIfStale::new(connection_key("config-a", 1), handle(&test_apps()));
    assert!(matches!(
        refresh.step::<String>(&mut service, RefreshEvent::ConnectLocked { now: 0 }),
        RefreshAction::Unexpected
    ));
    assert!(matches!(
        refresh.step::<String>(&mut service, RefreshEvent::Begin { now: 0 }),
        RefreshAction::Return(Ok(()))
    ));
}

#[test]
fn tasks_are_joined_before_the_runtime_is_stopped() {
    let mut service = CodexAppsMcpExtension::new(CACHE_TTL);
    let apps = test_apps();
    apps_for_key(&mut service.connection, connection_key("config-a", 1), false, 0, || {
        Ok(handle(&apps))
    })
    .expect("connect");
    let stopped = shutdown(&mut service, 3);
    assert_eq!(stopped.len(), 1);
    assert_eq!(stopped[0].0.identity, handle(&apps).identity);
    assert_eq!(stopped[0].1, 3);
    assert!(service.connection.shutdown);
    assert!(service.connection.current.is_none());
}

#[test]
fn shutdown_events_out_of_turn_change_nothing() {
    let mut service = CodexAppsMcpExtension::new(CACHE_TTL);
    let apps = test_apps();
    apps_for_key(&mut service.connection, connection_key("config-a", 1), false, 0, || {
        Ok(handle(&apps))
    })
    .expect("connect");
    let (mut shutdown, action) = service.shutdown();
    assert!(matches!(action, ShutdownAction::JoinTask { warning: None }));
    assert!(matches!(
        shutdown.step(&mut service.connection, ShutdownEvent::RuntimeStopped),
        ShutdownAction::Unexpected
    ));
    assert!(matches!(
        shutdown.step(&mut service.connection, ShutdownEvent::TaskEnded(Ok(()))),
        ShutdownAction::JoinTask { warning: None }
    ));
    assert!(service.connection.current.is_some());
    assert!(matches!(
        shutdown.step(&mut service.connection, ShutdownEvent::NoTaskLeft),
        ShutdownAction::StopRuntime(_)
    ));
    assert!(matches!(
        shutdown.step(&mut service.connection, ShutdownEvent::NoTaskLeft),
        ShutdownAction::Unexpected
    ));
    assert!(matches!(
        shutdown.step(&mut service.connection, ShutdownEvent::RuntimeStopped),
        ShutdownAction::Return
    ));
}

#[test]
fn superseded_search_returns_no_runtime() {
    let mut service = AppsConnectionService::new(CACHE_TTL);
    let apps = test_apps();
    let mut waiting = AppsForKey::new(connection_key("config-a", 7), false);
    assert!(matches!(
        waiting.step::<String>(&mut service, AppsForKeyEvent::Begin),
        AppsForKeyAction::LockConnect
    ));
    apps_for_key(&mut service, connection_key("config-b", 8), false, 0, || Ok(handle(&apps)))
        .expect("connect");
    assert!(matches!(
        waiting.step::<String>(&mut service, AppsForKeyEvent::ConnectLocked),
        AppsForKeyAction::Return(Ok(None))
    ));
    let mut late = AppsForKey::new(connection_key("config-a", 7), true);
    assert!(matches!(
        late.step::<String>(&mut service, AppsForKeyEvent::Begin),
        AppsForKeyAction::Return(Ok(None))
    ));
    assert!(matches!(
        late.step::<String>(&mut service, AppsForKeyEvent::Connected(Ok(handle(&apps)))),
        AppsForKeyAction::Unexpected
    ));
    assert_eq!(current_key(&service), Some(connection_key("config-b", 8)));
}
