//! Decides how one process shares its Codex Apps connection.
//!
//! The process keeps at most one connection, under a key made of how to reach the service and which
//! login to use ([`key`]). The connection and what goes with it is an
//! [`service::AppsConnectionService`]; [`state`] says what each operation makes of it. Work that
//! waits for something outside is a state machine, which is told what happened and says what to do
//! next: finding the runtime under a key ([`apps_for_key`]) or for whoever is logged in
//! ([`apps_for_config`]), bringing a stale inventory up to date ([`refresh_if_stale`]), answering a
//! request for the inventory ([`snapshot`]), spawning a background task ([`spawn`]) and shutting down
//! ([`shutdown`]).
//! [`extension`] adds background work, [`install`] what is registered with the host, and [`join`]
//! which ends of background tasks are worth a warning.
//!
//! [`promises`], [`request_promises`], [`search_promises`] and [`background_promises`] state of each
//! operation what it does, in terms of what it is given and what comes back. [`laws`] states what
//! holds of these together; [`concurrency`] and [`tasks`] state what holds of any number of callers
//! and background tasks that share the service, [`attempts`] of a request together with the searches
//! that it makes, and [`spawn`] of the set of background tasks.

pub mod apps_for_config;
pub mod apps_for_key;
pub mod attempts;
pub mod background_promises;
pub mod concurrency;
pub mod connected;
pub mod extension;
pub mod install;
pub mod join;
pub mod key;
pub mod laws;
pub mod promises;
pub mod refresh_if_stale;
pub mod register;
pub mod request_promises;
pub mod search_promises;
pub mod service;
pub mod shutdown;
pub mod snapshot;
pub mod spawn;
pub mod state;
pub mod tasks;

pub use extension::CodexAppsMcpExtension;
pub use install::{install, install_executor_plugins, install_with_executor_plugins};
