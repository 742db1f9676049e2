//! Finding the runtime for whoever is logged in.
//!
//! The login may change while a connection is being made. What was found under a login that is no
//! longer the current one is dropped, failures too, and the search starts over.

use crate::connected::AppsHandle;
use crate::key::{CodexAppsConnectConfig, CodexAppsConnectionKey, ConnectConfigView, ConnectionKeyView};
use crate::service::{AppsConnectionService, AppsPublicationReservation};
use crate::state::ServiceState;
use vstd::prelude::*;

verus! {

/// What a request is waiting for.
#[derive(Debug)]
pub enum AppsForConfigStage {
    /// To be started.
    Start,
    /// The current login.
    ReadAuth,
    /// The runtime under this key.
    Resolve(CodexAppsConnectionKey),
    /// Nothing: the request is over.
    Finished,
}

/// The value of an [`AppsForConfigStage`].
pub enum AppsForConfigStageView {
    Start,
    ReadAuth,
    Resolve(ConnectionKeyView),
    Finished,
}

impl View for AppsForConfigStage {
    type V = AppsForConfigStageView;

    open spec fn view(&self) -> AppsForConfigStageView {
        match self {
            AppsForConfigStage::Start => AppsForConfigStageView::Start,
            AppsForConfigStage::ReadAuth => AppsForConfigStageView::ReadAuth,
            AppsForConfigStage::Resolve(key) => AppsForConfigStageView::Resolve(key@),
            AppsForConfigStage::Finished => AppsForConfigStageView::Finished,
        }
    }
}

/// What happened outside.
#[derive(Debug)]
pub enum AppsForConfigEvent<A, E> {
    /// The request was made.
    Begin,
    /// The login was read: the settings to connect with under it, `None` when nobody usable is
    /// logged in; and its revision.
    Auth { config: Option<CodexAppsConnectConfig>, revision: u64 },
    /// The service began to shut down while the runtime was being looked for.
    ShutDown,
    /// The search for the runtime is over. The revision is that of the login as it is now.
    Resolved { result: Result<Option<AppsHandle<A>>, E>, auth_revision: u64 },
}

/// The value of an [`AppsForConfigEvent`].
pub enum AppsForConfigEventView<A, E> {
    Begin,
    Auth { config: Option<ConnectConfigView>, revision: u64 },
    ShutDown,
    Resolved { result: Result<Option<AppsHandle<A>>, E>, auth_revision: u64 },
}

impl<A, E> View for AppsForConfigEvent<A, E> {
    type V = AppsForConfigEventView<A, E>;

    open spec fn view(&self) -> AppsForConfigEventView<A, E> {
        match *self {
            AppsForConfigEvent::Begin => AppsForConfigEventView::Begin,
            AppsForConfigEvent::Auth { config, revision } => AppsForConfigEventView::Auth {
                config: match config {
                    Some(config) => Some(config@),
                    None => None,
                },
                revision,
            },
            AppsForConfigEvent::ShutDown => AppsForConfigEventView::ShutDown,
            AppsForConfigEvent::Resolved { result, auth_revision } => {
                AppsForConfigEventView::Resolved { result, auth_revision }
            },
        }
    }
}

/// What to do next.
#[derive(Debug)]
pub enum AppsForConfigAction<A, E> {
    /// Read the current login.
    ReadAuth,
    /// Find the runtime under this key, unless the service shuts down first.
    Resolve(CodexAppsConnectionKey),
    /// Return this: `None` when nobody usable is logged in or the service shuts down.
    Return(Result<Option<(CodexAppsConnectionKey, AppsHandle<A>)>, E>),
    /// Nothing: the request was not waiting for that event.
    Unexpected,
}

/// The value of an [`AppsForConfigAction`].
pub enum AppsForConfigActionView<A, E> {
    ReadAuth,
    Resolve(ConnectionKeyView),
    Return(Result<Option<(ConnectionKeyView, AppsHandle<A>)>, E>),
    Unexpected,
}

/// The value of what a request returns.
pub open spec fn found_view<A, E>(
    found: Result<Option<(CodexAppsConnectionKey, AppsHandle<A>)>, E>,
) -> Result<Option<(ConnectionKeyView, AppsHandle<A>)>, E> {
    match found {
        Ok(Some((key, apps))) => Ok(Some((key@, apps))),
        Ok(None) => Ok(None),
        Err(error) => Err(error),
    }
}

impl<A, E> View for AppsForConfigAction<A, E> {
    type V = AppsForConfigActionView<A, E>;

    open spec fn view(&self) -> AppsForConfigActionView<A, E> {
        match *self {
            AppsForConfigAction::ReadAuth => AppsForConfigActionView::ReadAuth,
            AppsForConfigAction::Resolve(key) => AppsForConfigActionView::Resolve(key@),
            AppsForConfigAction::Return(found) => AppsForConfigActionView::Return(
                found_view(found),
            ),
            AppsForConfigAction::Unexpected => AppsForConfigActionView::Unexpected,
        }
    }
}

/// A request for the runtime of whoever is logged in. With a reservation, the publication of the
/// connection was announced beforehand; the reservation follows the key that is being resolved.
#[derive(Debug)]
pub struct AppsForConfig {
    pub refresh: bool,
    pub reservation: Option<AppsPublicationReservation>,
    pub stage: AppsForConfigStage,
}

/// The value of an [`AppsForConfig`].
pub struct AppsForConfigView {
    pub refresh: bool,
    pub reservation: Option<ConnectionKeyView>,
    pub stage: AppsForConfigStageView,
}

impl View for AppsForConfig {
    type V = AppsForConfigView;

    open spec fn view(&self) -> AppsForConfigView {
        AppsForConfigView {
            refresh: self.refresh,
            reservation: match self.reservation {
                Some(reservation) => Some(reservation.key@),
                None => None,
            },
            stage: self.stage@,
        }
    }
}

/// What a step leaves and asks for.
pub struct AppsForConfigOutcome<A, E> {
    pub request: AppsForConfigView,
    pub service: ServiceState<A>,
    pub action: AppsForConfigActionView<A, E>,
}

/// The request is over and returns `found`.
pub open spec fn request_returned<A, E>(
    request: AppsForConfigView,
    service: ServiceState<A>,
    found: Result<Option<(ConnectionKeyView, AppsHandle<A>)>, E>,
) -> AppsForConfigOutcome<A, E> {
    AppsForConfigOutcome {
        request: AppsForConfigView { stage: AppsForConfigStageView::Finished, ..request },
        service,
        action: AppsForConfigActionView::Return(found),
    }
}

/// The request reads the login, for the first time or again.
pub open spec fn auth_requested<A, E>(
    request: AppsForConfigView,
    service: ServiceState<A>,
) -> AppsForConfigOutcome<A, E> {
    AppsForConfigOutcome {
        request: AppsForConfigView { stage: AppsForConfigStageView::ReadAuth, ..request },
        service,
        action: AppsForConfigActionView::ReadAuth,
    }
}

/// What `request` does when `event` happens. Once the service is shut down no runtime is looked for,
/// not even one that is still connected.
pub open spec fn apps_for_config_step<A, E>(
    request: AppsForConfigView,
    service: ServiceState<A>,
    event: AppsForConfigEventView<A, E>,
) -> AppsForConfigOutcome<A, E> {
    match (request.stage, event) {
        (AppsForConfigStageView::Start, AppsForConfigEventView::Begin) => {
            auth_requested(request, service)
        },
        (AppsForConfigStageView::ReadAuth, AppsForConfigEventView::Auth { config, revision }) => {
            match config {
                None => request_returned(request, service.cleared_through(revision), Ok(None)),
                Some(config) => {
                    let key = ConnectionKeyView { config, auth_revision: revision };
                    let aimed = AppsForConfigView {
                        reservation: match request.reservation {
                            Some(_) => Some(key),
                            None => None,
                        },
                        ..request
                    };
                    let service = match request.reservation {
                        Some(from) => service.retargeted(from, key),
                        None => service,
                    };
                    if service.shutdown {
                        request_returned(aimed, service, Ok(None))
                    } else {
                        AppsForConfigOutcome {
                            request: AppsForConfigView {
                                stage: AppsForConfigStageView::Resolve(key),
                                ..aimed
                            },
                            service,
                            action: AppsForConfigActionView::Resolve(key),
                        }
                    }
                },
            }
        },
        (AppsForConfigStageView::Resolve(_), AppsForConfigEventView::ShutDown) => {
            request_returned(request, service, Ok(None))
        },
        (
            AppsForConfigStageView::Resolve(key),
            AppsForConfigEventView::Resolved { result, auth_revision },
        ) => {
            if auth_revision != key.auth_revision {
                auth_requested(request, service)
            } else {
                match result {
                    Ok(Some(apps)) => request_returned(request, service, Ok(Some((key, apps)))),
                    Ok(None) => auth_requested(request, service),
                    Err(error) => request_returned(request, service, Err(error)),
                }
            }
        },
        _ => AppsForConfigOutcome { request, service, action: AppsForConfigActionView::Unexpected },
    }
}

impl AppsForConfig {
    /// A request whose publication, if it comes to one, was not announced beforehand.
    pub fn new(refresh: bool) -> (request: Self)
        ensures
            request@ == (AppsForConfigView {
                refresh,
                reservation: None,
                stage: AppsForConfigStageView::Start,
            }),
    {
        AppsForConfig { refresh, reservation: None, stage: AppsForConfigStage::Start }
    }

    /// A request whose publication was announced beforehand.
    pub fn with_reserved_publication(
        refresh: bool,
        reservation: AppsPublicationReservation,
    ) -> (request: Self)
        ensures
            request@ == (AppsForConfigView {
                refresh,
                reservation: Some(reservation.key@),
                stage: AppsForConfigStageView::Start,
            }),
    {
        AppsForConfig {
            refresh,
            reservation: Some(reservation),
            stage: AppsForConfigStage::Start,
        }
    }

    /// What to do now that `event` happened. An event that the request is not waiting for changes
    /// nothing.
    pub fn step<A, E>(
        &mut self,
        service: &mut AppsConnectionService<A>,
        event: AppsForConfigEvent<A, E>,
    ) -> (action: AppsForConfigAction<A, E>)
        ensures
            ({
                let outcome = apps_for_config_step(old(self)@, old(service)@, event@);
                &&& final(self)@ == outcome.request
                &&& final(service)@ == outcome.service
                &&& action@ == outcome.action
            }),
            old(service)@.wf() ==> final(service)@.wf(),
    {
        let mut stage = AppsForConfigStage::Finished;
        std::mem::swap(&mut stage, &mut self.stage);
        match (stage, event) {
            (AppsForConfigStage::Start, AppsForConfigEvent::Begin) => {
                self.stage = AppsForConfigStage::ReadAuth;
                AppsForConfigAction::ReadAuth
            },
            (AppsForConfigStage::ReadAuth, AppsForConfigEvent::Auth { config, revision }) => {
                match service.key_of_login(config, revision) {
                    None => AppsForConfigAction::Return(Ok(None)),
                    Some(key) => {
                        match self.reservation.take() {
                            Some(mut reservation) => {
                                reservation.retarget(service, key.clone());
                                self.reservation = Some(reservation);
                            },
                            None => {},
                        }
                        if service.shutdown {
                            return AppsForConfigAction::Return(Ok(None));
                        }
                        self.stage = AppsForConfigStage::Resolve(key.clone());
                        AppsForConfigAction::Resolve(key)
                    },
                }
            },
            (AppsForConfigStage::Resolve(_), AppsForConfigEvent::ShutDown) => {
                AppsForConfigAction::Return(Ok(None))
            },
            (
                AppsForConfigStage::Resolve(key),
                AppsForConfigEvent::Resolved { result, auth_revision },
            ) => {
                if auth_revision != key.auth_revision {
                    self.stage = AppsForConfigStage::ReadAuth;
                    return AppsForConfigAction::ReadAuth;
                }
                match result {
                    Ok(Some(apps)) => AppsForConfigAction::Return(Ok(Some((key, apps)))),
                    Ok(None) => {
                        self.stage = AppsForConfigStage::ReadAuth;
                        AppsForConfigAction::ReadAuth
                    },
                    Err(error) => AppsForConfigAction::Return(Err(error)),
                }
            },
            (stage, _) => {
                self.stage = stage;
                AppsForConfigAction::Unexpected
            },
        }
    }

    /// Ends the request, finished or not: its reservation, if any, is given back.
    pub fn close<A>(&mut self, service: &mut AppsConnectionService<A>)
        ensures
            final(self)@ == (AppsForConfigView {
                reservation: None,
                stage: AppsForConfigStageView::Finished,
                ..old(self)@
            }),
            final(service)@ == (match old(self)@.reservation {
                Some(key) => old(service)@.released(key),
                None => old(service)@,
            }),
            old(service)@.wf() ==> final(service)@.wf(),
    {
        self.stage = AppsForConfigStage::Finished;
        match self.reservation.take() {
            Some(reservation) => reservation.release(service),
            None => {},
        }
    }
}

} // verus!
