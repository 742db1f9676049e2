//! A request together with the searches that it makes, whose publication was reserved or not.
//!
//! An [`Attempt`] is a request, the search that it last asked for, and the service. The laws compare
//! an attempt with a reservation to one without, both told of the same events, while others use the
//! service too.

use crate::apps_for_config::{
    apps_for_config_step, AppsForConfigActionView, AppsForConfigEventView, AppsForConfigStageView,
    AppsForConfigView,
};
use crate::apps_for_key::{apps_for_key_step, AppsForKeyAction, AppsForKeyEvent, AppsForKeyStage};
use crate::concurrency::{side_effect, SideEffect};
use crate::key::ConnectionKeyView;
use crate::state::ServiceState;
use vstd::prelude::*;

verus! {

/// A request, the search that it last asked for, and the service.
pub struct Attempt<A> {
    pub request: AppsForConfigView,
    pub search: AppsForKeyStage<A>,
    pub service: ServiceState<A>,
}

/// One thing that can happen.
pub enum AttemptEvent<A, E> {
    /// The request is told of an event.
    Request(AppsForConfigEventView<A, E>),
    /// The search is told of an event.
    Search(AppsForKeyEvent<A, E>),
    /// Something is done to the service by others.
    Side(SideEffect),
}

/// What the attempt is told to do.
pub enum AttemptAction<A, E> {
    /// By its request.
    Request(AppsForConfigActionView<A, E>),
    /// By its search.
    Search(AppsForKeyAction<A, E>),
    /// Nothing: others used the service, or no search is under way.
    Nothing,
}

impl<A> Attempt<A> {
    /// An attempt that is to be started.
    pub open spec fn new(
        refresh: bool,
        reservation: Option<ConnectionKeyView>,
        service: ServiceState<A>,
    ) -> Self {
        Attempt {
            request: AppsForConfigView { refresh, reservation, stage: AppsForConfigStageView::Start },
            search: AppsForKeyStage::Finished,
            service,
        }
    }

    /// The attempt after `event`, and what it is told to do. A search begins when the request asks for
    /// one.
    pub open spec fn step<E>(self, event: AttemptEvent<A, E>) -> (Self, AttemptAction<A, E>) {
        match event {
            AttemptEvent::Request(event) => {
                let outcome = apps_for_config_step(self.request, self.service, event);
                (
                    Attempt {
                        request: outcome.request,
                        search: if outcome.action is Resolve {
                            AppsForKeyStage::Start
                        } else {
                            self.search
                        },
                        service: outcome.service,
                    },
                    AttemptAction::Request(outcome.action),
                )
            },
            AttemptEvent::Search(event) => match self.request.stage {
                AppsForConfigStageView::Resolve(key) => {
                    let outcome = apps_for_key_step(
                        self.search,
                        key,
                        self.request.refresh,
                        self.service,
                        event,
                    );
                    (
                        Attempt { search: outcome.stage, service: outcome.service, ..self },
                        AttemptAction::Search(outcome.action),
                    )
                },
                _ => (self, AttemptAction::Nothing),
            },
            AttemptEvent::Side(effect) => (
                Attempt { service: side_effect(self.service, effect), ..self },
                AttemptAction::Nothing,
            ),
        }
    }

    /// The attempt after all of `events`.
    pub open spec fn after<E>(self, events: Seq<AttemptEvent<A, E>>) -> Self
        decreases events.len(),
    {
        if events.len() == 0 {
            self
        } else {
            self.after(events.drop_last()).step(events.last()).0
        }
    }

    /// What the attempt is told to do on each of `events`.
    pub open spec fn actions<E>(self, events: Seq<AttemptEvent<A, E>>) -> Seq<AttemptAction<A, E>>
        decreases events.len(),
    {
        if events.len() == 0 {
            Seq::empty()
        } else {
            self.actions(events.drop_last()).push(
                self.after(events.drop_last()).step(events.last()).1,
            )
        }
    }

    /// Whether others, using the service of this attempt, give back or move only what they hold.
    pub open spec fn allows<E>(self, event: AttemptEvent<A, E>) -> bool {
        match event {
            AttemptEvent::Side(SideEffect::Release(key)) => self.service.reservations.contains(key),
            AttemptEvent::Side(SideEffect::Retarget(from, _)) => {
                self.service.reservations.contains(from)
            },
            _ => true,
        }
    }

    /// Whether all of `events` can happen, one after the other.
    pub open spec fn allows_all<E>(self, events: Seq<AttemptEvent<A, E>>) -> bool
        decreases events.len(),
    {
        events.len() == 0 || (self.allows_all(events.drop_last()) && self.after(
            events.drop_last(),
        ).allows(events.last()))
    }

    /// The service once the request is closed.
    pub open spec fn closed(self) -> ServiceState<A> {
        match self.request.reservation {
            Some(key) => self.service.released(key),
            None => self.service,
        }
    }
}

/// The revision after the announcements that others make in `events`.
pub open spec fn announced_by_others<A, E>(
    service: ServiceState<A>,
    events: Seq<AttemptEvent<A, E>>,
) -> u64
    decreases events.len(),
{
    if events.len() == 0 {
        service.publication_revision
    } else {
        let before = announced_by_others(service, events.drop_last());
        if events.last() == AttemptEvent::<A, E>::Side(SideEffect::Announce) {
            (ServiceState { publication_revision: before, ..service }).announced().publication_revision
        } else {
            before
        }
    }
}

/// Whether two searches are at the same point, but that one would not announce its publication.
pub open spec fn same_search<A>(reserved: AppsForKeyStage<A>, plain: AppsForKeyStage<A>) -> bool {
    match plain {
        AppsForKeyStage::InspectConnected(apps, _) => reserved
            == AppsForKeyStage::InspectConnected(apps, true),
        _ => reserved == plain,
    }
}

/// Whether two attempts are at the same point, but that one has a reservation.
pub open spec fn same_but_reserved<A>(reserved: Attempt<A>, plain: Attempt<A>) -> bool {
    &&& plain.request.reservation is None
    &&& reserved.request.reservation matches Some(key) && {
        &&& reserved.service.reservations == plain.service.reservations.insert(key)
        &&& reserved.request.stage matches AppsForConfigStageView::Resolve(resolving)
            ==> resolving == key
    }
    &&& reserved.request.stage == plain.request.stage
    &&& reserved.request.refresh == plain.request.refresh
    &&& same_search(reserved.search, plain.search)
    &&& reserved.service.current == plain.service.current
    &&& reserved.service.initializations == plain.service.initializations
    &&& reserved.service.shutdown == plain.service.shutdown
    &&& reserved.service.cache_ttl == plain.service.cache_ttl
}

/// One event keeps two such attempts at the same point, and both are told the same; the one with the
/// reservation announces nothing.
pub proof fn law_reserved_attempt_steps_as_plain<A, E>(
    reserved: Attempt<A>,
    plain: Attempt<A>,
    event: AttemptEvent<A, E>,
)
    requires
        same_but_reserved(reserved, plain),
        plain.allows(event),
    ensures
        same_but_reserved(reserved.step(event).0, plain.step(event).0),
        reserved.step(event).1 == plain.step(event).1,
        reserved.step(event).0.service.publication_revision == if event == AttemptEvent::<
            A,
            E,
        >::Side(SideEffect::Announce) {
            reserved.service.announced().publication_revision
        } else {
            reserved.service.publication_revision
        },
{
    let after = reserved.step(event).0;
    let plainly = plain.step(event).0;
    let key = after.request.reservation->0;
    assert(after.service.reservations =~= plainly.service.reservations.insert(key));
}

/// Over any run of a request and its searches, while others use the service too, a request with a
/// reservation is told the same as one without. It never advances the revision, which moves only as
/// others announce. Once it is closed, the reservations are what they are without it, and so is
/// everything but the revision.
pub proof fn law_reserved_attempt_runs_as_plain<A, E>(
    service: ServiceState<A>,
    key: ConnectionKeyView,
    refresh: bool,
    events: Seq<AttemptEvent<A, E>>,
)
    requires
        Attempt::new(refresh, None, service).allows_all(events),
    ensures
        ({
            let reserved = Attempt::new(refresh, Some(key), service.reserved(key));
            let plain = Attempt::new(refresh, None, service);
            &&& reserved.actions(events) == plain.actions(events)
            &&& same_but_reserved(reserved.after(events), plain.after(events))
            &&& reserved.after(events).service.publication_revision == announced_by_others(
                service,
                events,
            )
            &&& reserved.after(events).closed() == (ServiceState {
                publication_revision: announced_by_others(service, events),
                ..plain.after(events).service
            })
        }),
    decreases events.len(),
{
    let reserved = Attempt::new(refresh, Some(key), service.reserved(key));
    let plain = Attempt::new(refresh, None, service);
    if events.len() > 0 {
        let earlier = events.drop_last();
        law_reserved_attempt_runs_as_plain(service, key, refresh, earlier);
        law_reserved_attempt_steps_as_plain(
            reserved.after(earlier),
            plain.after(earlier),
            events.last(),
        );
    }
    assert(reserved.after(events).closed().reservations
        =~= plain.after(events).service.reservations);
}

/// Left to itself, a request without a reservation does not touch the reservations.
proof fn lemma_plain_attempt_keeps_reservations<A, E>(
    service: ServiceState<A>,
    refresh: bool,
    events: Seq<AttemptEvent<A, E>>,
)
    requires
        forall|i: int| 0 <= i < events.len() ==> !((#[trigger] events[i]) is Side),
    ensures
        Attempt::new(refresh, None, service).allows_all(events),
        Attempt::new(refresh, None, service).after(events).request.reservation is None,
        Attempt::new(refresh, None, service).after(events).service.reservations
            == service.reservations,
        announced_by_others(service, events) == service.publication_revision,
    decreases events.len(),
{
    if events.len() > 0 {
        let earlier = events.drop_last();
        assert(forall|i: int| 0 <= i < earlier.len() ==> #[trigger] earlier[i] == events[i]);
        lemma_plain_attempt_keeps_reservations(service, refresh, earlier);
        assert(events.last() == events[events.len() - 1]);
    }
}

/// Left to itself, a request with a reservation never advances the revision, and once it is closed
/// the reservations are as they were before it was made; whatever it was told, and however often the
/// login changed.
pub proof fn law_reserved_attempt_leaves_no_trace<A, E>(
    service: ServiceState<A>,
    key: ConnectionKeyView,
    refresh: bool,
    events: Seq<AttemptEvent<A, E>>,
)
    requires
        forall|i: int| 0 <= i < events.len() ==> !((#[trigger] events[i]) is Side),
    ensures
        ({
            let reserved = Attempt::new(refresh, Some(key), service.reserved(key)).after(events);
            &&& reserved.service.publication_revision == service.publication_revision
            &&& reserved.closed().publication_revision == service.publication_revision
            &&& reserved.closed().reservations == service.reservations
        }),
{
    lemma_plain_attempt_keeps_reservations(service, refresh, events);
    law_reserved_attempt_runs_as_plain(service, key, refresh, events);
}

} // verus!
