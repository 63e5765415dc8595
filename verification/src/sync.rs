//! The view synchronizer: it owns the version counters and the current page,
//! asks for the page again whenever one of them changes, and keeps only the
//! answer to the request it made last.

use vstd::prelude::*;
use crate::mutation::{Mutation, MutationKind, MutationView, ValidationError};
use crate::notification::{
    NotificationKind,
    NotificationState,
    NotificationType,
    NotificationView,
    DISMISS_DELAY_MS,
};
use crate::pagination::{navigate, target_page, Navigation, PaginationControls};
use crate::record::{page_count, total_pages, PageView, PaginatedTodos};

verus! {

/// One counter for each kind of mutation.
#[derive(Clone, Copy, Debug, PartialEq, Eq, Structural)]
pub struct MutationVersions {
    pub add: u64,
    pub complete: u64,
    pub update: u64,
    pub delete: u64,
}

/// One natural number for each kind of mutation.
pub struct Counters {
    pub add: nat,
    pub complete: nat,
    pub update: nat,
    pub delete: nat,
}

impl Counters {
    pub open spec fn zero() -> Counters {
        Counters { add: 0, complete: 0, update: 0, delete: 0 }
    }

    pub open spec fn get(self, kind: MutationKind) -> nat {
        match kind {
            MutationKind::Add => self.add,
            MutationKind::Complete => self.complete,
            MutationKind::Update => self.update,
            MutationKind::Delete => self.delete,
        }
    }

    pub open spec fn set(self, kind: MutationKind, value: nat) -> Counters {
        match kind {
            MutationKind::Add => Counters { add: value, ..self },
            MutationKind::Complete => Counters { complete: value, ..self },
            MutationKind::Update => Counters { update: value, ..self },
            MutationKind::Delete => Counters { delete: value, ..self },
        }
    }

    /// The counter of `kind` raised by one.
    pub open spec fn raised(self, kind: MutationKind) -> Counters {
        self.set(kind, self.get(kind) + 1)
    }

    /// The counter of `kind` lowered by one, unless it is 0.
    pub open spec fn lowered(self, kind: MutationKind) -> Counters {
        if self.get(kind) > 0 {
            self.set(kind, (self.get(kind) - 1) as nat)
        } else {
            self
        }
    }
}

impl View for MutationVersions {
    type V = Counters;

    open spec fn view(&self) -> Counters {
        Counters {
            add: self.add as nat,
            complete: self.complete as nat,
            update: self.update as nat,
            delete: self.delete as nat,
        }
    }
}

impl MutationVersions {
    /// All counters at 0.
    pub fn new() -> (versions: MutationVersions)
        ensures
            versions@ == Counters::zero(),
    {
        MutationVersions { add: 0, complete: 0, update: 0, delete: 0 }
    }

    /// The counter of `kind`.
    pub fn get(&self, kind: MutationKind) -> (value: u64)
        ensures
            value == self@.get(kind),
    {
        match kind {
            MutationKind::Add => self.add,
            MutationKind::Complete => self.complete,
            MutationKind::Update => self.update,
            MutationKind::Delete => self.delete,
        }
    }

    fn put(&mut self, kind: MutationKind, value: u64)
        ensures
            final(self)@ == old(self)@.set(kind, value as nat),
    {
        match kind {
            MutationKind::Add => {
                self.add = value;
            },
            MutationKind::Complete => {
                self.complete = value;
            },
            MutationKind::Update => {
                self.update = value;
            },
            MutationKind::Delete => {
                self.delete = value;
            },
        }
    }

    /// Raises the counter of `kind` by one.
    pub fn raise(&mut self, kind: MutationKind)
        requires
            old(self)@.get(kind) < u64::MAX,
        ensures
            final(self)@ == old(self)@.raised(kind),
    {
        let value: u64 = self.get(kind);
        self.put(kind, value + 1);
    }

    /// Lowers the counter of `kind` by one, unless it is 0.
    pub fn lower(&mut self, kind: MutationKind)
        ensures
            final(self)@ == old(self)@.lowered(kind),
    {
        let value: u64 = self.get(kind);
        if value > 0 {
            self.put(kind, value - 1);
        }
    }
}

/// A request for one page of the list. The ticket tells the requests of one
/// synchronizer apart: a later request has a greater ticket.
#[derive(Clone, Copy, Debug, PartialEq, Eq, Structural)]
pub struct FetchRequest {
    pub ticket: u64,
    pub page: u32,
}

/// Why a mutation was not sent, and what the caller has to do about it.
#[derive(Clone, Copy, Debug, PartialEq, Eq, Structural)]
pub struct Rejection {
    /// What is wrong with the mutation.
    pub error: ValidationError,
    /// After how many milliseconds to dismiss the notification of it.
    pub dismiss_after_ms: u64,
}

/// What the caller has to do after a mutation has settled.
#[derive(Clone, Copy, Debug, PartialEq, Eq, Structural)]
pub struct Settlement {
    /// The request for the current page to send now.
    pub request: FetchRequest,
    /// Whether to reset the form that adds a record.
    pub reset_form: bool,
    /// After how many milliseconds to dismiss the notification, if one was
    /// raised.
    pub dismiss_after_ms: Option<u64>,
}

/// What the list panel shows.
#[derive(Clone, Copy, Debug, PartialEq, Eq, Structural)]
pub enum ListPanel {
    /// No answer has arrived yet.
    Loading,
    /// The last answer was an error.
    Failed,
    /// The last answer was a page without records.
    AllDone,
    /// The last answer was a page with records.
    Items,
}

/// How a request for a page ended: the page, or the error's text.
pub type PageOutcome = Result<PageView, Seq<char>>;

/// How a mutation ended: well, or with the error's text.
pub type MutationOutcome = Result<(), Seq<char>>;

/// The outcome of a request for a page, as mathematical values.
pub open spec fn page_outcome(outcome: Result<PaginatedTodos, String>) -> PageOutcome {
    match outcome {
        Ok(page) => Ok(page@),
        Err(text) => Err(text@),
    }
}

/// The outcome of a mutation, as mathematical values.
pub open spec fn mutation_outcome(outcome: Result<(), String>) -> MutationOutcome {
    match outcome {
        Ok(()) => Ok(()),
        Err(text) => Err(text@),
    }
}

/// The notification that a settled mutation raises. A failure always raises
/// one; a completion that went well raises none.
pub open spec fn settlement_notice(
    kind: MutationKind,
    outcome: MutationOutcome,
) -> Option<NotificationKind> {
    match outcome {
        Err(text) => Some(NotificationKind::Error(text)),
        Ok(()) => match kind {
            MutationKind::Add => Some(NotificationKind::SuccessAdd),
            MutationKind::Update => Some(NotificationKind::SuccessUpdate),
            MutationKind::Delete => Some(NotificationKind::SuccessDelete),
            MutationKind::Complete => None,
        },
    }
}

/// The state of a synchronizer, as mathematical values.
pub struct SyncState {
    /// Settled mutations of each kind.
    pub versions: Counters,
    /// Mutations of each kind that were sent and have not settled.
    pub in_flight: Counters,
    /// The page that the list is on.
    pub current_page: nat,
    /// Ticket of the request made last.
    pub issued: nat,
    /// Whether the request made last is still unanswered.
    pub awaiting: bool,
    /// The answer shown: the one applied last, if any.
    pub displayed: Option<PageOutcome>,
    /// The notification slot.
    pub notification: NotificationView,
}

impl SyncState {
    /// The state of a new synchronizer: on page 0, with the first request
    /// made and nothing to show yet.
    pub open spec fn initial() -> SyncState {
        SyncState {
            versions: Counters::zero(),
            in_flight: Counters::zero(),
            current_page: 0,
            issued: 1,
            awaiting: true,
            displayed: None,
            notification: NotificationView::cleared(),
        }
    }

    /// Number of pages according to the answer shown; 0 without a page.
    pub open spec fn total_pages(self) -> nat {
        match self.displayed {
            Some(Ok(page)) => page_count(page.total),
            _ => 0,
        }
    }

    /// What the list panel shows.
    pub open spec fn list_panel(self) -> ListPanel {
        match self.displayed {
            None => ListPanel::Loading,
            Some(Err(_)) => ListPanel::Failed,
            Some(Ok(page)) => if page.items.len() == 0 {
                ListPanel::AllDone
            } else {
                ListPanel::Items
            },
        }
    }

    /// A new request is made; the answer shown stays until the new one
    /// arrives.
    pub open spec fn refetching(self) -> SyncState {
        SyncState { issued: self.issued + 1, awaiting: true, ..self }
    }

    /// A mutation is handed in. A valid one is sent; an invalid one raises
    /// an error notification and changes nothing else.
    pub open spec fn dispatched(self, mutation: MutationView) -> SyncState {
        match mutation.validation() {
            Ok(()) => SyncState { in_flight: self.in_flight.raised(mutation.kind()), ..self },
            Err(error) => SyncState {
                notification: NotificationView::showing(
                    NotificationKind::Error(error.message_spec()),
                ),
                ..self
            },
        }
    }

    /// A mutation has settled, well or not: its counter goes up by one, its
    /// outcome is notified and the page is requested again.
    pub open spec fn settled(self, kind: MutationKind, outcome: MutationOutcome) -> SyncState {
        SyncState {
            versions: self.versions.raised(kind),
            in_flight: self.in_flight.lowered(kind),
            notification: match settlement_notice(kind, outcome) {
                Some(notice) => NotificationView::showing(notice),
                None => self.notification,
            },
            ..self.refetching()
        }
    }

    /// A navigation button is pressed: where it leads to another page, that
    /// page is requested.
    pub open spec fn navigated(self, nav: Navigation) -> SyncState {
        let page = target_page(self.current_page as int, self.total_pages() as int, nav);
        if page == self.current_page {
            self
        } else {
            SyncState { current_page: page as nat, ..self.refetching() }
        }
    }

    /// Whether an answer with this ticket is applied: it is the awaited
    /// answer to the request made last.
    pub open spec fn accepts(self, ticket: nat) -> bool {
        self.awaiting && ticket == self.issued
    }

    /// An answer arrives. The awaited one is shown; any other is dropped.
    pub open spec fn resolved(self, ticket: nat, outcome: PageOutcome) -> SyncState {
        if self.accepts(ticket) {
            SyncState { displayed: Some(outcome), awaiting: false, ..self }
        } else {
            self
        }
    }

    /// The dismissal timer fires: the slot is emptied, whatever it holds.
    pub open spec fn dismissed(self) -> SyncState {
        SyncState { notification: NotificationView::cleared(), ..self }
    }
}

/// What can happen to a synchronizer.
pub enum SyncEvent {
    /// The user hands in a mutation.
    Dispatch(MutationView),
    /// A mutation that was sent has settled.
    Settle(MutationKind, MutationOutcome),
    /// The user presses a navigation button.
    Navigate(Navigation),
    /// The answer to the request with this ticket arrives.
    Resolve(nat, PageOutcome),
    /// The dismissal timer fires.
    Dismiss,
}

impl SyncState {
    /// The state after one event.
    pub open spec fn step(self, event: SyncEvent) -> SyncState {
        match event {
            SyncEvent::Dispatch(mutation) => self.dispatched(mutation),
            SyncEvent::Settle(kind, outcome) => self.settled(kind, outcome),
            SyncEvent::Navigate(nav) => self.navigated(nav),
            SyncEvent::Resolve(ticket, outcome) => self.resolved(ticket, outcome),
            SyncEvent::Dismiss => self.dismissed(),
        }
    }

    /// The state after a sequence of events, the first of them first.
    pub open spec fn run(self, events: Seq<SyncEvent>) -> SyncState
        decreases events.len(),
    {
        if events.len() == 0 {
            self
        } else {
            self.run(events.drop_last()).step(events.last())
        }
    }
}

/// Number of settlements of `kind` among the events.
pub open spec fn settlements(events: Seq<SyncEvent>, kind: MutationKind) -> nat
    decreases events.len(),
{
    if events.len() == 0 {
        0
    } else {
        settlements(events.drop_last(), kind) + if events.last() matches SyncEvent::Settle(k, _)
            && k == kind {
            1nat
        } else {
            0nat
        }
    }
}

/// Every answer among the events is the store's answer to a request that
/// had been made when it arrived: `store` maps a ticket to the answer to
/// the request with that ticket.
pub open spec fn answers_follow_requests(
    start: SyncState,
    events: Seq<SyncEvent>,
    store: spec_fn(nat) -> PageOutcome,
) -> bool {
    forall|i: int|
        0 <= i < events.len() ==> (#[trigger] events[i] matches SyncEvent::Resolve(
            ticket,
            outcome,
        ) ==> ticket <= start.run(events.take(i)).issued && outcome == store(ticket))
}

/// A request is made exactly when a version counter or the current page
/// changes, and then it is one request: the ticket goes up by one and its
/// answer is awaited.
pub proof fn lemma_change_requests_once(state: SyncState, event: SyncEvent)
    ensures
        ({
            let next = state.step(event);
            let changed = next.versions != state.versions || next.current_page
                != state.current_page;
            &&& changed ==> next.issued == state.issued + 1 && next.awaiting
            &&& !changed ==> next.issued == state.issued
            &&& next.awaiting && !state.awaiting ==> changed
        }),
{
}

/// A version counter counts the settlements of its kind, whether they went
/// well or not; nothing else moves it.
pub proof fn lemma_versions_count_settlements(
    start: SyncState,
    events: Seq<SyncEvent>,
    kind: MutationKind,
)
    ensures
        start.run(events).versions.get(kind) == start.versions.get(kind) + settlements(
            events,
            kind,
        ),
    decreases events.len(),
{
    if events.len() > 0 {
        lemma_versions_count_settlements(start, events.drop_last(), kind);
    }
}

/// Tickets never go down.
pub proof fn lemma_tickets_grow(start: SyncState, events: Seq<SyncEvent>, i: int)
    requires
        0 <= i <= events.len(),
    ensures
        start.run(events.take(i)).issued <= start.run(events).issued,
    decreases events.len(),
{
    if i == events.len() {
        assert(events.take(i) =~= events);
    } else {
        assert(events.drop_last().take(i) =~= events.take(i));
        lemma_tickets_grow(start, events.drop_last(), i);
    }
}

/// Whatever the order in which mutations settle, buttons are pressed and
/// answers arrive, late or twice: once the request made last has been
/// answered, the page shown is the store's answer to that request, and no
/// answer to an earlier request replaces it.
pub proof fn lemma_shows_answer_to_last_request(
    start: SyncState,
    events: Seq<SyncEvent>,
    store: spec_fn(nat) -> PageOutcome,
)
    requires
        !start.awaiting ==> start.displayed == Some(store(start.issued)),
        answers_follow_requests(start, events, store),
    ensures
        !start.run(events).awaiting ==> start.run(events).displayed == Some(
            store(start.run(events).issued),
        ),
        forall|i: int|
            0 <= i < events.len() && events[i] == SyncEvent::Resolve(
                start.run(events).issued,
                store(start.run(events).issued),
            ) ==> !start.run(events).awaiting,
    decreases events.len(),
{
    if events.len() > 0 {
        let rest = events.drop_last();
        let last = events.last();
        let before = start.run(rest);
        let after = start.run(events);
        assert(events.take(events.len() - 1) =~= rest);
        assert forall|i: int| 0 <= i < rest.len() implies (#[trigger] rest[i]
            matches SyncEvent::Resolve(ticket, outcome) ==> ticket <= start.run(
            rest.take(i),
        ).issued && outcome == store(ticket)) by {
            assert(rest.take(i) =~= events.take(i));
            assert(rest[i] == events[i]);
        }
        lemma_shows_answer_to_last_request(start, rest, store);
        lemma_change_requests_once(before, last);
        assert(events[events.len() - 1] == last);
        assert forall|i: int|
            0 <= i < events.len() && events[i] == SyncEvent::Resolve(
                after.issued,
                store(after.issued),
            ) implies !after.awaiting by {
            if i < rest.len() {
                assert(rest.take(i) =~= events.take(i));
                lemma_tickets_grow(start, rest, i);
                assert(rest[i] == events[i]);
            }
        }
    }
}

/// Keeps the displayed page of the list in step with the store.
#[derive(Clone, Debug, PartialEq)]
pub struct ViewSynchronizer {
    versions: MutationVersions,
    in_flight: MutationVersions,
    current_page: u32,
    issued: u64,
    awaiting: bool,
    displayed: Option<Result<PaginatedTodos, String>>,
    notification: NotificationState,
}

impl View for ViewSynchronizer {
    type V = SyncState;

    closed spec fn view(&self) -> SyncState {
        SyncState {
            versions: self.versions@,
            in_flight: self.in_flight@,
            current_page: self.current_page as nat,
            issued: self.issued as nat,
            awaiting: self.awaiting,
            displayed: match self.displayed {
                Some(outcome) => Some(page_outcome(outcome)),
                None => None,
            },
            notification: self.notification@,
        }
    }
}

impl ViewSynchronizer {
    /// A synchronizer on page 0, and the first request to send.
    pub fn new() -> (start: (ViewSynchronizer, FetchRequest))
        ensures
            start.0@ == SyncState::initial(),
            start.1 == (FetchRequest { ticket: 1, page: 0 }),
    {
        let synchronizer = ViewSynchronizer {
            versions: MutationVersions::new(),
            in_flight: MutationVersions::new(),
            current_page: 0,
            issued: 1,
            awaiting: true,
            displayed: None,
            notification: NotificationState::new(),
        };
        (synchronizer, FetchRequest { ticket: 1, page: 0 })
    }

    fn refetch(&mut self) -> (request: FetchRequest)
        requires
            old(self)@.issued < u64::MAX,
        ensures
            final(self)@ == old(self)@.refetching(),
            request.ticket == final(self)@.issued,
            request.page == final(self)@.current_page,
    {
        self.issued = self.issued + 1;
        self.awaiting = true;
        FetchRequest { ticket: self.issued, page: self.current_page }
    }

    /// Takes a mutation from the user. `Ok` tells the caller to send it, and
    /// counts it as in flight. `Err` tells that it was rejected: the error
    /// is in the notification slot, no counter has changed and no page is
    /// requested.
    pub fn dispatch(&mut self, mutation: &Mutation) -> (result: Result<MutationKind, Rejection>)
        requires
            old(self)@.in_flight.get(mutation@.kind()) < u64::MAX,
        ensures
            final(self)@ == old(self)@.dispatched(mutation@),
            result == match mutation@.validation() {
                Ok(()) => Ok::<MutationKind, Rejection>(mutation@.kind()),
                Err(error) => Err(Rejection { error, dismiss_after_ms: DISMISS_DELAY_MS }),
            },
    {
        match mutation.validate() {
            Ok(()) => {
                let kind = mutation.kind();
                self.in_flight.raise(kind);
                Ok(kind)
            },
            Err(error) => {
                self.notification.show(NotificationType::Error(error.message()));
                Err(Rejection { error, dismiss_after_ms: DISMISS_DELAY_MS })
            },
        }
    }

    /// Takes the outcome of a mutation that was sent.
    pub fn settle(
        &mut self,
        kind: MutationKind,
        outcome: Result<(), String>,
    ) -> (effects: Settlement)
        requires
            old(self)@.versions.get(kind) < u64::MAX,
            old(self)@.issued < u64::MAX,
        ensures
            final(self)@ == old(self)@.settled(kind, mutation_outcome(outcome)),
            effects.request.ticket == final(self)@.issued,
            effects.request.page == final(self)@.current_page,
            effects.reset_form == (kind == MutationKind::Add && outcome is Ok),
            effects.dismiss_after_ms == if settlement_notice(kind, mutation_outcome(outcome))
                is Some {
                Some(DISMISS_DELAY_MS)
            } else {
                None
            },
    {
        self.versions.raise(kind);
        self.in_flight.lower(kind);
        let mut reset_form = false;
        let mut dismiss_after_ms: Option<u64> = Some(DISMISS_DELAY_MS);
        match outcome {
            Err(text) => {
                self.notification.show(NotificationType::Error(text));
            },
            Ok(()) => match kind {
                MutationKind::Add => {
                    reset_form = true;
                    self.notification.show(NotificationType::SuccessAdd);
                },
                MutationKind::Update => {
                    self.notification.show(NotificationType::SuccessUpdate);
                },
                MutationKind::Delete => {
                    self.notification.show(NotificationType::SuccessDelete);
                },
                MutationKind::Complete => {
                    dismiss_after_ms = None;
                },
            },
        }
        let request = self.refetch();
        Settlement { request, reset_form, dismiss_after_ms }
    }

    /// Takes a press on a navigation button; returns the request to send
    /// when the page has changed.
    pub fn navigate(&mut self, nav: Navigation) -> (request: Option<FetchRequest>)
        requires
            old(self)@.issued < u64::MAX,
        ensures
            final(self)@ == old(self)@.navigated(nav),
            request is Some <==> final(self)@.current_page != old(self)@.current_page,
            request matches Some(r) ==> {
                &&& r.ticket == final(self)@.issued
                &&& r.page == final(self)@.current_page
            },
    {
        let page: u32 = navigate(self.current_page, self.total_pages(), nav);
        if page == self.current_page {
            None
        } else {
            self.current_page = page;
            Some(self.refetch())
        }
    }

    /// Takes the answer to the request with ticket `ticket`; returns whether
    /// it is now shown.
    pub fn fetch_resolved(
        &mut self,
        ticket: u64,
        outcome: Result<PaginatedTodos, String>,
    ) -> (applied: bool)
        ensures
            final(self)@ == old(self)@.resolved(ticket as nat, page_outcome(outcome)),
            applied == old(self)@.accepts(ticket as nat),
    {
        if self.awaiting && ticket == self.issued {
            self.displayed = Some(outcome);
            self.awaiting = false;
            true
        } else {
            false
        }
    }

    /// Empties the notification slot; the dismissal timer calls this.
    pub fn dismiss_notification(&mut self)
        ensures
            final(self)@ == old(self)@.dismissed(),
    {
        self.notification.clear();
    }

    /// The page that the list is on.
    pub fn current_page(&self) -> (page: u32)
        ensures
            page == self@.current_page,
    {
        self.current_page
    }

    /// The version counters.
    pub fn versions(&self) -> (versions: MutationVersions)
        ensures
            versions@ == self@.versions,
    {
        self.versions
    }

    /// For each kind, the mutations that were sent and have not settled.
    pub fn in_flight(&self) -> (counts: MutationVersions)
        ensures
            counts@ == self@.in_flight,
    {
        self.in_flight
    }

    /// Whether a mutation of `kind` was sent and has not settled.
    pub fn is_pending(&self, kind: MutationKind) -> (pending: bool)
        ensures
            pending == (self@.in_flight.get(kind) > 0),
    {
        self.in_flight.get(kind) > 0
    }

    /// Ticket of the request made last.
    pub fn issued(&self) -> (ticket: u64)
        ensures
            ticket == self@.issued,
    {
        self.issued
    }

    /// Whether the request made last is still unanswered.
    pub fn is_awaiting(&self) -> (awaiting: bool)
        ensures
            awaiting == self@.awaiting,
    {
        self.awaiting
    }

    /// The answer shown, if one has arrived.
    pub fn displayed(&self) -> (shown: &Option<Result<PaginatedTodos, String>>)
        ensures
            match *shown {
                Some(outcome) => self@.displayed == Some(page_outcome(outcome)),
                None => self@.displayed is None,
            },
    {
        &self.displayed
    }

    /// The notification slot.
    pub fn notification(&self) -> (slot: &NotificationState)
        ensures
            slot@ == self@.notification,
    {
        &self.notification
    }

    /// Number of pages according to the answer shown; 0 without a page.
    pub fn total_pages(&self) -> (pages: u32)
        ensures
            pages == self@.total_pages(),
    {
        match &self.displayed {
            Some(Ok(page)) => total_pages(page.total),
            _ => 0,
        }
    }

    /// What the list panel shows.
    pub fn list_panel(&self) -> (panel: ListPanel)
        ensures
            panel == self@.list_panel(),
    {
        match &self.displayed {
            None => ListPanel::Loading,
            Some(Err(_)) => ListPanel::Failed,
            Some(Ok(page)) => if page.items.len() == 0 {
                ListPanel::AllDone
            } else {
                ListPanel::Items
            },
        }
    }

    /// The pagination bar, laid out from the page shown; none while there is
    /// no page to go by.
    pub fn pagination(&self) -> (bar: Option<PaginationControls>)
        ensures
            match bar {
                Some(controls) => self@.displayed matches Some(Ok(page)) && controls.is_for(
                    self@.current_page as u32,
                    page.total as u32,
                ),
                None => !(self@.displayed matches Some(Ok(_))),
            },
    {
        match &self.displayed {
            Some(Ok(page)) => Some(PaginationControls::new(self.current_page, page.total)),
            _ => None,
        }
    }
}

} // verus!
