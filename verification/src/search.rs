//! The search overlay: a query that is typed, debounced and then looked up,
//! beside the paginated list and apart from it.

use vstd::prelude::*;
use crate::mutation::MutationKind;
use crate::record::{todo_views, Todo, TodoView};

verus! {

/// Time that the input has to rest before the query is looked up, in
/// milliseconds.
pub const DEBOUNCE_MS: u64 = 500;

/// A request to look a query up. A later request has a greater ticket.
#[derive(Clone, Debug, PartialEq)]
pub struct SearchRequest {
    pub ticket: u64,
    pub query: String,
}

/// The timer that the caller is to start after a keystroke.
#[derive(Clone, Copy, Debug, PartialEq, Eq, Structural)]
pub struct DebounceTimer {
    /// How long the timer runs, in milliseconds.
    pub delay_ms: u64,
    /// The time at which it fires, to be handed to `tick`.
    pub fires_at_ms: u64,
}

/// What the overlay shows.
#[derive(Clone, Copy, Debug, PartialEq, Eq, Structural)]
pub enum SearchPanel {
    /// Nothing.
    Hidden,
    /// The records found.
    Results,
    /// The error of the lookup.
    Failed,
}

/// How a lookup ended: the records found, or the error's text.
pub type SearchOutcome = Result<Seq<TodoView>, Seq<char>>;

/// The outcome of a lookup, as mathematical values.
pub open spec fn search_outcome(outcome: Result<Vec<Todo>, String>) -> SearchOutcome {
    match outcome {
        Ok(items) => Ok(todo_views(items@)),
        Err(text) => Err(text@),
    }
}

/// The state of the overlay, as mathematical values.
pub struct SearchState {
    /// What the input field holds.
    pub query: Seq<char>,
    /// Time of the last keystroke, while it waits to be looked up.
    pub typed_at: Option<nat>,
    /// The query of the request made last.
    pub debounced: Seq<char>,
    /// Ticket of the request made last.
    pub issued: nat,
    /// Whether the request made last is still unanswered.
    pub awaiting: bool,
    /// The answer applied last, if any.
    pub results: Option<SearchOutcome>,
}

impl SearchState {
    /// The state of a new overlay: the field is empty, and the empty query
    /// is being looked up.
    pub open spec fn initial() -> SearchState {
        SearchState {
            query: Seq::empty(),
            typed_at: None,
            debounced: Seq::empty(),
            issued: 1,
            awaiting: true,
            results: None,
        }
    }

    /// A keystroke at time `now` leaves `text` in the field. It makes no
    /// request; it only starts the wait anew.
    pub open spec fn typed(self, text: Seq<char>, now: nat) -> SearchState {
        SearchState { query: text, typed_at: Some(now), ..self }
    }

    /// Whether at time `now` the input has rested long enough.
    pub open spec fn due(self, now: nat) -> bool {
        self.typed_at matches Some(at) && now >= at + DEBOUNCE_MS
    }

    /// A new request is made.
    pub open spec fn refetching(self) -> SearchState {
        SearchState { issued: self.issued + 1, awaiting: true, ..self }
    }

    /// A timer fires at time `now`. If the input has rested long enough the
    /// wait ends, and a query other than the one looked up last is looked
    /// up. A timer that fires too early changes nothing.
    pub open spec fn ticked(self, now: nat) -> SearchState {
        if !self.due(now) {
            self
        } else if self.query == self.debounced {
            SearchState { typed_at: None, ..self }
        } else {
            SearchState { typed_at: None, debounced: self.query, ..self.refetching() }
        }
    }

    /// A mutation has settled. After a completion the query looked up last
    /// is looked up again, so that the completed record leaves the overlay;
    /// the other kinds leave the overlay alone.
    pub open spec fn settled(self, kind: MutationKind) -> SearchState {
        if kind == MutationKind::Complete {
            self.refetching()
        } else {
            self
        }
    }

    /// Whether an answer with this ticket is applied.
    pub open spec fn accepts(self, ticket: nat) -> bool {
        self.awaiting && ticket == self.issued
    }

    /// An answer arrives. The awaited one is kept; any other is dropped.
    pub open spec fn resolved(self, ticket: nat, outcome: SearchOutcome) -> SearchState {
        if self.accepts(ticket) {
            SearchState { results: Some(outcome), awaiting: false, ..self }
        } else {
            self
        }
    }

    /// What the overlay shows: nothing while an answer is awaited, nothing
    /// for the empty query and nothing when no record was found.
    pub open spec fn panel(self) -> SearchPanel {
        if self.awaiting {
            SearchPanel::Hidden
        } else {
            match self.results {
                Some(Err(_)) => SearchPanel::Failed,
                Some(Ok(items)) => if items.len() > 0 && self.debounced.len() > 0 {
                    SearchPanel::Results
                } else {
                    SearchPanel::Hidden
                },
                None => SearchPanel::Hidden,
            }
        }
    }
}

/// What can happen to the overlay.
pub enum SearchEvent {
    /// A keystroke at a time leaves a text in the field.
    Type(Seq<char>, nat),
    /// A timer fires at a time.
    Tick(nat),
    /// A mutation of this kind has settled.
    Settle(MutationKind),
    /// The answer to the request with this ticket arrives.
    Resolve(nat, SearchOutcome),
}

impl SearchState {
    /// The state after one event.
    pub open spec fn step(self, event: SearchEvent) -> SearchState {
        match event {
            SearchEvent::Type(text, now) => self.typed(text, now),
            SearchEvent::Tick(now) => self.ticked(now),
            SearchEvent::Settle(kind) => self.settled(kind),
            SearchEvent::Resolve(ticket, outcome) => self.resolved(ticket, outcome),
        }
    }

    /// The state after a sequence of events, the first of them first.
    pub open spec fn run(self, events: Seq<SearchEvent>) -> SearchState
        decreases events.len(),
    {
        if events.len() == 0 {
            self
        } else {
            self.run(events.drop_last()).step(events.last())
        }
    }
}

/// Time of the last keystroke among the events; `before` where there is
/// none.
pub open spec fn last_keystroke(before: Option<nat>, events: Seq<SearchEvent>) -> Option<nat>
    decreases events.len(),
{
    if events.len() == 0 {
        before
    } else {
        match events.last() {
            SearchEvent::Type(_, at) => Some(at),
            _ => last_keystroke(before, events.drop_last()),
        }
    }
}

/// The events are keystrokes and timers, and every timer fires less than
/// `DEBOUNCE_MS` after the keystroke before it.
pub open spec fn typing_continues(before: Option<nat>, events: Seq<SearchEvent>) -> bool {
    forall|i: int|
        0 <= i < events.len() ==> match #[trigger] events[i] {
            SearchEvent::Type(_, _) => true,
            SearchEvent::Tick(now) => last_keystroke(before, events.take(i)) matches Some(at)
                ==> now < at + DEBOUNCE_MS,
            _ => false,
        }
}

/// While the user types, nothing is looked up: keystrokes, and timers that
/// fire less than `DEBOUNCE_MS` after the keystroke before them, make no
/// request and leave the query of the last request as it is. The wait goes
/// on from the last keystroke.
pub proof fn lemma_typing_makes_no_request(start: SearchState, events: Seq<SearchEvent>)
    requires
        typing_continues(start.typed_at, events),
    ensures
        start.run(events).issued == start.issued,
        start.run(events).debounced == start.debounced,
        start.run(events).awaiting == start.awaiting,
        start.run(events).results == start.results,
        start.run(events).typed_at == last_keystroke(start.typed_at, events),
    decreases events.len(),
{
    if events.len() > 0 {
        let rest = events.drop_last();
        assert(events.take(events.len() - 1) =~= rest);
        assert forall|i: int| 0 <= i < rest.len() implies match #[trigger] rest[i] {
            SearchEvent::Type(_, _) => true,
            SearchEvent::Tick(now) => last_keystroke(start.typed_at, rest.take(i)) matches Some(
                at,
            ) ==> now < at + DEBOUNCE_MS,
            _ => false,
        } by {
            assert(rest.take(i) =~= events.take(i));
            assert(rest[i] == events[i]);
        }
        lemma_typing_makes_no_request(start, rest);
        assert(events[events.len() - 1] == events.last());
    }
}

/// Once the typing has stopped, the timers that were started make one
/// request at most, however many of them fire: the first that finds the
/// input rested looks the field's text up, unless that was looked up last,
/// and the others find nothing to do.
pub proof fn lemma_timers_make_one_request(start: SearchState, events: Seq<SearchEvent>)
    requires
        forall|i: int| 0 <= i < events.len() ==> #[trigger] events[i] is Tick,
    ensures
        start.run(events).query == start.query,
        start.run(events).issued == start.issued || {
            &&& start.run(events).issued == start.issued + 1
            &&& start.run(events).debounced == start.query
            &&& start.run(events).typed_at is None
            &&& start.query != start.debounced
        },
        start.run(events).issued == start.issued ==> start.run(events).debounced
            == start.debounced,
        start.run(events).typed_at is None || start.run(events).typed_at == start.typed_at,
        start.run(events).typed_at is Some ==> start.run(events).issued == start.issued,
    decreases events.len(),
{
    if events.len() > 0 {
        let rest = events.drop_last();
        assert forall|i: int| 0 <= i < rest.len() implies #[trigger] rest[i] is Tick by {
            assert(rest[i] == events[i]);
        }
        lemma_timers_make_one_request(start, rest);
        assert(events[events.len() - 1] == events.last());
    }
}

/// The search overlay of the list.
#[derive(Clone, Debug, PartialEq)]
pub struct SearchOverlay {
    query: String,
    typed_at: Option<u64>,
    debounced: String,
    issued: u64,
    awaiting: bool,
    results: Option<Result<Vec<Todo>, String>>,
}

impl View for SearchOverlay {
    type V = SearchState;

    closed spec fn view(&self) -> SearchState {
        SearchState {
            query: self.query@,
            typed_at: match self.typed_at {
                Some(at) => Some(at as nat),
                None => None,
            },
            debounced: self.debounced@,
            issued: self.issued as nat,
            awaiting: self.awaiting,
            results: match self.results {
                Some(outcome) => Some(search_outcome(outcome)),
                None => None,
            },
        }
    }
}

impl SearchOverlay {
    /// An overlay with an empty field, and the first request to send.
    pub fn new() -> (start: (SearchOverlay, SearchRequest))
        ensures
            start.0@ == SearchState::initial(),
            start.1.ticket == 1,
            start.1.query@ == Seq::<char>::empty(),
    {
        let overlay = SearchOverlay {
            query: String::new(),
            typed_at: None,
            debounced: String::new(),
            issued: 1,
            awaiting: true,
            results: None,
        };
        (overlay, SearchRequest { ticket: 1, query: String::new() })
    }

    fn refetch(&mut self) -> (request: SearchRequest)
        requires
            old(self)@.issued < u64::MAX,
        ensures
            final(self)@ == old(self)@.refetching(),
            request.ticket == final(self)@.issued,
            request.query@ == final(self)@.debounced,
    {
        self.issued = self.issued + 1;
        self.awaiting = true;
        SearchRequest { ticket: self.issued, query: self.debounced.clone() }
    }

    /// Takes a keystroke: `text` is what the field holds at time `now_ms`.
    /// Returns the timer to start; when it fires, the caller is to call
    /// `tick`. The timer of a keystroke at the end of time fires there.
    pub fn input(&mut self, text: String, now_ms: u64) -> (timer: DebounceTimer)
        ensures
            final(self)@ == old(self)@.typed(text@, now_ms as nat),
            timer.delay_ms == DEBOUNCE_MS,
            timer.fires_at_ms == if now_ms + DEBOUNCE_MS <= u64::MAX {
                now_ms + DEBOUNCE_MS
            } else {
                u64::MAX as int
            },
    {
        self.query = text;
        self.typed_at = Some(now_ms);
        let fires_at_ms: u64 = if now_ms <= u64::MAX - DEBOUNCE_MS {
            now_ms + DEBOUNCE_MS
        } else {
            u64::MAX
        };
        DebounceTimer { delay_ms: DEBOUNCE_MS, fires_at_ms }
    }

    /// Takes the firing of a timer at time `now_ms`; returns the request to
    /// send, if the query is to be looked up now.
    pub fn tick(&mut self, now_ms: u64) -> (request: Option<SearchRequest>)
        requires
            old(self)@.issued < u64::MAX,
        ensures
            final(self)@ == old(self)@.ticked(now_ms as nat),
            request is Some <==> {
                &&& old(self)@.due(now_ms as nat)
                &&& old(self)@.query != old(self)@.debounced
            },
            request matches Some(r) ==> {
                &&& r.ticket == final(self)@.issued
                &&& r.query@ == old(self)@.query
            },
    {
        let due = match self.typed_at {
            Some(at) => now_ms >= at && now_ms - at >= DEBOUNCE_MS,
            None => false,
        };
        if !due {
            None
        } else {
            self.typed_at = None;
            if self.query == self.debounced {
                None
            } else {
                self.debounced = self.query.clone();
                Some(self.refetch())
            }
        }
    }

    /// Takes the settlement of a mutation of `kind`; returns the request to
    /// send, if the overlay looks its query up again.
    pub fn mutation_settled(&mut self, kind: MutationKind) -> (request: Option<SearchRequest>)
        requires
            kind == MutationKind::Complete ==> old(self)@.issued < u64::MAX,
        ensures
            final(self)@ == old(self)@.settled(kind),
            request is Some <==> kind == MutationKind::Complete,
            request matches Some(r) ==> {
                &&& r.ticket == final(self)@.issued
                &&& r.query@ == final(self)@.debounced
            },
    {
        match kind {
            MutationKind::Complete => Some(self.refetch()),
            _ => None,
        }
    }

    /// Takes the answer to the request with ticket `ticket`; returns whether
    /// it was kept.
    pub fn resolved(&mut self, ticket: u64, outcome: Result<Vec<Todo>, String>) -> (applied: bool)
        ensures
            final(self)@ == old(self)@.resolved(ticket as nat, search_outcome(outcome)),
            applied == old(self)@.accepts(ticket as nat),
    {
        if self.awaiting && ticket == self.issued {
            self.results = Some(outcome);
            self.awaiting = false;
            true
        } else {
            false
        }
    }

    /// What the input field holds.
    pub fn query(&self) -> (query: &String)
        ensures
            query@ == self@.query,
    {
        &self.query
    }

    /// Ticket of the request made last.
    pub fn issued(&self) -> (ticket: u64)
        ensures
            ticket == self@.issued,
    {
        self.issued
    }

    /// The answer kept last, if any.
    pub fn results(&self) -> (results: &Option<Result<Vec<Todo>, String>>)
        ensures
            match *results {
                Some(outcome) => self@.results == Some(search_outcome(outcome)),
                None => self@.results is None,
            },
    {
        &self.results
    }

    /// What the overlay shows.
    pub fn panel(&self) -> (panel: SearchPanel)
        ensures
            panel == self@.panel(),
    {
        if self.awaiting {
            SearchPanel::Hidden
        } else {
            match &self.results {
                Some(Err(_)) => SearchPanel::Failed,
                Some(Ok(items)) => if items.len() > 0 && !self.debounced.as_str().is_empty() {
                    SearchPanel::Results
                } else {
                    SearchPanel::Hidden
                },
                None => SearchPanel::Hidden,
            }
        }
    }
}

} // verus!
