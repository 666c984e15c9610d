//! Decisions of the control loop and of the input pump: when a tick is due,
//! when the authentication task starts, where each event goes, and when the
//! loop ends.

use vstd::prelude::*;
use crate::app_state::{
    event_handler, step, Action, ActionView, AppState, AppStateView, Event, Key, MenuItem,
    TokenStore, TokenView,
};
use vstd::std_specs::convert::FromSpecImpl;
use vstd::string::StringExecFns;

verus! {

/// Milliseconds between two ticks.
pub const TICK_RATE_MS: u64 = 200;

/// Position of a screen in the row of tabs.
pub open spec fn menu_index(item: MenuItem) -> usize {
    match item {
        MenuItem::Account => 0,
        MenuItem::Commands => 1,
        MenuItem::Home => 2,
        MenuItem::Playlists => 3,
        MenuItem::Search => 4,
    }
}

impl From<MenuItem> for usize {
    fn from(input: MenuItem) -> (index: usize) {
        match input {
            MenuItem::Account => 0,
            MenuItem::Commands => 1,
            MenuItem::Home => 2,
            MenuItem::Playlists => 3,
            MenuItem::Search => 4,
        }
    }
}

impl FromSpecImpl<MenuItem> for usize {
    open spec fn obeys_from_spec() -> bool {
        true
    }

    open spec fn from_spec(v: MenuItem) -> usize {
        menu_index(v)
    }
}

/// The titles of the tabs, in the order of their positions.
pub fn menu_titles() -> (titles: Vec<String>)
    ensures
        titles@.len() == 5,
        titles@[0]@ == "Account"@,
        titles@[1]@ == "Commands"@,
        titles@[2]@ == "Home"@,
        titles@[3]@ == "Playlists"@,
        titles@[4]@ == "Search"@,
{
    let mut titles: Vec<String> = Vec::new();
    titles.push(String::from_str("Account"));
    titles.push(String::from_str("Commands"));
    titles.push(String::from_str("Home"));
    titles.push(String::from_str("Playlists"));
    titles.push(String::from_str("Search"));
    titles
}

/// Time the input pump may still wait for a key before the next tick is due.
pub open spec fn spec_poll_budget(tick_rate: u64, elapsed: u64) -> u64 {
    if elapsed >= tick_rate {
        0
    } else {
        (tick_rate - elapsed) as u64
    }
}

/// Remaining wait towards the next tick deadline, zero once it has passed.
pub fn poll_budget(tick_rate: u64, elapsed: u64) -> (budget: u64)
    ensures
        budget == spec_poll_budget(tick_rate, elapsed),
{
    if elapsed >= tick_rate {
        0
    } else {
        tick_rate - elapsed
    }
}

/// A tick is emitted once a full period has gone by since the last one.
pub fn tick_due(tick_rate: u64, elapsed: u64) -> (due: bool)
    ensures
        due == (elapsed >= tick_rate),
{
    elapsed >= tick_rate
}

/// The pump never waits past the deadline, and a tick is due exactly when
/// there is nothing left to wait for.
pub proof fn lemma_budget_meets_deadline(tick_rate: u64, elapsed: u64)
    ensures
        spec_poll_budget(tick_rate, elapsed) <= tick_rate,
        elapsed < tick_rate ==> elapsed + spec_poll_budget(tick_rate, elapsed) == tick_rate,
        spec_poll_budget(tick_rate, elapsed) == 0 <==> elapsed >= tick_rate,
{
}

/// The state at the start of a cycle, and whether the authentication task
/// starts in it: it starts when the Account screen is shown and no attempt
/// was made before, and then the status lines are cleared.
pub open spec fn cycle_start(s: AppStateView, attempted: bool) -> (AppStateView, bool) {
    if s.active_menu_item == MenuItem::Account && !attempted {
        (AppStateView { messages: Seq::empty(), ..s }, true)
    } else {
        (s, false)
    }
}

/// Decides at the start of a cycle whether to start the authentication
/// task, and records the attempt.
pub fn begin_cycle(state: &mut AppState, attempted: &mut bool) -> (start: bool)
    ensures
        (final(state)@, start) == cycle_start(old(state)@, *old(attempted)),
        *final(attempted) == (*old(attempted) || start),
{
    if state.active_menu_item == MenuItem::Account && !*attempted {
        *attempted = true;
        state.messages.clear();
        assert(crate::app_state::texts(state.messages@) =~= Seq::empty());
        true
    } else {
        false
    }
}

/// Once an attempt has been made, no later cycle starts the task again,
/// whatever screen is shown.
pub proof fn lemma_authentication_starts_once(s: AppStateView)
    ensures
        cycle_start(s, true) == (s, false),
{
}

/// The status line that reports a failed authentication.
pub fn authentication_error_line(reason: &str) -> (line: String)
    ensures
        line@ == "Authentication error: "@ + reason@,
{
    let mut line = String::from_str("Authentication error: ");
    line.append(reason);
    line
}

/// The mathematical content of an [`Event`] that carries a [`Key`].
pub enum EventView {
    Input(Key),
    Tick,
    Message(Seq<char>),
}

/// The content of an event.
pub open spec fn event_view(event: Event<Key>) -> EventView {
    match event {
        Event::Input(key) => EventView::Input(key),
        Event::Tick => EventView::Tick,
        Event::Message(text) => EventView::Message(text@),
    }
}

/// The state after one event of the queue, and the outside work it asks
/// for: a key goes to the dispatcher, a status line is appended, a tick
/// changes nothing.
pub open spec fn after_event(s: AppStateView, event: EventView, token: Option<TokenView>) -> (
    AppStateView,
    ActionView,
) {
    match event {
        EventView::Input(key) => step(s, key, token),
        EventView::Tick => (s, ActionView::Idle),
        EventView::Message(text) => (s.with_message(text), ActionView::Idle),
    }
}

/// The state after a run of events, in order of arrival.
pub open spec fn after_events(s: AppStateView, events: Seq<EventView>, token: Option<TokenView>)
    -> AppStateView
    decreases events.len(),
{
    if events.len() == 0 {
        s
    } else {
        after_event(after_events(s, events.drop_last(), token), events.last(), token).0
    }
}

/// Routes one event of the queue.
pub fn route_event(event: Event<Key>, state: &mut AppState, store: &TokenStore) -> (action: Action)
    ensures
        (final(state)@, action@) == after_event(old(state)@, event_view(event), store@),
        old(state)@.wf() ==> final(state)@.wf(),
        event is Tick ==> final(state)@ == old(state)@ && action@ == ActionView::Idle,
{
    match event {
        Event::Input(key) => event_handler(Event::Input(key), state, store),
        Event::Tick => Action::Idle,
        Event::Message(text) => {
            state.push_message(text);
            Action::Idle
        },
    }
}

/// A run of ticks and nothing else leaves the whole state as it was.
pub proof fn lemma_ticks_change_nothing(
    s: AppStateView,
    events: Seq<EventView>,
    token: Option<TokenView>,
)
    requires
        forall|i: int| 0 <= i < events.len() ==> events[i] is Tick,
    ensures
        after_events(s, events, token) == s,
    decreases events.len(),
{
    if events.len() > 0 {
        lemma_ticks_change_nothing(s, events.drop_last(), token);
    }
}

/// Whatever arrives on the queue, keys, ticks or status lines, no digit
/// buffer ever holds more than two characters, and the buffers stay made
/// of digits.
pub proof fn lemma_events_keep_buffers(
    s: AppStateView,
    events: Seq<EventView>,
    token: Option<TokenView>,
)
    ensures
        s.bounded() ==> after_events(s, events, token).bounded(),
        s.wf() ==> after_events(s, events, token).wf(),
    decreases events.len(),
{
    if events.len() > 0 {
        lemma_events_keep_buffers(s, events.drop_last(), token);
        if let EventView::Input(key) = events.last() {
            crate::invariants::lemma_step_keeps_buffers(
                after_events(s, events.drop_last(), token),
                key,
                token,
            );
        }
    }
}

/// The two steady states of the control loop.
#[derive(Copy, Clone, Debug, PartialEq, Eq, Structural)]
pub enum LoopState {
    Running,
    Terminating,
}

/// The loop goes on after every action but `Quit`.
pub open spec fn loop_after(action: ActionView) -> LoopState {
    if action is Quit {
        LoopState::Terminating
    } else {
        LoopState::Running
    }
}

/// Whether the loop goes on after an action.
pub fn next_loop_state(action: &Action) -> (next: LoopState)
    ensures
        next == loop_after(action@),
{
    match action {
        Action::Quit => LoopState::Terminating,
        _ => LoopState::Running,
    }
}

} // verus!
