//! The application state and the modal key dispatcher that drives it,
//! together with the credential cache that the dispatcher consults.
//!
//! The dispatcher never performs outside work itself. It changes the state
//! and hands back an [`Action`]; whoever runs the loop performs the action
//! and folds its outcome back into the state with one of the completion
//! functions at the end of this module.
//!
//! Switching the top-level mode leaves the selection flags of the other
//! modes as they are.

use vstd::prelude::*;
use crate::colors::Theme;
use crate::text::{all_digits, is_ascii_digit, is_digit, parse_decimal, parse_unsigned};
use vstd::string::StringExecFns;

verus! {

/// What the event queue carries: a key, a timer tick, or a status line
/// reported by a background task.
#[derive(Clone, Debug, PartialEq, Eq)]
pub enum Event<I> {
    Input(I),
    Tick,
    Message(String),
}

/// The top-level screens.
#[derive(Copy, Clone, Debug, PartialEq, Eq, Structural)]
pub enum MenuItem {
    Account,
    Commands,
    Home,
    Playlists,
    Search,
}

/// The keys that the dispatcher tells apart.
#[derive(Copy, Clone, Debug, PartialEq, Eq, Structural)]
pub enum Key {
    Char(char),
    Enter,
    Esc,
    Backspace,
    Other,
}

/// A credential: an access secret and, where one was granted, a refresh
/// secret.
#[derive(Debug, PartialEq, Eq)]
pub struct Token {
    pub access_token: String,
    pub refresh_token: Option<String>,
}

/// The mathematical content of a [`Token`].
pub struct TokenView {
    pub access_token: Seq<char>,
    pub refresh_token: Option<Seq<char>>,
}

impl View for Token {
    type V = TokenView;

    open spec fn view(&self) -> TokenView {
        TokenView {
            access_token: self.access_token@,
            refresh_token: match self.refresh_token {
                Some(r) => Some(r@),
                None => None,
            },
        }
    }
}

impl Clone for Token {
    fn clone(&self) -> (copy: Self)
        ensures
            copy@ == self@,
    {
        let refresh_token = match &self.refresh_token {
            Some(r) => Some(r.clone()),
            None => None,
        };
        Token { access_token: self.access_token.clone(), refresh_token }
    }
}

/// The content of an optional token.
pub open spec fn token_view(token: Option<Token>) -> Option<TokenView> {
    match token {
        Some(t) => Some(t@),
        None => None,
    }
}

/// Cache of at most one credential.
pub struct TokenStore {
    token: Option<Token>,
}

impl View for TokenStore {
    type V = Option<TokenView>;

    closed spec fn view(&self) -> Option<TokenView> {
        token_view(self.token)
    }
}

impl TokenStore {
    /// An empty cache.
    pub fn new() -> (store: Self)
        ensures
            store@ is None,
    {
        TokenStore { token: None }
    }

    /// Replaces the cached token.
    pub fn set(&mut self, token: Token)
        ensures
            final(self)@ == after_set(old(self)@, token@),
    {
        self.token = Some(token);
    }

    /// A copy of the cached token, if there is one.
    pub fn get(&self) -> (token: Option<Token>)
        ensures
            token_view(token) == self@,
    {
        match &self.token {
            Some(t) => Some(t.clone()),
            None => None,
        }
    }
}

/// Replaces the token cached in `store`.
pub fn set_token(store: &mut TokenStore, token: Token)
    ensures
        final(store)@ == after_set(old(store)@, token@),
{
    store.set(token);
}

/// A copy of the token cached in `store`, if there is one.
pub fn get_token(store: &TokenStore) -> (token: Option<Token>)
    ensures
        token_view(token) == store@,
{
    store.get()
}

/// Caches a token that was read from storage. A failed read is handed back
/// and leaves the cache as it was.
pub fn load_and_set_token(store: &mut TokenStore, loaded: Result<Token, String>) -> (r: Result<
    (),
    String,
>)
    ensures
        match loaded {
            Ok(token) => r is Ok && final(store)@ == Some(token@),
            Err(e) => r == Err::<(), String>(e) && final(store)@ == old(store)@,
        },
{
    match loaded {
        Ok(token) => {
            set_token(store, token);
            Ok(())
        },
        Err(e) => Err(e),
    }
}

/// What a cache that held `before` holds after one `set`.
pub open spec fn after_set(before: Option<TokenView>, token: TokenView) -> Option<TokenView> {
    Some(token)
}

/// What a cache that held `before` holds after a run of `set` calls.
pub open spec fn after_sets(before: Option<TokenView>, sets: Seq<TokenView>) -> Option<TokenView>
    decreases sets.len(),
{
    if sets.len() == 0 {
        before
    } else {
        after_set(after_sets(before, sets.drop_last()), sets.last())
    }
}

/// A fresh cache holds nothing, and after any run of `set` calls a cache
/// holds the token of the last call, whatever it held before.
pub proof fn lemma_cache_holds_last_set(before: Option<TokenView>, sets: Seq<TokenView>)
    ensures
        after_sets(None, Seq::empty()) is None,
        sets.len() > 0 ==> after_sets(before, sets) == Some(sets.last()),
        sets.len() == 0 ==> after_sets(before, sets) == before,
{
}

/// Everything the interface shows and the dispatcher decides on.
#[derive(Clone, Debug, PartialEq, Eq)]
pub struct AppState {
    pub messages: Vec<String>,
    pub authenticated: bool,
    pub active_menu_item: MenuItem,
    pub playlists: Vec<(String, String)>,
    pub playlist_number_input: String,
    pub playlist_selection_mode: bool,
    pub search_input: String,
    pub search_attempted: bool,
    pub search_typing: bool,
    pub search_result: Vec<(String, String, String, String)>,
    pub search_selection_mode: bool,
    pub search_number_input: String,
    pub selected_theme: Theme,
    pub themes: Vec<String>,
    pub theme_selection_mode: bool,
    pub theme_number_input: String,
    pub theme_selected_path: String,
}

/// The texts of a list of strings.
pub open spec fn texts(v: Seq<String>) -> Seq<Seq<char>> {
    v.map_values(|s: String| s@)
}

/// The texts of a list of (title, id) pairs.
pub open spec fn pairs(v: Seq<(String, String)>) -> Seq<(Seq<char>, Seq<char>)> {
    v.map_values(|p: (String, String)| (p.0@, p.1@))
}

/// The texts of a list of (title, duration, uploader, id) rows.
pub open spec fn rows(v: Seq<(String, String, String, String)>) -> Seq<
    (Seq<char>, Seq<char>, Seq<char>, Seq<char>),
> {
    v.map_values(|r: (String, String, String, String)| (r.0@, r.1@, r.2@, r.3@))
}

/// The mathematical content of an [`AppState`].
pub struct AppStateView {
    pub messages: Seq<Seq<char>>,
    pub authenticated: bool,
    pub active_menu_item: MenuItem,
    pub playlists: Seq<(Seq<char>, Seq<char>)>,
    pub playlist_number_input: Seq<char>,
    pub playlist_selection_mode: bool,
    pub search_input: Seq<char>,
    pub search_attempted: bool,
    pub search_typing: bool,
    pub search_result: Seq<(Seq<char>, Seq<char>, Seq<char>, Seq<char>)>,
    pub search_selection_mode: bool,
    pub search_number_input: Seq<char>,
    pub selected_theme: Theme,
    pub themes: Seq<Seq<char>>,
    pub theme_selection_mode: bool,
    pub theme_number_input: Seq<char>,
    pub theme_selected_path: Seq<char>,
}

impl View for AppState {
    type V = AppStateView;

    open spec fn view(&self) -> AppStateView {
        AppStateView {
            messages: texts(self.messages@),
            authenticated: self.authenticated,
            active_menu_item: self.active_menu_item,
            playlists: pairs(self.playlists@),
            playlist_number_input: self.playlist_number_input@,
            playlist_selection_mode: self.playlist_selection_mode,
            search_input: self.search_input@,
            search_attempted: self.search_attempted,
            search_typing: self.search_typing,
            search_result: rows(self.search_result@),
            search_selection_mode: self.search_selection_mode,
            search_number_input: self.search_number_input@,
            selected_theme: self.selected_theme,
            themes: texts(self.themes@),
            theme_selection_mode: self.theme_selection_mode,
            theme_number_input: self.theme_number_input@,
            theme_selected_path: self.theme_selected_path@,
        }
    }
}

/// Outside work that the dispatcher asks for. At most one per key.
#[derive(Debug, PartialEq, Eq)]
pub enum Action {
    /// Nothing to do.
    Idle,
    /// Restore the terminal and leave the loop.
    Quit,
    /// Search the catalog for `query`.
    Search { access_token: String, query: String },
    /// Fetch the account's playlists.
    FetchPlaylists { access_token: String },
    /// List the available theme files again.
    RefreshThemes,
    /// Play one video.
    PlayVideo { video_id: String },
    /// Play every item of a playlist.
    PlayPlaylist { access_token: String, playlist_id: String, title: String },
    /// Read the theme file at `path`.
    LoadTheme { path: String },
}

/// The mathematical content of an [`Action`].
pub enum ActionView {
    Idle,
    Quit,
    Search { access_token: Seq<char>, query: Seq<char> },
    FetchPlaylists { access_token: Seq<char> },
    RefreshThemes,
    PlayVideo { video_id: Seq<char> },
    PlayPlaylist { access_token: Seq<char>, playlist_id: Seq<char>, title: Seq<char> },
    LoadTheme { path: Seq<char> },
}

impl View for Action {
    type V = ActionView;

    open spec fn view(&self) -> ActionView {
        match self {
            Action::Idle => ActionView::Idle,
            Action::Quit => ActionView::Quit,
            Action::Search { access_token, query } => ActionView::Search {
                access_token: access_token@,
                query: query@,
            },
            Action::FetchPlaylists { access_token } => ActionView::FetchPlaylists {
                access_token: access_token@,
            },
            Action::RefreshThemes => ActionView::RefreshThemes,
            Action::PlayVideo { video_id } => ActionView::PlayVideo { video_id: video_id@ },
            Action::PlayPlaylist { access_token, playlist_id, title } => ActionView::PlayPlaylist {
                access_token: access_token@,
                playlist_id: playlist_id@,
                title: title@,
            },
            Action::LoadTheme { path } => ActionView::LoadTheme { path: path@ },
        }
    }
}

/// The longest index that can be typed into a digit buffer.
pub const DIGIT_BUFFER_CAP: usize = 2;

impl AppStateView {
    /// Search mode with the query line taking the keys.
    pub open spec fn typing(self) -> bool {
        self.active_menu_item == MenuItem::Search && self.search_typing
    }

    /// Every digit buffer holds at most two characters, all of them digits.
    pub open spec fn wf(self) -> bool {
        &&& self.playlist_number_input.len() <= DIGIT_BUFFER_CAP
        &&& self.search_number_input.len() <= DIGIT_BUFFER_CAP
        &&& self.theme_number_input.len() <= DIGIT_BUFFER_CAP
        &&& all_digits(self.playlist_number_input)
        &&& all_digits(self.search_number_input)
        &&& all_digits(self.theme_number_input)
    }

    /// The state with one more status line.
    pub open spec fn with_message(self, line: Seq<char>) -> AppStateView {
        AppStateView { messages: self.messages.push(line), ..self }
    }
}

/// A digit buffer after one more digit: it grows only while it holds fewer
/// than two characters.
pub open spec fn buffer_with_digit(buffer: Seq<char>, digit: char) -> Seq<char> {
    if buffer.len() < DIGIT_BUFFER_CAP {
        buffer.push(digit)
    } else {
        buffer
    }
}

/// What a digit buffer picks from a list.
pub enum Picked {
    /// A number from 1 to the length of the list.
    Entry(nat),
    /// A number, but zero or beyond the list.
    OutOfRange,
    /// No number.
    Invalid,
}

/// What a digit buffer picks from a list of `len` entries: the entry whose
/// number, counted from one, the buffer holds; no entry where the number is
/// zero or beyond the list; and nothing where the buffer holds no number.
pub open spec fn picked(buffer: Seq<char>, len: nat) -> Picked {
    match parse_unsigned(buffer, usize::MAX as nat) {
        Some(idx) => if 1 <= idx <= len {
            Picked::Entry(idx)
        } else {
            Picked::OutOfRange
        },
        None => Picked::Invalid,
    }
}

/// Keys while the query line is taking them: characters are appended,
/// Backspace drops the last one, Escape leaves the line and empties it,
/// Enter starts the search or reports the missing token.
pub open spec fn typing_step(s: AppStateView, key: Key, token: Option<TokenView>) -> (
    AppStateView,
    ActionView,
) {
    match key {
        Key::Char(c) => (AppStateView { search_input: s.search_input.push(c), ..s }, ActionView::Idle),
        Key::Backspace => (
            AppStateView {
                search_input: if s.search_input.len() > 0 {
                    s.search_input.drop_last()
                } else {
                    s.search_input
                },
                ..s
            },
            ActionView::Idle,
        ),
        Key::Esc => (
            AppStateView { search_typing: false, search_input: Seq::empty(), ..s },
            ActionView::Idle,
        ),
        Key::Enter => {
            let attempted = AppStateView { search_attempted: true, ..s };
            match token {
                Some(t) => (
                    attempted,
                    ActionView::Search { access_token: t.access_token, query: s.search_input },
                ),
                None => (attempted.with_message("No token available"@), ActionView::Idle),
            }
        },
        Key::Other => (s, ActionView::Idle),
    }
}

/// `b`: arms the selection of the active mode and empties its digit buffer.
pub open spec fn arm_step(s: AppStateView) -> AppStateView {
    match s.active_menu_item {
        MenuItem::Search => AppStateView {
            search_selection_mode: true,
            search_number_input: Seq::empty(),
            ..s
        },
        MenuItem::Playlists => AppStateView {
            playlist_selection_mode: true,
            playlist_number_input: Seq::empty(),
            ..s
        },
        MenuItem::Home => AppStateView {
            theme_selection_mode: true,
            theme_number_input: Seq::empty(),
            ..s
        },
        _ => s,
    }
}

/// A digit key: it goes to the buffer of the first armed selection, search
/// before playlists before themes.
pub open spec fn digit_step(s: AppStateView, digit: char) -> AppStateView {
    if s.search_selection_mode {
        AppStateView { search_number_input: buffer_with_digit(s.search_number_input, digit), ..s }
    } else if s.playlist_selection_mode {
        AppStateView {
            playlist_number_input: buffer_with_digit(s.playlist_number_input, digit),
            ..s
        }
    } else if s.theme_selection_mode {
        AppStateView { theme_number_input: buffer_with_digit(s.theme_number_input, digit), ..s }
    } else {
        s
    }
}

/// Enter on the video selection.
pub open spec fn submit_search(s: AppStateView) -> (AppStateView, ActionView) {
    let reset = AppStateView {
        search_selection_mode: false,
        search_number_input: Seq::empty(),
        ..s
    };
    match picked(s.search_number_input, s.search_result.len()) {
        Picked::Entry(idx) => {
            let video_id = s.search_result[idx - 1].3;
            (reset.with_message("Playing video "@ + video_id), ActionView::PlayVideo { video_id })
        },
        Picked::OutOfRange => (reset.with_message("Video number out of range."@), ActionView::Idle),
        Picked::Invalid => (reset.with_message("Invalid number input."@), ActionView::Idle),
    }
}

/// Enter on the theme selection.
pub open spec fn submit_theme(s: AppStateView) -> (AppStateView, ActionView) {
    let reset = AppStateView {
        theme_selection_mode: false,
        theme_number_input: Seq::empty(),
        ..s
    };
    match picked(s.theme_number_input, s.themes.len()) {
        Picked::Entry(idx) => (reset, ActionView::LoadTheme { path: s.themes[idx - 1] }),
        Picked::OutOfRange => (reset.with_message("Theme number out of range."@), ActionView::Idle),
        Picked::Invalid => (reset.with_message("Invalid number input."@), ActionView::Idle),
    }
}

/// Enter on the playlist selection.
pub open spec fn submit_playlist(s: AppStateView, token: Option<TokenView>) -> (
    AppStateView,
    ActionView,
) {
    let reset = AppStateView {
        playlist_selection_mode: false,
        playlist_number_input: Seq::empty(),
        ..s
    };
    match picked(s.playlist_number_input, s.playlists.len()) {
        Picked::Entry(idx) => match token {
            Some(t) => (
                reset,
                ActionView::PlayPlaylist {
                    access_token: t.access_token,
                    playlist_id: s.playlists[idx - 1].1,
                    title: s.playlists[idx - 1].0,
                },
            ),
            None => (reset.with_message("No valid token."@), ActionView::Idle),
        },
        Picked::OutOfRange => (
            reset.with_message("Playlist number out of range."@),
            ActionView::Idle,
        ),
        Picked::Invalid => (reset.with_message("Invalid number input."@), ActionView::Idle),
    }
}

/// Enter outside the query line: it submits the first armed selection,
/// search before themes before playlists.
pub open spec fn submit_step(s: AppStateView, token: Option<TokenView>) -> (
    AppStateView,
    ActionView,
) {
    if s.search_selection_mode {
        submit_search(s)
    } else if s.theme_selection_mode {
        submit_theme(s)
    } else if s.playlist_selection_mode {
        submit_playlist(s, token)
    } else {
        (s, ActionView::Idle)
    }
}

/// Escape outside the query line: it cancels the first armed selection,
/// search before playlists before themes.
pub open spec fn cancel_step(s: AppStateView) -> AppStateView {
    if s.search_selection_mode {
        AppStateView {
            search_selection_mode: false,
            search_number_input: Seq::empty(),
            ..s
        }.with_message("Search selection cancelled."@)
    } else if s.playlist_selection_mode {
        AppStateView {
            playlist_selection_mode: false,
            playlist_number_input: Seq::empty(),
            ..s
        }.with_message("Playlist selection cancelled."@)
    } else if s.theme_selection_mode {
        AppStateView {
            theme_selection_mode: false,
            theme_number_input: Seq::empty(),
            ..s
        }.with_message("Theme selection cancelled."@)
    } else {
        s
    }
}

/// `s`: Search mode with an empty query line taking the keys, no results
/// and no search attempted.
pub open spec fn enter_search(s: AppStateView) -> AppStateView {
    AppStateView {
        active_menu_item: MenuItem::Search,
        search_input: Seq::empty(),
        search_result: Seq::empty(),
        search_attempted: false,
        search_typing: true,
        ..s
    }
}

/// `a`: Account mode with no status lines and the authenticated flag down.
pub open spec fn enter_account(s: AppStateView) -> AppStateView {
    AppStateView {
        messages: Seq::empty(),
        authenticated: false,
        active_menu_item: MenuItem::Account,
        ..s
    }
}

/// `p`: Playlists mode, and a fetch of the playlists where a token is
/// cached; without one the failure is reported at once.
pub open spec fn enter_playlists(s: AppStateView, token: Option<TokenView>) -> (
    AppStateView,
    ActionView,
) {
    let shown = AppStateView { active_menu_item: MenuItem::Playlists, ..s };
    match token {
        Some(t) => (shown, ActionView::FetchPlaylists { access_token: t.access_token }),
        None => (shown.with_message(" Failed to fetch playlists"@), ActionView::Idle),
    }
}

/// A character key outside the query line.
pub open spec fn char_step(s: AppStateView, c: char, token: Option<TokenView>) -> (
    AppStateView,
    ActionView,
) {
    if c == 's' {
        (enter_search(s), ActionView::Idle)
    } else if c == 'q' {
        (s, ActionView::Quit)
    } else if c == 'a' {
        (enter_account(s), ActionView::Idle)
    } else if c == 'c' {
        (AppStateView { active_menu_item: MenuItem::Commands, ..s }, ActionView::Idle)
    } else if c == 'h' {
        (AppStateView { active_menu_item: MenuItem::Home, ..s }, ActionView::RefreshThemes)
    } else if c == 'b' {
        (arm_step(s), ActionView::Idle)
    } else if is_digit(c) {
        (digit_step(s, c), ActionView::Idle)
    } else if c == 'p' {
        enter_playlists(s, token)
    } else {
        (s, ActionView::Idle)
    }
}

/// The state after one key, and the outside work that the key asks for.
/// The first rule that applies decides: the query line, then the mode
/// letters, then `b`, then the armed selection, then `p`; any other key
/// changes nothing.
pub open spec fn step(s: AppStateView, key: Key, token: Option<TokenView>) -> (
    AppStateView,
    ActionView,
) {
    if s.typing() {
        typing_step(s, key, token)
    } else {
        match key {
            Key::Char(c) => char_step(s, c, token),
            Key::Enter => submit_step(s, token),
            Key::Esc => (cancel_step(s), ActionView::Idle),
            _ => (s, ActionView::Idle),
        }
    }
}

impl AppState {
    /// Appends one status line.
    pub fn push_message(&mut self, line: String)
        ensures
            final(self)@ == old(self)@.with_message(line@),
    {
        self.messages.push(line);
        assert(texts(self.messages@) =~= texts(old(self).messages@).push(line@));
    }

    fn say(&mut self, line: &str)
        ensures
            final(self)@ == old(self)@.with_message(line@),
    {
        self.push_message(String::from_str(line));
    }
}

fn grow_buffer(buffer: &mut String, digit: char)
    ensures
        final(buffer)@ == buffer_with_digit(old(buffer)@, digit),
{
    if buffer.as_str().unicode_len() < DIGIT_BUFFER_CAP {
        buffer.push(digit);
    }
}

/// Which entry of a list of `len` entries the digit buffer picks.
enum Pick {
    /// A position in the list, counted from zero.
    Entry(usize),
    OutOfRange,
    Invalid,
}

fn pick(buffer: &str, len: usize) -> (p: Pick)
    ensures
        match picked(buffer@, len as nat) {
            Picked::Entry(idx) => p == Pick::Entry((idx - 1) as usize) && 1 <= idx <= len,
            Picked::OutOfRange => p == Pick::OutOfRange,
            Picked::Invalid => p == Pick::Invalid,
        },
{
    match parse_decimal(buffer, usize::MAX as u64) {
        Some(idx) => {
            if idx > 0 && idx <= len as u64 {
                Pick::Entry((idx - 1) as usize)
            } else {
                Pick::OutOfRange
            }
        },
        None => Pick::Invalid,
    }
}

fn typing_key(state: &mut AppState, key: Key, store: &TokenStore) -> (action: Action)
    ensures
        (final(state)@, action@) == typing_step(old(state)@, key, store@),
{
    match key {
        Key::Char(c) => {
            state.search_input.push(c);
            Action::Idle
        },
        Key::Backspace => {
            let _ = state.search_input.pop();
            Action::Idle
        },
        Key::Esc => {
            state.search_typing = false;
            state.search_input.clear();
            Action::Idle
        },
        Key::Enter => {
            state.search_attempted = true;
            match store.get() {
                Some(token) => Action::Search {
                    access_token: token.access_token,
                    query: state.search_input.clone(),
                },
                None => {
                    state.say("No token available");
                    Action::Idle
                },
            }
        },
        Key::Other => Action::Idle,
    }
}

fn arm_selection(state: &mut AppState)
    ensures
        final(state)@ == arm_step(old(state)@),
{
    match state.active_menu_item {
        MenuItem::Search => {
            state.search_selection_mode = true;
            state.search_number_input.clear();
        },
        MenuItem::Playlists => {
            state.playlist_selection_mode = true;
            state.playlist_number_input.clear();
        },
        MenuItem::Home => {
            state.theme_selection_mode = true;
            state.theme_number_input.clear();
        },
        _ => {},
    }
}

fn digit_key(state: &mut AppState, digit: char)
    ensures
        final(state)@ == digit_step(old(state)@, digit),
{
    if state.search_selection_mode {
        grow_buffer(&mut state.search_number_input, digit);
    } else if state.playlist_selection_mode {
        grow_buffer(&mut state.playlist_number_input, digit);
    } else if state.theme_selection_mode {
        grow_buffer(&mut state.theme_number_input, digit);
    }
}

fn submit_search_selection(state: &mut AppState) -> (action: Action)
    ensures
        (final(state)@, action@) == submit_search(old(state)@),
{
    let choice = pick(state.search_number_input.as_str(), state.search_result.len());
    state.search_selection_mode = false;
    state.search_number_input.clear();
    match choice {
        Pick::Entry(at) => {
            let video_id = state.search_result[at].3.clone();
            let mut line = String::from_str("Playing video ");
            line.append(video_id.as_str());
            state.push_message(line);
            Action::PlayVideo { video_id }
        },
        Pick::OutOfRange => {
            state.say("Video number out of range.");
            Action::Idle
        },
        Pick::Invalid => {
            state.say("Invalid number input.");
            Action::Idle
        },
    }
}

fn submit_theme_selection(state: &mut AppState) -> (action: Action)
    ensures
        (final(state)@, action@) == submit_theme(old(state)@),
{
    let choice = pick(state.theme_number_input.as_str(), state.themes.len());
    state.theme_selection_mode = false;
    state.theme_number_input.clear();
    match choice {
        Pick::Entry(at) => Action::LoadTheme { path: state.themes[at].clone() },
        Pick::OutOfRange => {
            state.say("Theme number out of range.");
            Action::Idle
        },
        Pick::Invalid => {
            state.say("Invalid number input.");
            Action::Idle
        },
    }
}

fn submit_playlist_selection(state: &mut AppState, store: &TokenStore) -> (action: Action)
    ensures
        (final(state)@, action@) == submit_playlist(old(state)@, store@),
{
    let choice = pick(state.playlist_number_input.as_str(), state.playlists.len());
    state.playlist_selection_mode = false;
    state.playlist_number_input.clear();
    match choice {
        Pick::Entry(at) => match store.get() {
            Some(token) => Action::PlayPlaylist {
                access_token: token.access_token,
                playlist_id: state.playlists[at].1.clone(),
                title: state.playlists[at].0.clone(),
            },
            None => {
                state.say("No valid token.");
                Action::Idle
            },
        },
        Pick::OutOfRange => {
            state.say("Playlist number out of range.");
            Action::Idle
        },
        Pick::Invalid => {
            state.say("Invalid number input.");
            Action::Idle
        },
    }
}

fn submit_key(state: &mut AppState, store: &TokenStore) -> (action: Action)
    ensures
        (final(state)@, action@) == submit_step(old(state)@, store@),
{
    if state.search_selection_mode {
        submit_search_selection(state)
    } else if state.theme_selection_mode {
        submit_theme_selection(state)
    } else if state.playlist_selection_mode {
        submit_playlist_selection(state, store)
    } else {
        Action::Idle
    }
}

fn cancel_key(state: &mut AppState)
    ensures
        final(state)@ == cancel_step(old(state)@),
{
    if state.search_selection_mode {
        state.search_selection_mode = false;
        state.search_number_input.clear();
        state.say("Search selection cancelled.");
    } else if state.playlist_selection_mode {
        state.playlist_selection_mode = false;
        state.playlist_number_input.clear();
        state.say("Playlist selection cancelled.");
    } else if state.theme_selection_mode {
        state.theme_selection_mode = false;
        state.theme_number_input.clear();
        state.say("Theme selection cancelled.");
    }
}

fn char_key(state: &mut AppState, c: char, store: &TokenStore) -> (action: Action)
    ensures
        (final(state)@, action@) == char_step(old(state)@, c, store@),
{
    if c == 's' {
        state.active_menu_item = MenuItem::Search;
        state.search_input.clear();
        state.search_result.clear();
        state.search_attempted = false;
        state.search_typing = true;
        assert(rows(state.search_result@) =~= Seq::empty());
        Action::Idle
    } else if c == 'q' {
        Action::Quit
    } else if c == 'a' {
        state.messages.clear();
        state.authenticated = false;
        state.active_menu_item = MenuItem::Account;
        assert(texts(state.messages@) =~= Seq::empty());
        Action::Idle
    } else if c == 'c' {
        state.active_menu_item = MenuItem::Commands;
        Action::Idle
    } else if c == 'h' {
        state.active_menu_item = MenuItem::Home;
        Action::RefreshThemes
    } else if c == 'b' {
        arm_selection(state);
        Action::Idle
    } else if is_ascii_digit(c) {
        digit_key(state, c);
        Action::Idle
    } else if c == 'p' {
        state.active_menu_item = MenuItem::Playlists;
        match store.get() {
            Some(token) => Action::FetchPlaylists { access_token: token.access_token },
            None => {
                state.say(" Failed to fetch playlists");
                Action::Idle
            },
        }
    } else {
        Action::Idle
    }
}

/// Applies one event to the state and says what outside work it asks for.
/// Only a key changes anything here; the state after it, and the work, are
/// those of [`step`] on the cached token.
pub fn event_handler(event: Event<Key>, state: &mut AppState, store: &TokenStore) -> (action:
    Action)
    ensures
        match event {
            Event::Input(key) => (final(state)@, action@) == step(old(state)@, key, store@),
            _ => final(state)@ == old(state)@ && action@ == ActionView::Idle,
        },
        old(state)@.wf() ==> final(state)@.wf(),
{
    proof {
        if let Event::Input(key) = event {
            crate::invariants::lemma_step_keeps_buffers(old(state)@, key, store@);
        }
    }
    match event {
        Event::Input(key) => {
            if state.active_menu_item == MenuItem::Search && state.search_typing {
                typing_key(state, key, store)
            } else {
                match key {
                    Key::Char(c) => char_key(state, c, store),
                    Key::Enter => submit_key(state, store),
                    Key::Esc => {
                        cancel_key(state);
                        Action::Idle
                    },
                    _ => Action::Idle,
                }
            }
        },
        _ => Action::Idle,
    }
}

/// The state in which the loop starts: the Home screen, nothing typed,
/// nothing fetched, no selection armed, the default theme.
pub open spec fn initial_state() -> AppStateView {
    AppStateView {
        messages: Seq::empty(),
        authenticated: false,
        active_menu_item: MenuItem::Home,
        playlists: Seq::empty(),
        playlist_number_input: Seq::empty(),
        playlist_selection_mode: false,
        search_input: Seq::empty(),
        search_attempted: false,
        search_typing: false,
        search_result: Seq::empty(),
        search_selection_mode: false,
        search_number_input: Seq::empty(),
        selected_theme: crate::colors::default_theme(),
        themes: Seq::empty(),
        theme_selection_mode: false,
        theme_number_input: Seq::empty(),
        theme_selected_path: "themes/blue_theme.json"@,
    }
}

/// The state once a search has come back: its rows replace the old ones;
/// a failed search leaves them and is reported.
pub open spec fn search_outcome(
    s: AppStateView,
    found: Option<Seq<(Seq<char>, Seq<char>, Seq<char>, Seq<char>)>>,
) -> AppStateView {
    match found {
        Some(list) => AppStateView { search_result: list, ..s },
        None => s.with_message("Failed to search videos"@),
    }
}

/// The state once a playlist fetch has come back: the fetched list replaces
/// the old one; a failed fetch leaves it and is reported.
pub open spec fn playlists_outcome(
    s: AppStateView,
    fetched: Option<Seq<(Seq<char>, Seq<char>)>>,
) -> AppStateView {
    match fetched {
        Some(list) => AppStateView { playlists: list, ..s },
        None => s.with_message(" Failed to fetch playlists"@),
    }
}

/// The state once a theme file has been read: the theme is applied and the
/// success reported, or the failure is reported with its reason.
pub open spec fn theme_outcome(
    s: AppStateView,
    path: Seq<char>,
    loaded: Result<Theme, Seq<char>>,
) -> AppStateView {
    match loaded {
        Ok(theme) => AppStateView { selected_theme: theme, ..s }.with_message(
            "Theme "@ + path + " loaded successfully."@,
        ),
        Err(reason) => s.with_message("Failed to load theme: "@ + reason),
    }
}

impl AppState {
    /// The state in which the loop starts.
    pub fn new() -> (state: Self)
        ensures
            state@ == initial_state(),
            state@.wf(),
    {
        let state = AppState {
            messages: Vec::new(),
            authenticated: false,
            active_menu_item: MenuItem::Home,
            playlists: Vec::new(),
            playlist_number_input: String::new(),
            playlist_selection_mode: false,
            search_input: String::new(),
            search_attempted: false,
            search_typing: false,
            search_result: Vec::new(),
            search_selection_mode: false,
            search_number_input: String::new(),
            selected_theme: Theme::new(),
            themes: Vec::new(),
            theme_selection_mode: false,
            theme_number_input: String::new(),
            theme_selected_path: String::from_str("themes/blue_theme.json"),
        };
        assert(texts(state.messages@) =~= Seq::empty());
        assert(texts(state.themes@) =~= Seq::empty());
        assert(pairs(state.playlists@) =~= Seq::empty());
        assert(rows(state.search_result@) =~= Seq::empty());
        state
    }

    /// Folds the outcome of a search into the state.
    pub fn search_finished(&mut self, found: Option<Vec<(String, String, String, String)>>)
        ensures
            final(self)@ == search_outcome(
                old(self)@,
                match found {
                    Some(list) => Some(rows(list@)),
                    None => None,
                },
            ),
    {
        match found {
            Some(list) => {
                self.search_result = list;
            },
            None => {
                self.say("Failed to search videos");
            },
        }
    }

    /// Folds the outcome of a playlist fetch into the state.
    pub fn playlists_fetched(&mut self, fetched: Option<Vec<(String, String)>>)
        ensures
            final(self)@ == playlists_outcome(
                old(self)@,
                match fetched {
                    Some(list) => Some(pairs(list@)),
                    None => None,
                },
            ),
    {
        match fetched {
            Some(list) => {
                self.playlists = list;
            },
            None => {
                self.say(" Failed to fetch playlists");
            },
        }
    }

    /// Replaces the list of available themes.
    pub fn themes_refreshed(&mut self, themes: Vec<String>)
        ensures
            final(self)@ == (AppStateView { themes: texts(themes@), ..old(self)@ }),
    {
        self.themes = themes;
    }

    /// Folds the outcome of reading the theme file at `path` into the state.
    pub fn theme_loaded(&mut self, path: &str, loaded: Result<Theme, String>)
        ensures
            final(self)@ == theme_outcome(
                old(self)@,
                path@,
                match loaded {
                    Ok(theme) => Ok(theme),
                    Err(reason) => Err(reason@),
                },
            ),
    {
        match loaded {
            Ok(theme) => {
                self.selected_theme = theme;
                let mut line = String::from_str("Theme ");
                line.append(path);
                line.append(" loaded successfully.");
                self.push_message(line);
            },
            Err(reason) => {
                let mut line = String::from_str("Failed to load theme: ");
                line.append(reason.as_str());
                self.push_message(line);
            },
        }
    }

    /// Reports that the playlist called `title` has been played.
    pub fn playlist_played(&mut self, title: &str)
        ensures
            final(self)@ == old(self)@.with_message("Playing playlist: "@ + title@),
    {
        let mut line = String::from_str("Playing playlist: ");
        line.append(title);
        self.push_message(line);
    }
}

} // verus!
