//! What holds of the dispatcher on every state and every run of keys.

use vstd::prelude::*;
use crate::app_state::{
    buffer_with_digit, picked, step, ActionView, AppStateView, Key, MenuItem, TokenView,
    DIGIT_BUFFER_CAP,
};
use crate::text::{all_digits, is_digit};

verus! {

/// The state after a run of keys, each dispatched with the same cached token.
pub open spec fn after_keys(s: AppStateView, keys: Seq<Key>, token: Option<TokenView>) -> AppStateView
    decreases keys.len(),
{
    if keys.len() == 0 {
        s
    } else {
        step(after_keys(s, keys.drop_last(), token), keys.last(), token).0
    }
}

/// The three selections that a digit buffer belongs to.
pub enum Selection {
    Search,
    Playlist,
    Theme,
}

impl AppStateView {
    /// No digit buffer holds more than two characters.
    pub open spec fn bounded(self) -> bool {
        &&& self.playlist_number_input.len() <= DIGIT_BUFFER_CAP
        &&& self.search_number_input.len() <= DIGIT_BUFFER_CAP
        &&& self.theme_number_input.len() <= DIGIT_BUFFER_CAP
    }

    /// The flag of a selection.
    pub open spec fn armed(self, which: Selection) -> bool {
        match which {
            Selection::Search => self.search_selection_mode,
            Selection::Playlist => self.playlist_selection_mode,
            Selection::Theme => self.theme_selection_mode,
        }
    }

    /// The digit buffer of a selection.
    pub open spec fn buffer(self, which: Selection) -> Seq<char> {
        match which {
            Selection::Search => self.search_number_input,
            Selection::Playlist => self.playlist_number_input,
            Selection::Theme => self.theme_number_input,
        }
    }

    /// The length of the list that a selection picks from.
    pub open spec fn list_len(self, which: Selection) -> nat {
        match which {
            Selection::Search => self.search_result.len(),
            Selection::Playlist => self.playlists.len(),
            Selection::Theme => self.themes.len(),
        }
    }

    /// The query line is not taking the keys, and `which` is the selection
    /// that both digits and Enter go to: it is armed, and no selection that
    /// comes before it for either key is.
    pub open spec fn selecting(self, which: Selection) -> bool {
        &&& !self.typing()
        &&& match which {
            Selection::Search => self.search_selection_mode,
            Selection::Playlist => !self.search_selection_mode && self.playlist_selection_mode
                && !self.theme_selection_mode,
            Selection::Theme => !self.search_selection_mode && !self.playlist_selection_mode
                && self.theme_selection_mode,
        }
    }

    /// The state with the digit buffer of `which` replaced.
    pub open spec fn with_buffer(self, which: Selection, buffer: Seq<char>) -> AppStateView {
        match which {
            Selection::Search => AppStateView { search_number_input: buffer, ..self },
            Selection::Playlist => AppStateView { playlist_number_input: buffer, ..self },
            Selection::Theme => AppStateView { theme_number_input: buffer, ..self },
        }
    }

    /// The state with the selection `which` disarmed, its buffer emptied
    /// and one more status line; nothing else differs.
    pub open spec fn closed_with(self, which: Selection, line: Seq<char>) -> AppStateView {
        match which {
            Selection::Search => AppStateView {
                search_selection_mode: false,
                search_number_input: Seq::empty(),
                messages: self.messages.push(line),
                ..self
            },
            Selection::Playlist => AppStateView {
                playlist_selection_mode: false,
                playlist_number_input: Seq::empty(),
                messages: self.messages.push(line),
                ..self
            },
            Selection::Theme => AppStateView {
                theme_selection_mode: false,
                theme_number_input: Seq::empty(),
                messages: self.messages.push(line),
                ..self
            },
        }
    }
}

/// The line that reports an index beyond the list of a selection.
pub open spec fn out_of_range_line(which: Selection) -> Seq<char> {
    match which {
        Selection::Search => "Video number out of range."@,
        Selection::Playlist => "Playlist number out of range."@,
        Selection::Theme => "Theme number out of range."@,
    }
}

/// The keys that type a text, one per character.
pub open spec fn char_keys(text: Seq<char>) -> Seq<Key>
    decreases text.len(),
{
    if text.len() == 0 {
        Seq::empty()
    } else {
        char_keys(text.drop_last()).push(Key::Char(text.last()))
    }
}

/// One key keeps every digit buffer within two characters, and keeps the
/// buffers made of digits.
pub proof fn lemma_step_keeps_buffers(s: AppStateView, key: Key, token: Option<TokenView>)
    ensures
        s.bounded() ==> step(s, key, token).0.bounded(),
        s.wf() ==> step(s, key, token).0.wf(),
{
    if let Key::Char(c) = key {
        if is_digit(c) {
            lemma_digit_keeps(s.search_number_input, c);
            lemma_digit_keeps(s.playlist_number_input, c);
            lemma_digit_keeps(s.theme_number_input, c);
        }
    }
}

proof fn lemma_digit_keeps(buffer: Seq<char>, digit: char)
    requires
        is_digit(digit),
    ensures
        buffer.len() <= DIGIT_BUFFER_CAP ==> buffer_with_digit(buffer, digit).len()
            <= DIGIT_BUFFER_CAP,
        all_digits(buffer) ==> all_digits(buffer_with_digit(buffer, digit)),
{
}

/// However many keys are sent, digits or others, no digit buffer ever
/// holds more than two characters, and the buffers stay made of digits.
pub proof fn lemma_buffers_never_overflow(s: AppStateView, keys: Seq<Key>, token: Option<TokenView>)
    ensures
        s.bounded() ==> after_keys(s, keys, token).bounded(),
        s.wf() ==> after_keys(s, keys, token).wf(),
    decreases keys.len(),
{
    if keys.len() > 0 {
        lemma_buffers_never_overflow(s, keys.drop_last(), token);
        lemma_step_keeps_buffers(after_keys(s, keys.drop_last(), token), keys.last(), token);
    }
}

/// Outside the query line, `s` opens Search mode with an empty query, no
/// results and no search attempted, whatever the state was.
pub proof fn lemma_search_key_resets(s: AppStateView, token: Option<TokenView>)
    requires
        !s.typing(),
    ensures
        ({
            let (after, action) = step(s, Key::Char('s'), token);
            &&& after.active_menu_item == MenuItem::Search
            &&& after.search_input == Seq::<char>::empty()
            &&& after.search_result == Seq::<(Seq<char>, Seq<char>, Seq<char>, Seq<char>)>::empty()
            &&& after.search_attempted == false
            &&& after.search_typing
            &&& action == ActionView::Idle
        }),
{
}

/// The loop is asked to end by `q` outside the query line, and by nothing
/// else; the key that asks for it changes nothing.
pub proof fn lemma_quit_only_by_q(s: AppStateView, key: Key, token: Option<TokenView>)
    ensures
        step(s, key, token).1 is Quit <==> !s.typing() && key == Key::Char('q'),
        step(s, key, token).1 is Quit ==> step(s, key, token).0 == s,
{
}

/// Enter on a selection whose buffer holds a number that is zero or beyond
/// the list disarms the selection, empties its buffer and appends the one
/// line that says so; nothing else changes and no work is asked for.
pub proof fn lemma_out_of_range_submit(s: AppStateView, which: Selection, token: Option<TokenView>)
    requires
        s.selecting(which),
        picked(s.buffer(which), s.list_len(which)) is OutOfRange,
    ensures
        step(s, Key::Enter, token) == (
            s.closed_with(which, out_of_range_line(which)),
            ActionView::Idle,
        ),
{
}

/// Digits typed into a selection whose buffer has room for them all are
/// appended to that buffer, and change nothing else.
pub proof fn lemma_digits_fill_buffer(
    s: AppStateView,
    which: Selection,
    digits: Seq<char>,
    token: Option<TokenView>,
)
    requires
        s.selecting(which),
        all_digits(digits),
        s.buffer(which).len() + digits.len() <= DIGIT_BUFFER_CAP,
    ensures
        after_keys(s, char_keys(digits), token) == s.with_buffer(which, s.buffer(which) + digits),
    decreases digits.len(),
{
    if digits.len() == 0 {
        assert(s.buffer(which) + digits =~= s.buffer(which));
    } else {
        let front = digits.drop_last();
        let d = digits.last();
        assert(char_keys(digits).drop_last() =~= char_keys(front));
        assert(char_keys(digits).last() == Key::Char(d));
        assert(is_digit(d));
        lemma_digits_fill_buffer(s, which, front, token);
        let typed = s.with_buffer(which, s.buffer(which) + front);
        assert(typed.selecting(which));
        assert((s.buffer(which) + front).push(d) =~= s.buffer(which) + digits);
        assert(step(typed, Key::Char(d), token).0 == s.with_buffer(which, s.buffer(which) + digits));
    }
}

/// At most two digits typed into a freshly armed selection and then Enter:
/// where the number typed is zero or beyond the list, the selection is
/// disarmed, its buffer emptied and the one line that says so appended;
/// the lists, and everything else, stay as they were.
pub proof fn lemma_digits_then_enter_out_of_range(
    s: AppStateView,
    which: Selection,
    digits: Seq<char>,
    token: Option<TokenView>,
)
    requires
        s.selecting(which),
        s.buffer(which).len() == 0,
        all_digits(digits),
        digits.len() <= DIGIT_BUFFER_CAP,
        picked(digits, s.list_len(which)) is OutOfRange,
    ensures
        after_keys(s, char_keys(digits).push(Key::Enter), token) == s.closed_with(
            which,
            out_of_range_line(which),
        ),
        ({
            let after = after_keys(s, char_keys(digits).push(Key::Enter), token);
            &&& !after.armed(which)
            &&& after.buffer(which).len() == 0
            &&& after.messages == s.messages.push(out_of_range_line(which))
            &&& after.playlists == s.playlists
            &&& after.search_result == s.search_result
            &&& after.themes == s.themes
        }),
{
    let keys = char_keys(digits).push(Key::Enter);
    assert(keys.drop_last() =~= char_keys(digits));
    lemma_digits_fill_buffer(s, which, digits, token);
    assert(s.buffer(which) + digits =~= digits);
    let typed = s.with_buffer(which, digits);
    lemma_out_of_range_submit(typed, which, token);
    assert(typed.closed_with(which, out_of_range_line(which)) == s.closed_with(
        which,
        out_of_range_line(which),
    ));
}

} // verus!
