//! The views: what each screen shows, as styled lines of text in a titled
//! box, computed from the theme and the part of the state that the screen
//! reads.

use vstd::prelude::*;
use crate::app_state::{pairs, rows, texts};
use crate::colors::{Color, Theme};
use crate::text::{
    chars_of, decimal_digits, is_ascii_digit, is_digit, parse_decimal_chars, parse_unsigned,
    push_decimal, push_two_digits, two_digits,
};
use vstd::string::StringExecFns;

verus! {

/// A run of text in one style.
#[derive(Debug, PartialEq, Eq)]
pub struct Span {
    pub content: String,
    /// The foreground color, where the text does not keep that of its box.
    pub color: Option<Color>,
    pub bold: bool,
}

/// The mathematical content of a [`Span`].
pub struct SpanView {
    pub content: Seq<char>,
    pub color: Option<Color>,
    pub bold: bool,
}

impl View for Span {
    type V = SpanView;

    open spec fn view(&self) -> SpanView {
        SpanView { content: self.content@, color: self.color, bold: self.bold }
    }
}

/// Unstyled text.
pub open spec fn raw(content: Seq<char>) -> SpanView {
    SpanView { content, color: None, bold: false }
}

/// Colored text.
pub open spec fn styled(content: Seq<char>, color: Color) -> SpanView {
    SpanView { content, color: Some(color), bold: false }
}

/// Colored bold text.
pub open spec fn strong(content: Seq<char>, color: Color) -> SpanView {
    SpanView { content, color: Some(color), bold: true }
}

impl Span {
    pub fn raw(content: String) -> (span: Span)
        ensures
            span@ == raw(content@),
    {
        Span { content, color: None, bold: false }
    }

    pub fn styled(content: String, color: Color) -> (span: Span)
        ensures
            span@ == styled(content@, color),
    {
        Span { content, color: Some(color), bold: false }
    }

    pub fn strong(content: String, color: Color) -> (span: Span)
        ensures
            span@ == strong(content@, color),
    {
        Span { content, color: Some(color), bold: true }
    }
}

/// How the lines stand in the box.
#[derive(Copy, Clone, Debug, PartialEq, Eq, Structural)]
pub enum Alignment {
    Left,
    Center,
}

/// Whether long lines are wrapped, and whether wrapping trims them.
#[derive(Copy, Clone, Debug, PartialEq, Eq, Structural)]
pub enum Wrap {
    Off,
    Trim,
    Keep,
}

/// Lines of styled text in a bordered, titled box.
#[derive(Debug, PartialEq, Eq)]
pub struct Paragraph {
    pub lines: Vec<Vec<Span>>,
    pub alignment: Alignment,
    pub wrap: Wrap,
    pub title: String,
    pub box_color: Color,
}

/// The contents of the spans of one line.
pub open spec fn line_view(line: Seq<Span>) -> Seq<SpanView> {
    line.map_values(|s: Span| s@)
}

/// The contents of a list of lines.
pub open spec fn lines_view(lines: Seq<Vec<Span>>) -> Seq<Seq<SpanView>> {
    lines.map_values(|l: Vec<Span>| line_view(l@))
}

/// The mathematical content of a [`Paragraph`].
pub struct ParagraphView {
    pub lines: Seq<Seq<SpanView>>,
    pub alignment: Alignment,
    pub wrap: Wrap,
    pub title: Seq<char>,
    pub box_color: Color,
}

impl View for Paragraph {
    type V = ParagraphView;

    open spec fn view(&self) -> ParagraphView {
        ParagraphView {
            lines: lines_view(self.lines@),
            alignment: self.alignment,
            wrap: self.wrap,
            title: self.title@,
            box_color: self.box_color,
        }
    }
}

fn line_of_one(a: Span) -> (line: Vec<Span>)
    ensures
        line_view(line@) == seq![a@],
{
    let mut line: Vec<Span> = Vec::new();
    line.push(a);
    assert(line_view(line@) =~= seq![a@]);
    line
}

fn line_of_two(a: Span, b: Span) -> (line: Vec<Span>)
    ensures
        line_view(line@) == seq![a@, b@],
{
    let mut line: Vec<Span> = Vec::new();
    line.push(a);
    line.push(b);
    assert(line_view(line@) =~= seq![a@, b@]);
    line
}

fn line_of_three(a: Span, b: Span, c: Span) -> (line: Vec<Span>)
    ensures
        line_view(line@) == seq![a@, b@, c@],
{
    let mut line: Vec<Span> = Vec::new();
    line.push(a);
    line.push(b);
    line.push(c);
    assert(line_view(line@) =~= seq![a@, b@, c@]);
    line
}

fn push_line(lines: &mut Vec<Vec<Span>>, line: Vec<Span>)
    ensures
        lines_view(final(lines)@) == lines_view(old(lines)@).push(line_view(line@)),
{
    lines.push(line);
    assert(lines_view(lines@) =~= lines_view(old(lines)@).push(line_view(line@)));
}

fn plain_line(text: &str) -> (line: Vec<Span>)
    ensures
        line_view(line@) == seq![raw(text@)],
{
    line_of_one(Span::raw(String::from_str(text)))
}

fn colored_line(text: &str, color: Color) -> (line: Vec<Span>)
    ensures
        line_view(line@) == seq![styled(text@, color)],
{
    line_of_one(Span::styled(String::from_str(text), color))
}

/// The largest count that one field of a duration can hold.
pub const MAX_FIELD: u64 = 0x7fff_ffff;

/// What has been read of a duration so far: the three fields, and the
/// digits that wait for their unit letter.
pub struct Clock {
    pub hours: nat,
    pub minutes: nat,
    pub seconds: nat,
    pub pending: Seq<char>,
}

/// A field after its unit letter: the number that the waiting digits write,
/// or the field as it was where they write none that fits.
pub open spec fn field_after(field: nat, pending: Seq<char>) -> nat {
    match parse_unsigned(pending, MAX_FIELD as nat) {
        Some(n) => n,
        None => field,
    }
}

/// One more character of a duration: `P` and `T` are skipped, a digit
/// waits, `H`, `M` and `S` close a field and drop the waiting digits, and
/// anything else changes nothing.
pub open spec fn clock_step(k: Clock, c: char) -> Clock {
    if c == 'P' || c == 'T' {
        k
    } else if is_digit(c) {
        Clock { pending: k.pending.push(c), ..k }
    } else if c == 'H' {
        Clock { hours: field_after(k.hours, k.pending), pending: Seq::empty(), ..k }
    } else if c == 'M' {
        Clock { minutes: field_after(k.minutes, k.pending), pending: Seq::empty(), ..k }
    } else if c == 'S' {
        Clock { seconds: field_after(k.seconds, k.pending), pending: Seq::empty(), ..k }
    } else {
        k
    }
}

/// What a whole duration text reads as.
pub open spec fn clock_of(text: Seq<char>) -> Clock
    decreases text.len(),
{
    if text.len() == 0 {
        Clock { hours: 0, minutes: 0, seconds: 0, pending: Seq::empty() }
    } else {
        clock_step(clock_of(text.drop_last()), text.last())
    }
}

/// A clock as `h:mm:ss`, or as `m:ss` where it has no hours.
pub open spec fn clock_text(k: Clock) -> Seq<char> {
    if k.hours > 0 {
        decimal_digits(k.hours) + seq![':'] + two_digits(k.minutes) + seq![':'] + two_digits(
            k.seconds,
        )
    } else {
        decimal_digits(k.minutes) + seq![':'] + two_digits(k.seconds)
    }
}

/// The display form of a duration such as `PT1H2M3S`.
pub open spec fn duration_text(raw: Seq<char>) -> Seq<char> {
    clock_text(clock_of(raw))
}

fn close_field(field: u64, pending: &Vec<char>) -> (after: u64)
    requires
        field <= MAX_FIELD,
    ensures
        after == field_after(field as nat, pending@),
        after <= MAX_FIELD,
{
    match parse_decimal_chars(pending, MAX_FIELD) {
        Some(n) => n,
        None => field,
    }
}

/// Formats a duration such as `PT1H2M3S` as `1:02:03`, and one without
/// hours, such as `PT4M5S`, as `4:05`.
pub fn parse_iso8601_duration(duration: &str) -> (shown: String)
    ensures
        shown@ == duration_text(duration@),
{
    let chars = chars_of(duration);
    let mut hours: u64 = 0;
    let mut minutes: u64 = 0;
    let mut seconds: u64 = 0;
    let mut pending: Vec<char> = Vec::new();
    let mut i: usize = 0;
    assert(chars@.take(0) =~= Seq::<char>::empty());
    while i < chars.len()
        invariant
            i <= chars@.len(),
            hours <= MAX_FIELD,
            minutes <= MAX_FIELD,
            seconds <= MAX_FIELD,
            clock_of(chars@.take(i as int)) == (Clock {
                hours: hours as nat,
                minutes: minutes as nat,
                seconds: seconds as nat,
                pending: pending@,
            }),
        decreases chars@.len() - i,
    {
        let c: char = chars[i];
        proof {
            let next = chars@.take(i + 1);
            assert(next.drop_last() =~= chars@.take(i as int));
            assert(next.last() == c);
        }
        if c == 'P' || c == 'T' {
        } else if is_ascii_digit(c) {
            pending.push(c);
        } else if c == 'H' {
            hours = close_field(hours, &pending);
            pending.clear();
        } else if c == 'M' {
            minutes = close_field(minutes, &pending);
            pending.clear();
        } else if c == 'S' {
            seconds = close_field(seconds, &pending);
            pending.clear();
        }
        i = i + 1;
    }
    assert(chars@.take(chars@.len() as int) =~= chars@);
    let mut shown = String::new();
    if hours > 0 {
        push_decimal(&mut shown, hours);
        shown.push(':');
        push_two_digits(&mut shown, minutes);
        shown.push(':');
        push_two_digits(&mut shown, seconds);
    } else {
        push_decimal(&mut shown, minutes);
        shown.push(':');
        push_two_digits(&mut shown, seconds);
    }
    assert(shown@ =~= duration_text(duration@));
    shown
}

/// The label in front of the entry at position `at`, counted from zero:
/// its number, at least two digits wide, a dot and a space.
pub open spec fn number_label(at: int) -> Seq<char> {
    two_digits((at + 1) as nat) + ". "@
}

fn make_number_label(at: usize) -> (label: String)
    requires
        at < usize::MAX,
    ensures
        label@ == number_label(at as int),
{
    let mut label = String::new();
    push_two_digits(&mut label, (at + 1) as u64);
    label.append(". ");
    assert(label@ =~= number_label(at as int));
    label
}

/// The line of the theme at position `at`.
pub open spec fn theme_row(theme: Theme, at: int, title: Seq<char>) -> Seq<SpanView> {
    seq![
        styled(number_label(at), theme.playlist_number.0),
        strong(title, theme.playlist_name.0),
        raw(" (ID: "@ + decimal_digits((at + 1) as nat) + ")"@),
    ]
}

/// The lines of the first `count` themes.
pub open spec fn theme_rows(theme: Theme, themes: Seq<Seq<char>>, count: int) -> Seq<
    Seq<SpanView>,
> {
    Seq::new(count as nat, |at: int| theme_row(theme, at, themes[at]))
}

/// The prompt line of an armed selection: the question, and what has been
/// typed so far.
pub open spec fn prompt_row(question: Seq<char>, typed: Seq<char>, color: Color) -> Seq<SpanView> {
    seq![raw(question), strong(typed, color)]
}

/// The prompt line where the selection is armed, nothing where it is not.
pub open spec fn prompt_rows(armed: bool, question: Seq<char>, typed: Seq<char>, color: Color)
    -> Seq<Seq<SpanView>> {
    if armed {
        seq![prompt_row(question, typed, color)]
    } else {
        Seq::empty()
    }
}

fn push_prompt(lines: &mut Vec<Vec<Span>>, armed: bool, question: &str, typed: &str, color: Color)
    ensures
        lines_view(final(lines)@) == lines_view(old(lines)@) + prompt_rows(
            armed,
            question@,
            typed@,
            color,
        ),
{
    if armed {
        let line = line_of_two(
            Span::raw(String::from_str(question)),
            Span::strong(String::from_str(typed), color),
        );
        push_line(lines, line);
        assert(lines_view(lines@) =~= lines_view(old(lines)@) + prompt_rows(
            armed,
            question@,
            typed@,
            color,
        ));
    } else {
        assert(lines_view(lines@) =~= lines_view(old(lines)@) + prompt_rows(
            armed,
            question@,
            typed@,
            color,
        ));
    }
}

/// What the Home screen shows: a welcome, then the themes by number or,
/// where none is known, the hint to list them, then the selection prompt
/// while the selection is armed.
pub open spec fn home_view(theme: Theme, themes: Seq<Seq<char>>, selecting: bool, typed: Seq<char>)
    -> ParagraphView {
    ParagraphView {
        lines: seq![
            seq![styled("Welcome to the YouTube TUI client!"@, theme.home_text.0)],
            seq![raw(""@)],
        ] + (if themes.len() == 0 {
            seq![
                seq![
                    styled(
                        "Please press 'h' again to select your theme."@,
                        theme.account_auth_failure.0,
                    ),
                ],
            ]
        } else {
            theme_rows(theme, themes, themes.len() as int)
        }) + prompt_rows(selecting, "Select a theme by number: "@, typed, theme.playlist_number.0),
        alignment: Alignment::Left,
        wrap: Wrap::Trim,
        title: "Themes"@,
        box_color: theme.playlist_box.0,
    }
}

pub fn render_home(
    theme: &Theme,
    themes: &[String],
    theme_selection_mode: bool,
    theme_number_input: &str,
) -> (shown: Paragraph)
    ensures
        shown@ == home_view(*theme, texts(themes@), theme_selection_mode, theme_number_input@),
{
    let mut lines: Vec<Vec<Span>> = Vec::new();
    assert(lines_view(lines@) =~= Seq::empty());
    push_line(&mut lines, colored_line("Welcome to the YouTube TUI client!", theme.home_text.0));
    push_line(&mut lines, plain_line(""));
    let ghost head = lines_view(lines@);
    let ghost titles = texts(themes@);
    if themes.len() == 0 {
        push_line(
            &mut lines,
            colored_line(
                "Please press 'h' again to select your theme.",
                theme.account_auth_failure.0,
            ),
        );
    } else {
        let mut at: usize = 0;
        assert(theme_rows(*theme, titles, 0) =~= Seq::empty());
        while at < themes.len()
            invariant
                at <= themes@.len(),
                titles == texts(themes@),
                lines_view(lines@) == head + theme_rows(*theme, titles, at as int),
            decreases themes@.len() - at,
        {
            let mut id = String::from_str(" (ID: ");
            push_decimal(&mut id, (at + 1) as u64);
            id.append(")");
            let line = line_of_three(
                Span::styled(make_number_label(at), theme.playlist_number.0),
                Span::strong(themes[at].clone(), theme.playlist_name.0),
                Span::raw(id),
            );
            assert(line_view(line@) == theme_row(*theme, at as int, titles[at as int]));
            push_line(&mut lines, line);
            assert(theme_rows(*theme, titles, at + 1) =~= theme_rows(*theme, titles, at as int).push(
                theme_row(*theme, at as int, titles[at as int]),
            ));
            at = at + 1;
        }
    }
    push_prompt(
        &mut lines,
        theme_selection_mode,
        "Select a theme by number: ",
        theme_number_input,
        theme.playlist_number.0,
    );
    let shown = Paragraph {
        lines,
        alignment: Alignment::Left,
        wrap: Wrap::Trim,
        title: String::from_str("Themes"),
        box_color: theme.playlist_box.0,
    };
    assert(shown@.lines =~= home_view(
        *theme,
        texts(themes@),
        theme_selection_mode,
        theme_number_input@,
    ).lines);
    shown
}

/// The line of the playlist at position `at`.
pub open spec fn playlist_row(theme: Theme, at: int, entry: (Seq<char>, Seq<char>)) -> Seq<
    SpanView,
> {
    seq![
        styled(number_label(at), theme.playlist_number.0),
        strong(entry.0, theme.playlist_name.0),
        raw(" (ID: "@ + entry.1 + ")"@),
    ]
}

/// The lines of the first `count` playlists.
pub open spec fn playlist_rows(theme: Theme, playlists: Seq<(Seq<char>, Seq<char>)>, count: int)
    -> Seq<Seq<SpanView>> {
    Seq::new(count as nat, |at: int| playlist_row(theme, at, playlists[at]))
}

/// What the Playlists screen shows: the playlists by number or, where
/// there is none, a line that says so, then the selection prompt while the
/// selection is armed.
pub open spec fn playlists_view(
    theme: Theme,
    playlists: Seq<(Seq<char>, Seq<char>)>,
    selecting: bool,
    typed: Seq<char>,
) -> ParagraphView {
    ParagraphView {
        lines: (if playlists.len() == 0 {
            seq![seq![styled("No playlists found."@, theme.account_auth_failure.0)]]
        } else {
            playlist_rows(theme, playlists, playlists.len() as int)
        }) + prompt_rows(selecting, "Select playlist by number: "@, typed, theme.playlist_number.0),
        alignment: Alignment::Left,
        wrap: Wrap::Trim,
        title: "Playlists"@,
        box_color: theme.playlist_box.0,
    }
}

pub fn render_playlists(
    theme: &Theme,
    playlists: &[(String, String)],
    playlist_selection_mode: bool,
    playlist_number_input: &str,
) -> (shown: Paragraph)
    ensures
        shown@ == playlists_view(
            *theme,
            pairs(playlists@),
            playlist_selection_mode,
            playlist_number_input@,
        ),
{
    let mut lines: Vec<Vec<Span>> = Vec::new();
    assert(lines_view(lines@) =~= Seq::empty());
    let ghost entries = pairs(playlists@);
    if playlists.len() == 0 {
        push_line(&mut lines, colored_line("No playlists found.", theme.account_auth_failure.0));
    } else {
        let mut at: usize = 0;
        assert(playlist_rows(*theme, entries, 0) =~= Seq::empty());
        while at < playlists.len()
            invariant
                at <= playlists@.len(),
                entries == pairs(playlists@),
                lines_view(lines@) == playlist_rows(*theme, entries, at as int),
            decreases playlists@.len() - at,
        {
            let mut id = String::from_str(" (ID: ");
            id.append(playlists[at].1.as_str());
            id.append(")");
            let line = line_of_three(
                Span::styled(make_number_label(at), theme.playlist_number.0),
                Span::strong(playlists[at].0.clone(), theme.playlist_name.0),
                Span::raw(id),
            );
            assert(line_view(line@) == playlist_row(*theme, at as int, entries[at as int]));
            push_line(&mut lines, line);
            assert(playlist_rows(*theme, entries, at + 1) =~= playlist_rows(
                *theme,
                entries,
                at as int,
            ).push(playlist_row(*theme, at as int, entries[at as int])));
            at = at + 1;
        }
    }
    push_prompt(
        &mut lines,
        playlist_selection_mode,
        "Select playlist by number: ",
        playlist_number_input,
        theme.playlist_number.0,
    );
    Paragraph {
        lines,
        alignment: Alignment::Left,
        wrap: Wrap::Trim,
        title: String::from_str("Playlists"),
        box_color: theme.playlist_box.0,
    }
}

/// The lines of the first `count` status messages, one unstyled line each.
pub open spec fn message_rows(messages: Seq<Seq<char>>, count: int) -> Seq<Seq<SpanView>> {
    Seq::new(count as nat, |at: int| seq![raw(messages[at])])
}

/// What the Account screen shows: a heading between two empty lines, then
/// every status message in order.
pub open spec fn accounts_view(theme: Theme, messages: Seq<Seq<char>>) -> ParagraphView {
    ParagraphView {
        lines: seq![
            seq![raw(""@)],
            seq![strong("Your YouTube account info will appear here:"@, theme.account_info.0)],
            seq![raw(""@)],
        ] + message_rows(messages, messages.len() as int),
        alignment: Alignment::Left,
        wrap: Wrap::Keep,
        title: "Account"@,
        box_color: theme.account_box.0,
    }
}

pub fn render_accounts(theme: &Theme, messages: &[String]) -> (shown: Paragraph)
    ensures
        shown@ == accounts_view(*theme, texts(messages@)),
{
    let mut lines: Vec<Vec<Span>> = Vec::new();
    assert(lines_view(lines@) =~= Seq::empty());
    push_line(&mut lines, plain_line(""));
    push_line(
        &mut lines,
        line_of_one(
            Span::strong(
                String::from_str("Your YouTube account info will appear here:"),
                theme.account_info.0,
            ),
        ),
    );
    push_line(&mut lines, plain_line(""));
    let ghost head = lines_view(lines@);
    let ghost shown_messages = texts(messages@);
    let mut at: usize = 0;
    assert(message_rows(shown_messages, 0) =~= Seq::empty());
    while at < messages.len()
        invariant
            at <= messages@.len(),
            shown_messages == texts(messages@),
            lines_view(lines@) == head + message_rows(shown_messages, at as int),
        decreases messages@.len() - at,
    {
        push_line(&mut lines, line_of_one(Span::raw(messages[at].clone())));
        assert(message_rows(shown_messages, at + 1) =~= message_rows(
            shown_messages,
            at as int,
        ).push(seq![raw(shown_messages[at as int])]));
        at = at + 1;
    }
    let shown = Paragraph {
        lines,
        alignment: Alignment::Left,
        wrap: Wrap::Keep,
        title: String::from_str("Account"),
        box_color: theme.account_box.0,
    };
    assert(shown@.lines =~= accounts_view(*theme, texts(messages@)).lines);
    shown
}

/// What the Commands screen shows: the list of keys, its lines colored in
/// turn.
pub open spec fn commands_view(theme: Theme) -> ParagraphView {
    let even = theme.command_text_even.0;
    let odd = theme.command_text_odd.0;
    ParagraphView {
        lines: seq![
            seq![raw(""@)],
            seq![styled("Current commands:"@, even)],
            seq![raw(""@)],
            seq![styled("q: to quit"@, odd)],
            seq![styled("a: to show accounts"@, even)],
            seq![styled("c: to show this commands message"@, odd)],
            seq![styled("h: to go to the home tab"@, even)],
            seq![styled("p: to show playlists"@, odd)],
            seq![styled("v: to show videos in playlists"@, even)],
            seq![styled("s: to search yt"@, odd)],
            seq![
                styled(
                    "b: to bind a playlist or theme to be the selected playlist or theme"@,
                    even,
                ),
            ],
            seq![styled("press 'q' while playing playlists to skip the current song"@, odd)],
        ],
        alignment: Alignment::Center,
        wrap: Wrap::Off,
        title: "Commands"@,
        box_color: theme.command_box.0,
    }
}

pub fn render_commands(theme: &Theme) -> (shown: Paragraph)
    ensures
        shown@ == commands_view(*theme),
{
    let even = theme.command_text_even.0;
    let odd = theme.command_text_odd.0;
    let mut lines: Vec<Vec<Span>> = Vec::new();
    assert(lines_view(lines@) =~= Seq::empty());
    push_line(&mut lines, plain_line(""));
    push_line(&mut lines, colored_line("Current commands:", even));
    push_line(&mut lines, plain_line(""));
    push_line(&mut lines, colored_line("q: to quit", odd));
    push_line(&mut lines, colored_line("a: to show accounts", even));
    push_line(&mut lines, colored_line("c: to show this commands message", odd));
    push_line(&mut lines, colored_line("h: to go to the home tab", even));
    push_line(&mut lines, colored_line("p: to show playlists", odd));
    push_line(&mut lines, colored_line("v: to show videos in playlists", even));
    push_line(&mut lines, colored_line("s: to search yt", odd));
    push_line(
        &mut lines,
        colored_line("b: to bind a playlist or theme to be the selected playlist or theme", even),
    );
    push_line(
        &mut lines,
        colored_line("press 'q' while playing playlists to skip the current song", odd),
    );
    let shown = Paragraph {
        lines,
        alignment: Alignment::Center,
        wrap: Wrap::Off,
        title: String::from_str("Commands"),
        box_color: theme.command_box.0,
    };
    assert(shown@.lines =~= commands_view(*theme).lines);
    shown
}

/// The line of the search result at position `at`.
pub open spec fn search_row(
    theme: Theme,
    at: int,
    entry: (Seq<char>, Seq<char>, Seq<char>, Seq<char>),
) -> Seq<SpanView> {
    seq![
        styled(number_label(at), theme.search_number.0),
        strong(entry.0, theme.search_name.0),
        styled(" by "@, theme.search_uploader.0),
        styled(entry.2, theme.search_number.0),
        styled(" ["@ + duration_text(entry.1) + "]"@, theme.search_name.0),
    ]
}

/// The lines of the first `count` search results.
pub open spec fn search_rows(
    theme: Theme,
    results: Seq<(Seq<char>, Seq<char>, Seq<char>, Seq<char>)>,
    count: int,
) -> Seq<Seq<SpanView>> {
    Seq::new(count as nat, |at: int| search_row(theme, at, results[at]))
}

/// What the Search screen shows below the query line: a hint before the
/// first search, a line that says so where a search found nothing, else
/// the results by number; then the selection prompt while the selection is
/// armed.
pub open spec fn search_view(
    theme: Theme,
    results: Seq<(Seq<char>, Seq<char>, Seq<char>, Seq<char>)>,
    attempted: bool,
    selecting: bool,
    typed: Seq<char>,
) -> ParagraphView {
    ParagraphView {
        lines: (if !attempted {
            seq![seq![styled("Type and press Enter to search..."@, theme.search_box.0)]]
        } else if results.len() == 0 {
            seq![seq![styled("No results found."@, theme.account_auth_failure.0)]]
        } else {
            search_rows(theme, results, results.len() as int)
        }) + prompt_rows(selecting, "Select video by number: "@, typed, theme.search_number.0),
        alignment: Alignment::Left,
        wrap: Wrap::Trim,
        title: "Search Results"@,
        box_color: theme.search_box.0,
    }
}

fn make_search_row(theme: &Theme, at: usize, entry: &(String, String, String, String)) -> (line:
    Vec<Span>)
    requires
        at < usize::MAX,
    ensures
        line_view(line@) == search_row(*theme, at as int, (entry.0@, entry.1@, entry.2@, entry.3@)),
{
    let mut length = String::from_str(" [");
    let shown = parse_iso8601_duration(entry.1.as_str());
    length.append(shown.as_str());
    length.append("]");
    let mut line: Vec<Span> = Vec::new();
    line.push(Span::styled(make_number_label(at), theme.search_number.0));
    line.push(Span::strong(entry.0.clone(), theme.search_name.0));
    line.push(Span::styled(String::from_str(" by "), theme.search_uploader.0));
    line.push(Span::styled(entry.2.clone(), theme.search_number.0));
    line.push(Span::styled(length, theme.search_name.0));
    assert(line_view(line@) =~= search_row(
        *theme,
        at as int,
        (entry.0@, entry.1@, entry.2@, entry.3@),
    ));
    line
}

pub fn render_search(
    theme: &Theme,
    search_results: &[(String, String, String, String)],
    search_attempted: bool,
    search_selection_mode: bool,
    search_number_input: &str,
) -> (shown: Paragraph)
    ensures
        shown@ == search_view(
            *theme,
            rows(search_results@),
            search_attempted,
            search_selection_mode,
            search_number_input@,
        ),
{
    let mut lines: Vec<Vec<Span>> = Vec::new();
    assert(lines_view(lines@) =~= Seq::empty());
    let ghost entries = rows(search_results@);
    if !search_attempted {
        push_line(
            &mut lines,
            colored_line("Type and press Enter to search...", theme.search_box.0),
        );
    } else if search_results.len() == 0 {
        push_line(&mut lines, colored_line("No results found.", theme.account_auth_failure.0));
    } else {
        let mut at: usize = 0;
        assert(search_rows(*theme, entries, 0) =~= Seq::empty());
        while at < search_results.len()
            invariant
                at <= search_results@.len(),
                entries == rows(search_results@),
                lines_view(lines@) == search_rows(*theme, entries, at as int),
            decreases search_results@.len() - at,
        {
            let line = make_search_row(theme, at, &search_results[at]);
            push_line(&mut lines, line);
            assert(search_rows(*theme, entries, at + 1) =~= search_rows(
                *theme,
                entries,
                at as int,
            ).push(search_row(*theme, at as int, entries[at as int])));
            at = at + 1;
        }
    }
    push_prompt(
        &mut lines,
        search_selection_mode,
        "Select video by number: ",
        search_number_input,
        theme.search_number.0,
    );
    Paragraph {
        lines,
        alignment: Alignment::Left,
        wrap: Wrap::Trim,
        title: String::from_str("Search Results"),
        box_color: theme.search_box.0,
    }
}

/// What the query line of the Search screen shows: a label, and the query
/// as typed so far.
pub open spec fn search_prompt_view(typed: Seq<char>) -> ParagraphView {
    ParagraphView {
        lines: seq![seq![raw("Search YouTube:"@)], seq![raw(typed)]],
        alignment: Alignment::Left,
        wrap: Wrap::Off,
        title: "Search"@,
        box_color: Color::White,
    }
}

pub fn render_search_prompt(user_input: &str) -> (shown: Paragraph)
    ensures
        shown@ == search_prompt_view(user_input@),
{
    let mut lines: Vec<Vec<Span>> = Vec::new();
    assert(lines_view(lines@) =~= Seq::empty());
    push_line(&mut lines, plain_line("Search YouTube:"));
    push_line(&mut lines, plain_line(user_input));
    let shown = Paragraph {
        lines,
        alignment: Alignment::Left,
        wrap: Wrap::Off,
        title: String::from_str("Search"),
        box_color: Color::White,
    };
    assert(shown@.lines =~= search_prompt_view(user_input@).lines);
    shown
}

} // verus!
