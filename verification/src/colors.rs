//! Colors and themes: the named color slots of the views, and the reading
//! of a color from its textual form.

use vstd::prelude::*;
use vstd::string::StringExecFns;
use crate::text::{
    chars_of, find_char, find_from, lowercase_of, parse_decimal_chars, parse_unsigned, same_text,
    slice_chars, string_of, to_lowercase, trim_chars, trimmed,
};

verus! {

/// A terminal color: one of sixteen named colors, or a red-green-blue triple.
#[derive(Clone, Copy, Debug, PartialEq, Eq, Structural)]
pub enum Color {
    Black,
    Red,
    Green,
    Yellow,
    Blue,
    Magenta,
    Cyan,
    Gray,
    DarkGray,
    LightRed,
    LightGreen,
    LightYellow,
    LightBlue,
    LightMagenta,
    LightCyan,
    White,
    Rgb(u8, u8, u8),
}

/// A color as it stands in a theme.
#[derive(Clone, Copy, Debug, PartialEq, Eq, Structural)]
pub struct MyColor(pub Color);

/// The colors of every region of the interface.
#[derive(Clone, Copy, Debug, PartialEq, Eq, Structural)]
pub struct Theme {
    pub tui_lines: MyColor,
    pub active_menu_item: MyColor,
    pub other_menu_items: MyColor,
    pub tabs_basic: MyColor,
    pub tabs_highlight: MyColor,
    pub home_text: MyColor,
    pub home_box: MyColor,
    pub playlist_number: MyColor,
    pub playlist_name: MyColor,
    pub playlist_box: MyColor,
    pub account_info: MyColor,
    pub account_link: MyColor,
    pub account_auth_success: MyColor,
    pub account_auth_failure: MyColor,
    pub account_box: MyColor,
    pub command_text_odd: MyColor,
    pub command_text_even: MyColor,
    pub command_box: MyColor,
    pub search_box: MyColor,
    pub search_number: MyColor,
    pub search_name: MyColor,
    pub search_uploader: MyColor,
    pub search_duration: MyColor,
}

/// The theme in use before any theme file is read: white throughout, but
/// green for success, red for failure and gray for every other command line.
pub open spec fn default_theme() -> Theme {
    Theme {
        tui_lines: MyColor(Color::White),
        active_menu_item: MyColor(Color::White),
        other_menu_items: MyColor(Color::White),
        tabs_basic: MyColor(Color::White),
        tabs_highlight: MyColor(Color::White),
        home_text: MyColor(Color::White),
        home_box: MyColor(Color::White),
        playlist_number: MyColor(Color::White),
        playlist_name: MyColor(Color::White),
        playlist_box: MyColor(Color::White),
        account_info: MyColor(Color::White),
        account_link: MyColor(Color::White),
        account_auth_success: MyColor(Color::Green),
        account_auth_failure: MyColor(Color::Red),
        account_box: MyColor(Color::White),
        command_text_odd: MyColor(Color::Gray),
        command_text_even: MyColor(Color::White),
        command_box: MyColor(Color::White),
        search_box: MyColor(Color::White),
        search_number: MyColor(Color::White),
        search_name: MyColor(Color::White),
        search_uploader: MyColor(Color::White),
        search_duration: MyColor(Color::White),
    }
}

impl Theme {
    pub fn new() -> (theme: Self)
        ensures
            theme == default_theme(),
    {
        Self {
            tui_lines: MyColor(Color::White),
            active_menu_item: MyColor(Color::White),
            other_menu_items: MyColor(Color::White),
            tabs_basic: MyColor(Color::White),
            tabs_highlight: MyColor(Color::White),
            home_text: MyColor(Color::White),
            home_box: MyColor(Color::White),
            playlist_number: MyColor(Color::White),
            playlist_name: MyColor(Color::White),
            playlist_box: MyColor(Color::White),
            account_info: MyColor(Color::White),
            account_link: MyColor(Color::White),
            account_auth_success: MyColor(Color::Green),
            account_auth_failure: MyColor(Color::Red),
            account_box: MyColor(Color::White),
            command_text_odd: MyColor(Color::Gray),
            command_text_even: MyColor(Color::White),
            command_box: MyColor(Color::White),
            search_box: MyColor(Color::White),
            search_number: MyColor(Color::White),
            search_name: MyColor(Color::White),
            search_uploader: MyColor(Color::White),
            search_duration: MyColor(Color::White),
        }
    }
}

/// The color that a lower-case color name stands for.
pub open spec fn named_color(name: Seq<char>) -> Option<Color> {
    if name == "black"@ {
        Some(Color::Black)
    } else if name == "red"@ {
        Some(Color::Red)
    } else if name == "green"@ {
        Some(Color::Green)
    } else if name == "yellow"@ {
        Some(Color::Yellow)
    } else if name == "blue"@ {
        Some(Color::Blue)
    } else if name == "magenta"@ {
        Some(Color::Magenta)
    } else if name == "cyan"@ {
        Some(Color::Cyan)
    } else if name == "gray"@ {
        Some(Color::Gray)
    } else if name == "darkgray"@ {
        Some(Color::DarkGray)
    } else if name == "lightred"@ {
        Some(Color::LightRed)
    } else if name == "lightgreen"@ {
        Some(Color::LightGreen)
    } else if name == "lightyellow"@ {
        Some(Color::LightYellow)
    } else if name == "lightblue"@ {
        Some(Color::LightBlue)
    } else if name == "lightmagenta"@ {
        Some(Color::LightMagenta)
    } else if name == "lightcyan"@ {
        Some(Color::LightCyan)
    } else if name == "white"@ {
        Some(Color::White)
    } else {
        None
    }
}

/// One channel of an `rgb(..)` literal: the part without the whitespace
/// around it, read as a number from 0 to 255.
pub open spec fn channel(part: Seq<char>) -> Option<u8> {
    match parse_unsigned(trimmed(part), 255) {
        Some(v) => Some(v as u8),
        None => None,
    }
}

/// The color written as `rgb(r,g,b)`: exactly three comma-separated
/// channels between `rgb(` and the closing bracket.
pub open spec fn rgb_color(name: Seq<char>) -> Option<Color> {
    if name.len() >= 5 && name.take(4) == seq!['r', 'g', 'b', '('] && name.last() == ')' {
        let inner = name.subrange(4, name.len() - 1);
        let first = find_char(inner, ',');
        let rest = inner.skip(first + 1);
        let second = find_char(rest, ',');
        let tail = rest.skip(second + 1);
        if first < inner.len() && second < rest.len() && find_char(tail, ',') == tail.len() {
            match (channel(inner.take(first)), channel(rest.take(second)), channel(tail)) {
                (Some(r), Some(g), Some(b)) => Some(Color::Rgb(r, g, b)),
                _ => None,
            }
        } else {
            None
        }
    } else {
        None
    }
}

/// The color that a trimmed, lower-case color text stands for.
pub open spec fn color_of(name: Seq<char>) -> Option<Color> {
    match named_color(name) {
        Some(c) => Some(c),
        None => rgb_color(name),
    }
}

fn parse_named(name: &Vec<char>) -> (c: Option<Color>)
    ensures
        c == named_color(name@),
{
    if same_text(name, "black") {
        Some(Color::Black)
    } else if same_text(name, "red") {
        Some(Color::Red)
    } else if same_text(name, "green") {
        Some(Color::Green)
    } else if same_text(name, "yellow") {
        Some(Color::Yellow)
    } else if same_text(name, "blue") {
        Some(Color::Blue)
    } else if same_text(name, "magenta") {
        Some(Color::Magenta)
    } else if same_text(name, "cyan") {
        Some(Color::Cyan)
    } else if same_text(name, "gray") {
        Some(Color::Gray)
    } else if same_text(name, "darkgray") {
        Some(Color::DarkGray)
    } else if same_text(name, "lightred") {
        Some(Color::LightRed)
    } else if same_text(name, "lightgreen") {
        Some(Color::LightGreen)
    } else if same_text(name, "lightyellow") {
        Some(Color::LightYellow)
    } else if same_text(name, "lightblue") {
        Some(Color::LightBlue)
    } else if same_text(name, "lightmagenta") {
        Some(Color::LightMagenta)
    } else if same_text(name, "lightcyan") {
        Some(Color::LightCyan)
    } else if same_text(name, "white") {
        Some(Color::White)
    } else {
        None
    }
}

fn parse_channel(part: &Vec<char>) -> (v: Option<u8>)
    ensures
        v == channel(part@),
{
    let t = trim_chars(part);
    match parse_decimal_chars(&t, 255) {
        Some(n) => Some(n as u8),
        None => None,
    }
}

fn parse_rgb(name: &Vec<char>) -> (c: Option<Color>)
    ensures
        c == rgb_color(name@),
{
    let n: usize = name.len();
    if n < 5 {
        return None;
    }
    if name[0] != 'r' || name[1] != 'g' || name[2] != 'b' || name[3] != '(' || name[n - 1] != ')' {
        proof {
            let head = name@.take(4);
            assert(head[0] == name@[0] && head[1] == name@[1] && head[2] == name@[2] && head[3]
                == name@[3]);
        }
        return None;
    }
    assert(name@.take(4) =~= seq!['r', 'g', 'b', '(']);
    let inner = slice_chars(name, 4, n - 1);
    let first: usize = find_from(&inner, 0, ',');
    assert(inner@.skip(0) =~= inner@);
    if first >= inner.len() {
        return None;
    }
    let rest = slice_chars(&inner, first + 1, inner.len());
    assert(rest@ =~= inner@.skip(first + 1));
    let second: usize = find_from(&rest, 0, ',');
    assert(rest@.skip(0) =~= rest@);
    if second >= rest.len() {
        return None;
    }
    let tail = slice_chars(&rest, second + 1, rest.len());
    assert(tail@ =~= rest@.skip(second + 1));
    let third: usize = find_from(&tail, 0, ',');
    assert(tail@.skip(0) =~= tail@);
    if third < tail.len() {
        return None;
    }
    let red_part = slice_chars(&inner, 0, first);
    assert(red_part@ =~= inner@.take(first as int));
    let green_part = slice_chars(&rest, 0, second);
    assert(green_part@ =~= rest@.take(second as int));
    let r = parse_channel(&red_part);
    let g = parse_channel(&green_part);
    let b = parse_channel(&tail);
    match (r, g, b) {
        (Some(r), Some(g), Some(b)) => Some(Color::Rgb(r, g, b)),
        _ => None,
    }
}

/// Reads a color from text that is already trimmed and in lower case: a
/// color name, or `rgb(r,g,b)` with channels from 0 to 255.
pub fn color_from_normalized(name: &str) -> (c: Option<Color>)
    ensures
        c == color_of(name@),
{
    let chars = chars_of(name);
    match parse_named(&chars) {
        Some(c) => Some(c),
        None => parse_rgb(&chars),
    }
}

/// Reads a color from its textual form, ignoring case and the whitespace
/// around it.
pub fn parse_color(s: &str) -> (c: Option<Color>)
    ensures
        c == color_of(lowercase_of(trimmed(s@))),
{
    let chars = chars_of(s);
    let kept = trim_chars(&chars);
    let kept_text = string_of(&kept);
    let lower = to_lowercase(kept_text.as_str());
    color_from_normalized(lower.as_str())
}

/// A theme color read from its text, or the reason why the text is none.
pub open spec fn theme_color_of(text: Seq<char>) -> Result<MyColor, Seq<char>> {
    match color_of(lowercase_of(trimmed(text))) {
        Some(c) => Ok(MyColor(c)),
        None => Err("Invalid color: "@ + text),
    }
}

impl MyColor {
    /// Reads a theme color from its text. A text that is no color is an
    /// error that names the text.
    pub fn from_text(text: &str) -> (color: Result<MyColor, String>)
        ensures
            match theme_color_of(text@) {
                Ok(c) => color == Ok::<MyColor, String>(c),
                Err(reason) => color is Err && color->Err_0@ == reason,
            },
    {
        match parse_color(text) {
            Some(c) => Ok(MyColor(c)),
            None => {
                let mut reason = String::from_str("Invalid color: ");
                reason.append(text);
                Err(reason)
            },
        }
    }
}

} // verus!
