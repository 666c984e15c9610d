use yt_tui::colors::{Color, MyColor, Theme};
use yt_tui::render::{
    parse_iso8601_duration, render_accounts, render_commands, render_home, render_playlists,
    render_search, render_search_prompt, Alignment, Paragraph, Span, Wrap,
};

fn raw(text: &str) -> Span {
    Span { content: text.to_string(), color: None, bold: false }
}

fn styled(text: &str, color: Color) -> Span {
    Span { content: text.to_string(), color: Some(color), bold: false }
}

fn strong(text: &str, color: Color) -> Span {
    Span { content: text.to_string(), color: Some(color), bold: true }
}

fn colorful() -> Theme {
    let mut theme = Theme::new();
    theme.home_text = MyColor(Color::Cyan);
    theme.playlist_number = MyColor(Color::Yellow);
    theme.playlist_name = MyColor(Color::Blue);
    theme.playlist_box = MyColor(Color::Magenta);
    theme.account_info = MyColor(Color::LightBlue);
    theme.account_box = MyColor(Color::LightCyan);
    theme.command_box = MyColor(Color::DarkGray);
    theme.search_box = MyColor(Color::Rgb(9, 8, 7));
    theme.search_number = MyColor(Color::LightRed);
    theme.search_name = MyColor(Color::LightGreen);
    theme.search_uploader = MyColor(Color::LightYellow);
    theme
}

#[test]
fn durations_are_shown_as_clock_times() {
    assert_eq!(parse_iso8601_duration("PT1H2M3S"), "1:02:03");
    assert_eq!(parse_iso8601_duration("PT4M5S"), "4:05");
    assert_eq!(parse_iso8601_duration("PT45S"), "0:45");
    assert_eq!(parse_iso8601_duration("PT10M"), "10:00");
    assert_eq!(parse_iso8601_duration("PT2H"), "2:00:00");
    assert_eq!(parse_iso8601_duration("PT12H34M56S"), "12:34:56");
    assert_eq!(parse_iso8601_duration("PT100M7S"), "100:07");
    assert_eq!(parse_iso8601_duration(""), "0:00");
    assert_eq!(parse_iso8601_duration("P0D"), "0:00");
}

#[test]
fn odd_durations_are_read_leniently() {
    assert_eq!(parse_iso8601_duration("PT0H5M"), "5:00");
    assert_eq!(parse_iso8601_duration("1x2M"), "12:00");
    assert_eq!(parse_iso8601_duration("PT3M4M"), "4:00");
    assert_eq!(parse_iso8601_duration("PT3MM"), "3:00");
    assert_eq!(parse_iso8601_duration("PT99999999999M5S"), "0:05");
    assert_eq!(parse_iso8601_duration("PT7M99999999999M"), "7:00");
    assert_eq!(parse_iso8601_duration("PT2147483647S"), "0:2147483647");
    assert_eq!(parse_iso8601_duration("PT2147483648S"), "0:00");
    assert_eq!(parse_iso8601_duration("P1DT1S"), "0:11");
}

#[test]
fn home_lists_themes_by_number() {
    let theme = colorful();
    let themes = vec!["dark.json".to_string(), "light.json".to_string()];
    let shown = render_home(&theme, &themes, true, "1");
    let expected = Paragraph {
        lines: vec![
            vec![styled("Welcome to the YouTube TUI client!", Color::Cyan)],
            vec![raw("")],
            vec![
                styled("01. ", Color::Yellow),
                strong("dark.json", Color::Blue),
                raw(" (ID: 1)"),
            ],
            vec![
                styled("02. ", Color::Yellow),
                strong("light.json", Color::Blue),
                raw(" (ID: 2)"),
            ],
            vec![raw("Select a theme by number: "), strong("1", Color::Yellow)],
        ],
        alignment: Alignment::Left,
        wrap: Wrap::Trim,
        title: "Themes".to_string(),
        box_color: Color::Magenta,
    };
    assert_eq!(shown, expected);
}

#[test]
fn home_without_themes_shows_the_hint() {
    let theme = Theme::new();
    let shown = render_home(&theme, &[], false, "12");
    assert_eq!(
        shown.lines,
        vec![
            vec![styled("Welcome to the YouTube TUI client!", Color::White)],
            vec![raw("")],
            vec![styled("Please press 'h' again to select your theme.", Color::Red)],
        ]
    );
    assert_eq!(shown.title, "Themes");
}

#[test]
fn home_numbers_grow_past_two_digits() {
    let theme = Theme::new();
    let themes: Vec<String> = (0..100).map(|i| format!("t{}", i)).collect();
    let shown = render_home(&theme, &themes, false, "");
    assert_eq!(shown.lines.len(), 102);
    assert_eq!(shown.lines[10][0].content, "09. ");
    assert_eq!(shown.lines[11][0].content, "10. ");
    assert_eq!(shown.lines[101][0].content, "100. ");
    assert_eq!(shown.lines[101][2].content, " (ID: 100)");
    assert_eq!(shown.lines[101][1].content, "t99");
}

#[test]
fn playlists_are_listed_with_their_ids() {
    let theme = colorful();
    let playlists = vec![
        ("Lo-fi Mix".to_string(), "PL1".to_string()),
        ("Focus".to_string(), "PL2".to_string()),
    ];
    let shown = render_playlists(&theme, &playlists, false, "");
    let expected = Paragraph {
        lines: vec![
            vec![
                styled("01. ", Color::Yellow),
                strong("Lo-fi Mix", Color::Blue),
                raw(" (ID: PL1)"),
            ],
            vec![styled("02. ", Color::Yellow), strong("Focus", Color::Blue), raw(" (ID: PL2)")],
        ],
        alignment: Alignment::Left,
        wrap: Wrap::Trim,
        title: "Playlists".to_string(),
        box_color: Color::Magenta,
    };
    assert_eq!(shown, expected);
    let prompted = render_playlists(&theme, &playlists, true, "2");
    assert_eq!(prompted.lines.len(), 3);
    assert_eq!(
        prompted.lines[2],
        vec![raw("Select playlist by number: "), strong("2", Color::Yellow)]
    );
}

#[test]
fn no_playlists_is_said() {
    let theme = Theme::new();
    let shown = render_playlists(&theme, &[], true, "");
    assert_eq!(
        shown.lines,
        vec![
            vec![styled("No playlists found.", Color::Red)],
            vec![raw("Select playlist by number: "), strong("", Color::White)],
        ]
    );
}

#[test]
fn account_shows_every_message() {
    let theme = colorful();
    let messages = vec!["one".to_string(), "two".to_string()];
    let shown = render_accounts(&theme, &messages);
    let expected = Paragraph {
        lines: vec![
            vec![raw("")],
            vec![strong("Your YouTube account info will appear here:", Color::LightBlue)],
            vec![raw("")],
            vec![raw("one")],
            vec![raw("two")],
        ],
        alignment: Alignment::Left,
        wrap: Wrap::Keep,
        title: "Account".to_string(),
        box_color: Color::LightCyan,
    };
    assert_eq!(shown, expected);
    assert_eq!(render_accounts(&theme, &[]).lines.len(), 3);
}

#[test]
fn commands_are_listed_in_alternating_colors() {
    let theme = colorful();
    let shown = render_commands(&theme);
    let even = Color::White;
    let odd = Color::Gray;
    let expected = Paragraph {
        lines: vec![
            vec![raw("")],
            vec![styled("Current commands:", even)],
            vec![raw("")],
            vec![styled("q: to quit", odd)],
            vec![styled("a: to show accounts", even)],
            vec![styled("c: to show this commands message", odd)],
            vec![styled("h: to go to the home tab", even)],
            vec![styled("p: to show playlists", odd)],
            vec![styled("v: to show videos in playlists", even)],
            vec![styled("s: to search yt", odd)],
            vec![styled(
                "b: to bind a playlist or theme to be the selected playlist or theme",
                even,
            )],
            vec![styled("press 'q' while playing playlists to skip the current song", odd)],
        ],
        alignment: Alignment::Center,
        wrap: Wrap::Off,
        title: "Commands".to_string(),
        box_color: Color::DarkGray,
    };
    assert_eq!(shown, expected);
}

#[test]
fn search_results_are_listed_with_durations() {
    let theme = colorful();
    let results = vec![(
        "Song".to_string(),
        "PT3M7S".to_string(),
        "Someone".to_string(),
        "vid1".to_string(),
    )];
    let shown = render_search(&theme, &results, true, true, "1");
    let expected = Paragraph {
        lines: vec![
            vec![
                styled("01. ", Color::LightRed),
                strong("Song", Color::LightGreen),
                styled(" by ", Color::LightYellow),
                styled("Someone", Color::LightRed),
                styled(" [3:07]", Color::LightGreen),
            ],
            vec![raw("Select video by number: "), strong("1", Color::LightRed)],
        ],
        alignment: Alignment::Left,
        wrap: Wrap::Trim,
        title: "Search Results".to_string(),
        box_color: Color::Rgb(9, 8, 7),
    };
    assert_eq!(shown, expected);
}

#[test]
fn search_before_and_after_an_empty_search() {
    let theme = colorful();
    let results = vec![(
        "Song".to_string(),
        "PT3M7S".to_string(),
        "Someone".to_string(),
        "vid1".to_string(),
    )];
    let before = render_search(&theme, &results, false, false, "");
    assert_eq!(
        before.lines,
        vec![vec![styled("Type and press Enter to search...", Color::Rgb(9, 8, 7))]]
    );
    let nothing = render_search(&theme, &[], true, false, "");
    assert_eq!(nothing.lines, vec![vec![styled("No results found.", Color::Red)]]);
}

#[test]
fn search_prompt_shows_the_query() {
    let shown = render_search_prompt("lofi");
    let expected = Paragraph {
        lines: vec![vec![raw("Search YouTube:")], vec![raw("lofi")]],
        alignment: Alignment::Left,
        wrap: Wrap::Off,
        title: "Search".to_string(),
        box_color: Color::White,
    };
    assert_eq!(shown, expected);
}
