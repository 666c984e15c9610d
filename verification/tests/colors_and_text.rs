use yt_tui::colors::{color_from_normalized, parse_color, Color, MyColor, Theme};
use yt_tui::text::{
    chars_of, find_from, is_ascii_digit, parse_decimal, parse_decimal_chars, push_decimal,
    push_two_digits, same_text, slice_chars, string_of, trim_chars,
};

#[test]
fn default_theme_colors() {
    let theme = Theme::new();
    assert_eq!(theme.tui_lines, MyColor(Color::White));
    assert_eq!(theme.account_auth_success, MyColor(Color::Green));
    assert_eq!(theme.account_auth_failure, MyColor(Color::Red));
    assert_eq!(theme.command_text_odd, MyColor(Color::Gray));
    assert_eq!(theme.command_text_even, MyColor(Color::White));
    assert_eq!(theme.search_duration, MyColor(Color::White));
}

#[test]
fn named_colors_are_read() {
    let names = [
        ("black", Color::Black),
        ("red", Color::Red),
        ("green", Color::Green),
        ("yellow", Color::Yellow),
        ("blue", Color::Blue),
        ("magenta", Color::Magenta),
        ("cyan", Color::Cyan),
        ("gray", Color::Gray),
        ("darkgray", Color::DarkGray),
        ("lightred", Color::LightRed),
        ("lightgreen", Color::LightGreen),
        ("lightyellow", Color::LightYellow),
        ("lightblue", Color::LightBlue),
        ("lightmagenta", Color::LightMagenta),
        ("lightcyan", Color::LightCyan),
        ("white", Color::White),
    ];
    for (name, color) in names {
        assert_eq!(parse_color(name), Some(color));
        assert_eq!(color_from_normalized(name), Some(color));
    }
}

#[test]
fn color_names_ignore_case_and_surrounding_space() {
    assert_eq!(parse_color("  LightBlue\t"), Some(Color::LightBlue));
    assert_eq!(parse_color("RED"), Some(Color::Red));
    assert_eq!(parse_color("\n white \r\n"), Some(Color::White));
    assert_eq!(color_from_normalized("RED"), None);
    assert_eq!(color_from_normalized(" red"), None);
}

#[test]
fn rgb_literals_are_read() {
    assert_eq!(parse_color("rgb(1,2,3)"), Some(Color::Rgb(1, 2, 3)));
    assert_eq!(parse_color("RGB( 255 , 0,+7 )"), Some(Color::Rgb(255, 0, 7)));
    assert_eq!(parse_color(" rgb(000,010,100) "), Some(Color::Rgb(0, 10, 100)));
}

#[test]
fn bad_colors_are_refused() {
    for text in [
        "",
        "purple",
        "rgb",
        "rgb(",
        "rgb()",
        "rgb(1,2)",
        "rgb(1,2,3,4)",
        "rgb(256,0,0)",
        "rgb(-1,0,0)",
        "rgb(1,,3)",
        "rgb(1,2,3",
        "rgb(1,2,3) x",
        "rgb(a,b,c)",
        "rgb(1 2,3,4)",
        "light red",
    ] {
        assert_eq!(parse_color(text), None, "{}", text);
    }
}

#[test]
fn decimal_numbers_are_parsed() {
    assert_eq!(parse_decimal("0", 10), Some(0));
    assert_eq!(parse_decimal("007", 10), Some(7));
    assert_eq!(parse_decimal("+9", 10), Some(9));
    assert_eq!(parse_decimal("10", 10), Some(10));
    assert_eq!(parse_decimal("11", 10), None);
    assert_eq!(parse_decimal("18446744073709551615", u64::MAX), Some(u64::MAX));
    assert_eq!(parse_decimal("18446744073709551616", u64::MAX), None);
    assert_eq!(parse_decimal("99999999999999999999999", u64::MAX), None);
    assert_eq!(parse_decimal("3", 2), None);
    assert_eq!(parse_decimal_chars(&vec!['4', '2'], 99), Some(42));
}

#[test]
fn texts_that_are_no_numbers_are_refused() {
    for text in ["", "+", "-1", "1a", " 1", "1 ", "++1", "1+", "٣", "1_0"] {
        assert_eq!(parse_decimal(text, u64::MAX), None, "{}", text);
        assert_eq!(text.parse::<u64>().ok(), None, "{}", text);
    }
}

#[test]
fn decimal_parsing_agrees_with_std() {
    for text in ["0", "5", "+5", "12", "00", "255", "256", "4294967295", "4294967296"] {
        assert_eq!(parse_decimal(text, 255), text.parse::<u8>().ok().map(u64::from));
        assert_eq!(parse_decimal(text, u32::MAX as u64), text.parse::<u32>().ok().map(u64::from));
    }
}

#[test]
fn numbers_are_written_in_decimal() {
    let mut out = String::from("n=");
    push_decimal(&mut out, 0);
    assert_eq!(out, "n=0");
    push_decimal(&mut out, 1203);
    assert_eq!(out, "n=01203");
    let mut big = String::new();
    push_decimal(&mut big, u64::MAX);
    assert_eq!(big, "18446744073709551615");
}

#[test]
fn two_digit_numbers_are_padded() {
    for (n, text) in [(0u64, "00"), (7, "07"), (10, "10"), (99, "99"), (100, "100"), (1234, "1234")] {
        let mut out = String::new();
        push_two_digits(&mut out, n);
        assert_eq!(out, text);
        assert_eq!(out, format!("{:02}", n));
    }
}

#[test]
fn whitespace_is_trimmed_as_std_does() {
    for text in ["", " ", "a", "  a b  ", "\t\n x\r\n", "\u{a0}x\u{3000}", "\u{200b}x", " \u{1680}é "] {
        let chars: Vec<char> = text.chars().collect();
        let kept: String = trim_chars(&chars).into_iter().collect();
        assert_eq!(kept, text.trim(), "{:?}", text);
    }
}

#[test]
fn character_helpers() {
    assert_eq!(chars_of("héllo"), vec!['h', 'é', 'l', 'l', 'o']);
    assert_eq!(chars_of(""), Vec::<char>::new());
    assert_eq!(string_of(&vec!['a', 'ß', 'c']), "aßc");
    assert_eq!(slice_chars(&vec!['a', 'b', 'c', 'd'], 1, 3), vec!['b', 'c']);
    assert_eq!(slice_chars(&vec!['a', 'b'], 2, 2), Vec::<char>::new());
    assert_eq!(find_from(&vec!['a', ',', 'b', ','], 0, ','), 1);
    assert_eq!(find_from(&vec!['a', ',', 'b', ','], 2, ','), 3);
    assert_eq!(find_from(&vec!['a', 'b'], 0, ','), 2);
    assert!(same_text(&vec!['o', 'k'], "ok"));
    assert!(!same_text(&vec!['o', 'k'], "okay"));
    assert!(!same_text(&vec!['o', 'k'], "on"));
    assert!(is_ascii_digit('0') && is_ascii_digit('9'));
    assert!(!is_ascii_digit('a') && !is_ascii_digit('/') && !is_ascii_digit(':'));
    assert!(!is_ascii_digit('٣'));
}
