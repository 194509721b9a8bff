use tasklog::models::AppState;
use tasklog::render::{
    blank_run, box_origin, center_both, center_text, dash_run, draw_ui, format_string_with_color,
    format_time, truncate, Color,
};
use tasklog::text::{
    char_is_whitespace, decimal_string, is_blank, parse_integer, signed_decimal_string, text_eq,
};

fn state(title: &str, width: u16, height: u16, seconds: u64) -> AppState {
    AppState {
        title: title.to_string(),
        term_width: width,
        term_height: height,
        current_time: seconds,
        quited: false,
    }
}

#[test]
fn time_is_written_as_minutes_and_seconds() {
    assert_eq!(format_time(0), "00:00");
    assert_eq!(format_time(5), "00:05");
    assert_eq!(format_time(59), "00:59");
    assert_eq!(format_time(60), "01:00");
    assert_eq!(format_time(1500), "25:00");
    assert_eq!(format_time(3599), "59:59");
    assert_eq!(format_time(6000), "100:00");
    assert_eq!(format_time(u64::MAX), "307445734561825860:15");
}

#[test]
fn text_is_moved_to_the_middle() {
    assert_eq!(center_text("abcd", 10), "   abcd");
    assert_eq!(center_text("abc", 10), "   abc");
    assert_eq!(center_text("abcd", 4), "abcd");
    assert_eq!(center_text("abcdef", 4), "abcdef");
    assert_eq!(center_text("", 3), " ");
    assert_eq!(center_text("é", 3), " é");
    assert_eq!(center_both("abcd", 10), "   abcd   ");
    assert_eq!(center_both("abc", 10), "   abc    ");
    assert_eq!(center_both("abcdef", 4), "abcdef");
    assert_eq!(center_both("", 2), "  ");
}

#[test]
fn text_is_cut_and_runs_are_made() {
    assert_eq!(truncate("abcdef", 4), "abcd");
    assert_eq!(truncate("abc", 4), "abc");
    assert_eq!(truncate("日本語のタイトル", 3), "日本語");
    assert_eq!(truncate("abc", 0), "");
    assert_eq!(blank_run(3), "   ");
    assert_eq!(blank_run(0), "");
    assert_eq!(dash_run(5), "-----");
}

#[test]
fn text_is_coloured() {
    assert_eq!(format_string_with_color("x", Color::Red), "\x1b[91mx\x1b[0m");
    assert_eq!(format_string_with_color("x", Color::Green), "\x1b[92mx\x1b[0m");
    assert_eq!(format_string_with_color("x", Color::Yellow), "\x1b[93mx\x1b[0m");
    assert_eq!(format_string_with_color("x", Color::Blue), "\x1b[94mx\x1b[0m");
    assert_eq!(format_string_with_color("x", Color::Magenta), "\x1b[95mx\x1b[0m");
    assert_eq!(format_string_with_color("x", Color::Cyan), "\x1b[96mx\x1b[0m");
    assert_eq!(format_string_with_color("x", Color::White), "\x1b[97mx\x1b[0m");
    assert_eq!(format_string_with_color("x", Color::Black), "\x1b[90mx\x1b[0m");
    assert_eq!(format_string_with_color("", Color::Red), "\x1b[91m\x1b[0m");
}

#[test]
fn the_box_sits_in_the_middle_or_at_the_corner() {
    assert_eq!(box_origin(80, 40), 20);
    assert_eq!(box_origin(81, 40), 20);
    assert_eq!(box_origin(40, 40), 0);
    assert_eq!(box_origin(39, 40), 0);
    assert_eq!(box_origin(0, 4), 0);
    assert_eq!(box_origin(24, 4), 10);
    assert_eq!(box_origin(u16::MAX, 4), 32_765);
}

#[test]
fn a_frame_has_four_lines() {
    let frame = draw_ui(&state("focus", 80, 24, 1500));
    assert_eq!(frame.col, 20);
    assert_eq!(frame.row, 10);
    assert_eq!(
        frame.lines,
        vec![
            "----------------------------------------".to_string(),
            "|\x1b[96m                focus                 \x1b[0m|".to_string(),
            "|\x1b[93m                25:00                 \x1b[0m|".to_string(),
            "----------------------------------------".to_string(),
        ]
    );
}

#[test]
fn a_long_title_is_cut_to_the_box() {
    let title = "0123456789012345678901234567890123456789tail";
    let frame = draw_ui(&state(title, 10, 2, 61));
    assert_eq!(frame.col, 0);
    assert_eq!(frame.row, 0);
    assert_eq!(frame.lines[1], "|\x1b[96m01234567890123456789012345678901234567\x1b[0m|");
    assert_eq!(frame.lines[2], "|\x1b[93m                01:01                 \x1b[0m|");
}

#[test]
fn painting_twice_gives_the_same_frame() {
    let mut shown = state("again", 100, 30, 9);
    shown.quited = true;
    let first = draw_ui(&shown);
    let second = draw_ui(&shown);
    assert_eq!(first.lines, second.lines);
    assert_eq!((first.col, first.row), (second.col, second.row));
    assert_eq!((first.col, first.row), (30, 13));
    shown.quited = false;
    assert_eq!(draw_ui(&shown).lines, first.lines);
}

#[test]
fn numbers_are_written_in_decimal() {
    assert_eq!(decimal_string(0), "0");
    assert_eq!(decimal_string(7), "7");
    assert_eq!(decimal_string(10), "10");
    assert_eq!(decimal_string(1234567890), "1234567890");
    assert_eq!(decimal_string(u64::MAX), "18446744073709551615");
    assert_eq!(signed_decimal_string(0), "0");
    assert_eq!(signed_decimal_string(-1), "-1");
    assert_eq!(signed_decimal_string(i64::MAX), "9223372036854775807");
    assert_eq!(signed_decimal_string(i64::MIN), "-9223372036854775808");
}

#[test]
fn numerals_are_read() {
    assert_eq!(parse_integer("0"), Some(0));
    assert_eq!(parse_integer("42"), Some(42));
    assert_eq!(parse_integer("+42"), Some(42));
    assert_eq!(parse_integer("-42"), Some(-42));
    assert_eq!(parse_integer("0042"), Some(42));
    assert_eq!(parse_integer("9223372036854775807"), Some(i64::MAX));
    assert_eq!(parse_integer("-9223372036854775808"), Some(i64::MIN));
    assert_eq!(parse_integer("9223372036854775808"), None);
    assert_eq!(parse_integer("-9223372036854775809"), None);
    assert_eq!(parse_integer("18446744073709551616"), None);
    assert_eq!(parse_integer("000000000000000000000000000007"), Some(7));
    assert_eq!(parse_integer(""), None);
    assert_eq!(parse_integer("-"), None);
    assert_eq!(parse_integer("+"), None);
    assert_eq!(parse_integer("4 2"), None);
    assert_eq!(parse_integer("4a"), None);
    assert_eq!(parse_integer("--4"), None);
    assert_eq!(parse_integer("٤"), None);
}

#[test]
fn texts_are_compared_and_blanks_are_found() {
    assert!(text_eq("", ""));
    assert!(text_eq("abc", "abc"));
    assert!(!text_eq("abc", "abd"));
    assert!(!text_eq("abc", "ab"));
    assert!(text_eq("日本", "日本"));
    assert!(is_blank(""));
    assert!(is_blank("   "));
    assert!(is_blank(" \t\r\n"));
    assert!(is_blank("\u{00A0}\u{2003}\u{3000}"));
    assert!(!is_blank(" a "));
    assert!(!is_blank("\u{200B}"));
}

#[test]
fn white_space_is_what_the_standard_library_says() {
    for code in 0u32..=0x11_0000 {
        if let Some(c) = char::from_u32(code) {
            assert_eq!(char_is_whitespace(c), c.is_whitespace(), "U+{:04X}", code);
        }
    }
}
