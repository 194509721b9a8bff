//! The countdown display: a pure mapping from the display state to a frame.
//!
//! A frame is four lines in a box of fixed size, placed in the middle of the
//! terminal, or at its top-left corner where the terminal is smaller than
//! the box. Nothing is remembered between two frames: each is painted whole.

use vstd::prelude::*;
use vstd::string::*;
use crate::models::{texts, AppState};
use crate::text::{decimal, decimal_string};

verus! {

/// The width of the box, in columns.
pub const BOX_WIDTH: u16 = 40;

/// The height of the box, in rows.
pub const BOX_HEIGHT: u16 = 4;

/// The width of the box between its two side borders.
pub const INNER_WIDTH: usize = 38;

/// The sequence that ends a colour.
pub const COLOR_RESET: &'static str = "\x1b[0m";

/// The colours of emphasis.
#[derive(Debug, Clone, Copy, PartialEq, Eq, Structural)]
pub enum Color {
    Red,
    Green,
    Blue,
    Yellow,
    Magenta,
    Cyan,
    White,
    Black,
}

/// The sequence that starts a colour.
pub open spec fn color_start(color: Color) -> Seq<char> {
    match color {
        Color::Red => "\x1b[91m"@,
        Color::Green => "\x1b[92m"@,
        Color::Blue => "\x1b[94m"@,
        Color::Yellow => "\x1b[93m"@,
        Color::Magenta => "\x1b[95m"@,
        Color::Cyan => "\x1b[96m"@,
        Color::White => "\x1b[97m"@,
        Color::Black => "\x1b[90m"@,
    }
}

/// A text in a colour: the colour's start, the text, the reset.
pub open spec fn colored(text: Seq<char>, color: Color) -> Seq<char> {
    color_start(color) + text + COLOR_RESET@
}

/// A run of spaces.
pub open spec fn spaces(count: nat) -> Seq<char> {
    Seq::new(count, |i: int| ' ')
}

/// A run of one character.
pub open spec fn repeated(c: char, count: nat) -> Seq<char> {
    Seq::new(count, |i: int| c)
}

/// A number in at least two digits.
pub open spec fn two_digits(n: nat) -> Seq<char> {
    if n < 10 {
        seq!['0'] + decimal(n)
    } else {
        decimal(n)
    }
}

/// Seconds as minutes and seconds, `MM:SS`.
pub open spec fn time_text(seconds: nat) -> Seq<char> {
    two_digits(seconds / 60) + seq![':'] + two_digits(seconds % 60)
}

/// The spaces in front of a text that is centred in a width: half of what
/// the text leaves free, rounded down, and none where it leaves nothing.
pub open spec fn left_margin(length: nat, width: nat) -> nat {
    if length < width {
        ((width - length) / 2) as nat
    } else {
        0
    }
}

/// A text moved to the middle of a width by spaces in front of it.
pub open spec fn indented(text: Seq<char>, width: nat) -> Seq<char> {
    spaces(left_margin(text.len(), width)) + text
}

/// A text centred in a width by spaces on both sides; where the free space
/// is odd, the odd space goes behind. A text that fills the width stays.
pub open spec fn centered(text: Seq<char>, width: nat) -> Seq<char> {
    if text.len() >= width {
        text
    } else {
        spaces(left_margin(text.len(), width)) + text + spaces(
            (width - text.len() - left_margin(text.len(), width)) as nat,
        )
    }
}

/// The first `width` characters of a text, or all of it where it is shorter.
pub open spec fn truncated(text: Seq<char>, width: nat) -> Seq<char> {
    if text.len() > width {
        text.subrange(0, width as int)
    } else {
        text
    }
}

/// Where a box of a given size starts in a terminal of a given size: in the
/// middle, or at zero where the terminal is smaller.
pub open spec fn box_start(terminal: u16, size: u16) -> u16 {
    if terminal >= size {
        ((terminal - size) / 2) as u16
    } else {
        0
    }
}

/// One line of content between the side borders, in a colour.
pub open spec fn content_line(text: Seq<char>, color: Color) -> Seq<char> {
    seq!['|'] + colored(centered(text, INNER_WIDTH as nat), color) + seq!['|']
}

/// A frame as a mathematical value.
pub struct FrameModel {
    pub col: u16,
    pub row: u16,
    pub lines: Seq<Seq<char>>,
}

/// The frame of a display state.
pub open spec fn frame_of(title: Seq<char>, width: u16, height: u16, seconds: u64) -> FrameModel {
    FrameModel {
        col: box_start(width, BOX_WIDTH),
        row: box_start(height, BOX_HEIGHT),
        lines: seq![
            repeated('-', BOX_WIDTH as nat),
            content_line(truncated(title, INNER_WIDTH as nat), Color::Cyan),
            content_line(time_text(seconds as nat), Color::Yellow),
            repeated('-', BOX_WIDTH as nat),
        ],
    }
}

/// What to paint: the column and row of the box's top-left corner and its
/// lines from top to bottom, one terminal row each.
#[derive(Debug, Clone)]
pub struct Frame {
    pub col: u16,
    pub row: u16,
    pub lines: Vec<String>,
}

impl View for Frame {
    type V = FrameModel;

    open spec fn view(&self) -> FrameModel {
        FrameModel { col: self.col, row: self.row, lines: texts(self.lines@) }
    }
}

/// A run of one character, given as a one-character string.
fn run_of(unit: &str, count: usize) -> (s: String)
    requires
        unit@.len() == 1,
    ensures
        s@ == repeated(unit@[0], count as nat),
{
    let mut s = String::new();
    let mut i: usize = 0;
    while i < count
        invariant
            i <= count,
            unit@.len() == 1,
            s@ == repeated(unit@[0], i as nat),
        decreases count - i,
    {
        s.append(unit);
        i += 1;
    }
    s
}

/// A run of spaces.
pub fn blank_run(count: usize) -> (s: String)
    ensures
        s@ == spaces(count as nat),
{
    proof {
        reveal_strlit(" ");
    }
    run_of(" ", count)
}

/// A run of dashes.
pub fn dash_run(count: usize) -> (s: String)
    ensures
        s@ == repeated('-', count as nat),
{
    proof {
        reveal_strlit("-");
    }
    run_of("-", count)
}

/// Wraps a text in the sequences that show it in a colour.
pub fn format_string_with_color(str: &str, color: Color) -> (s: String)
    ensures
        s@ == colored(str@, color),
{
    let start = match color {
        Color::Red => "\x1b[91m",
        Color::Green => "\x1b[92m",
        Color::Blue => "\x1b[94m",
        Color::Yellow => "\x1b[93m",
        Color::Magenta => "\x1b[95m",
        Color::Cyan => "\x1b[96m",
        Color::White => "\x1b[97m",
        Color::Black => "\x1b[90m",
    };
    String::from_str(start).concat(str).concat(COLOR_RESET)
}

fn two_digit_string(n: u64) -> (s: String)
    ensures
        s@ == two_digits(n as nat),
{
    if n < 10 {
        proof {
            reveal_strlit("0");
        }
        String::from_str("0").concat(decimal_string(n).as_str())
    } else {
        decimal_string(n)
    }
}

/// Writes seconds as minutes and seconds, each in at least two digits.
pub fn format_time(seconds: u64) -> (s: String)
    ensures
        s@ == time_text(seconds as nat),
{
    proof {
        reveal_strlit(":");
    }
    let minutes = two_digit_string(seconds / 60);
    let rest = two_digit_string(seconds % 60);
    minutes.concat(":").concat(rest.as_str())
}

/// Moves a text to the middle of a width by spaces in front of it. Lengths
/// are counted in characters.
pub fn center_text(text: &str, width: usize) -> (s: String)
    ensures
        s@ == indented(text@, width as nat),
{
    let length = text.unicode_len();
    let padding = if length < width {
        (width - length) / 2
    } else {
        0
    };
    blank_run(padding).concat(text)
}

/// Centres a text in a width by spaces on both sides.
pub fn center_both(text: &str, width: usize) -> (s: String)
    ensures
        s@ == centered(text@, width as nat),
{
    let length = text.unicode_len();
    if length >= width {
        String::from_str(text)
    } else {
        let left = (width - length) / 2;
        let right = width - length - left;
        blank_run(left).concat(text).concat(blank_run(right).as_str())
    }
}

/// The first `width` characters of a text.
pub fn truncate(text: &str, width: usize) -> (s: &str)
    ensures
        s@ == truncated(text@, width as nat),
{
    if text.unicode_len() > width {
        text.substring_char(0, width)
    } else {
        text
    }
}

fn content(text: &str, color: Color) -> (s: String)
    ensures
        s@ == content_line(text@, color),
{
    proof {
        reveal_strlit("|");
    }
    let middle = center_both(text, INNER_WIDTH);
    let painted = format_string_with_color(middle.as_str(), color);
    String::from_str("|").concat(painted.as_str()).concat("|")
}

/// Where a box of a given size starts in a terminal of a given size.
pub fn box_origin(terminal: u16, size: u16) -> (start: u16)
    ensures
        start == box_start(terminal, size),
{
    if terminal >= size {
        (terminal - size) / 2
    } else {
        0
    }
}

/// Maps a display state to its frame: top border, title, time left, bottom
/// border. The quit flag does not show.
pub fn draw_ui(state: &AppState) -> (frame: Frame)
    ensures
        frame@ == frame_of(state.title@, state.term_width, state.term_height, state.current_time),
{
    let title = truncate(state.title.as_str(), INNER_WIDTH);
    let time = format_time(state.current_time);
    let lines = vec![
        dash_run(BOX_WIDTH as usize),
        content(title, Color::Cyan),
        content(time.as_str(), Color::Yellow),
        dash_run(BOX_WIDTH as usize),
    ];
    assert(texts(lines@) =~= frame_of(
        state.title@,
        state.term_width,
        state.term_height,
        state.current_time,
    ).lines);
    Frame {
        col: box_origin(state.term_width, BOX_WIDTH),
        row: box_origin(state.term_height, BOX_HEIGHT),
        lines,
    }
}

/// The frame has the same shape whatever it shows: four lines, borders of
/// forty dashes, and a box that lies within the terminal wherever the
/// terminal is at least as large as the box.
pub proof fn law_frame_shape(title: Seq<char>, width: u16, height: u16, seconds: u64)
    ensures
        ({
            let frame = frame_of(title, width, height, seconds);
            &&& frame.lines.len() == 4
            &&& frame.lines[0].len() == 40 && frame.lines[3].len() == 40
            &&& frame.lines[0] == frame.lines[3]
            &&& width >= BOX_WIDTH ==> frame.col + BOX_WIDTH <= width
            &&& height >= BOX_HEIGHT ==> frame.row + BOX_HEIGHT <= height
            &&& width < BOX_WIDTH ==> frame.col == 0
            &&& height < BOX_HEIGHT ==> frame.row == 0
            &&& centered(truncated(title, INNER_WIDTH as nat), INNER_WIDTH as nat).len() == 38
        }),
{
}

} // verus!
