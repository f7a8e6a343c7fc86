//! How a reading looks on the board: hours, minutes, seconds and
//! milliseconds, as `HH:MM:SS.mmm`.

use crate::clock::duration_nanos;
use crate::clock::NANOS_PER_MILLI;
use std::time::Duration;
use vstd::prelude::*;

verus! {

/// A reading, cut to whole milliseconds and split as a clock shows it.
#[derive(Clone, Copy, Debug, PartialEq, Eq, Structural)]
pub struct ClockFace {
    pub hours: u64,
    pub minutes: u8,
    pub seconds: u8,
    pub millis: u16,
}

/// The whole milliseconds in `nanos` nanoseconds.
pub open spec fn whole_millis(nanos: nat) -> nat {
    nanos / (NANOS_PER_MILLI as nat)
}

/// The character for a single decimal digit.
pub open spec fn digit(d: nat) -> char
    recommends
        d < 10,
{
    if d == 0 {
        '0'
    } else if d == 1 {
        '1'
    } else if d == 2 {
        '2'
    } else if d == 3 {
        '3'
    } else if d == 4 {
        '4'
    } else if d == 5 {
        '5'
    } else if d == 6 {
        '6'
    } else if d == 7 {
        '7'
    } else if d == 8 {
        '8'
    } else {
        '9'
    }
}

/// `value` in decimal digits, with zeros in front where it has fewer than
/// `width` of them.
pub open spec fn decimal(value: nat, width: nat) -> Seq<char>
    decreases value, width,
{
    if value < 10 && width <= 1 {
        seq![digit(value)]
    } else {
        decimal(value / 10, if width > 0 {
            (width - 1) as nat
        } else {
            0
        }).push(digit(value % 10))
    }
}

/// A reading of `nanos` nanoseconds as text: the hours in two digits or
/// more, then minutes and seconds in two digits each behind a colon, then
/// the milliseconds in three digits behind a point.
pub open spec fn reading_text(nanos: nat) -> Seq<char> {
    let millis = whole_millis(nanos);
    decimal(millis / 3_600_000, 2).push(':') + decimal(millis / 60_000 % 60, 2).push(':')
        + decimal(millis / 1_000 % 60, 2).push('.') + decimal(millis % 1_000, 3)
}

/// `String::push` puts one character at the end of a string.
pub assume_specification[ String::push ](text: &mut String, ch: char)
    ensures
        final(text)@ == old(text)@.push(ch),
;

/// Splits the reading `elapsed` as a clock shows it.
pub fn clock_face(elapsed: Duration) -> (face: ClockFace)
    ensures
        face.hours == whole_millis(duration_nanos(elapsed)) / 3_600_000,
        face.minutes == whole_millis(duration_nanos(elapsed)) / 60_000 % 60,
        face.seconds == whole_millis(duration_nanos(elapsed)) / 1_000 % 60,
        face.millis == whole_millis(duration_nanos(elapsed)) % 1_000,
{
    let millis = elapsed.as_nanos() / 1_000_000;
    ClockFace {
        hours: (millis / 3_600_000) as u64,
        minutes: (millis / 60_000 % 60) as u8,
        seconds: (millis / 1_000 % 60) as u8,
        millis: (millis % 1_000) as u16,
    }
}

fn digit_char(d: u64) -> (ch: char)
    requires
        d < 10,
    ensures
        ch == digit(d as nat),
{
    match d {
        0 => '0',
        1 => '1',
        2 => '2',
        3 => '3',
        4 => '4',
        5 => '5',
        6 => '6',
        7 => '7',
        8 => '8',
        _ => '9',
    }
}

/// Writes `value` behind `text` in decimal digits, with zeros in front
/// where it has fewer than `width` of them.
pub fn push_decimal(text: &mut String, value: u64, width: usize)
    ensures
        final(text)@ == old(text)@ + decimal(value as nat, width as nat),
    decreases value, width,
{
    if value >= 10 || width > 1 {
        let rest: usize = if width > 0 {
            width - 1
        } else {
            0
        };
        push_decimal(text, value / 10, rest);
    }
    text.push(digit_char(value % 10));
}

/// The reading `elapsed` as the board shows it, `HH:MM:SS.mmm`.
pub fn format_elapsed(elapsed: Duration) -> (text: String)
    ensures
        text@ == reading_text(duration_nanos(elapsed)),
{
    let face = clock_face(elapsed);
    let mut text = String::new();
    push_decimal(&mut text, face.hours, 2);
    text.push(':');
    push_decimal(&mut text, face.minutes as u64, 2);
    text.push(':');
    push_decimal(&mut text, face.seconds as u64, 2);
    text.push('.');
    push_decimal(&mut text, face.millis as u64, 3);
    text
}

/// How many of `stack_count` stacks a terminal of `terminal_rows` rows
/// shows, one to a row from the top: all that fit above the last row, which
/// is kept for the time of day.
pub fn visible_stacks(stack_count: usize, terminal_rows: u16) -> (shown: usize)
    ensures
        shown == if terminal_rows == 0 {
            0
        } else if stack_count <= terminal_rows - 1 {
            stack_count as int
        } else {
            terminal_rows - 1
        },
{
    if terminal_rows == 0 {
        0
    } else if stack_count <= (terminal_rows - 1) as usize {
        stack_count
    } else {
        (terminal_rows - 1) as usize
    }
}

} // verus!
