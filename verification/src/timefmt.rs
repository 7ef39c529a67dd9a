//! Rendering of timestamps as `hh:mm` display strings, in the native UTC
//! clock and shifted into a destination zone by a whole-hour offset.
//!
//! The shifted time wraps on the 24-hour clock; the date is deliberately
//! dropped from the formatted string. An absent timestamp renders as a pair
//! of empty strings.

use crate::timestamp::Timestamp;
use vstd::prelude::*;
use vstd::string::StringExecFns;

verus! {

/// The ASCII character for a decimal digit value.
pub open spec fn digit_char(d: int) -> char {
    if d == 0 {
        '0'
    } else if d == 1 {
        '1'
    } else if d == 2 {
        '2'
    } else if d == 3 {
        '3'
    } else if d == 4 {
        '4'
    } else if d == 5 {
        '5'
    } else if d == 6 {
        '6'
    } else if d == 7 {
        '7'
    } else if d == 8 {
        '8'
    } else {
        '9'
    }
}

/// A value below 100 rendered as exactly two digits, zero-padded.
pub open spec fn two_digit_seq(n: int) -> Seq<char> {
    seq![digit_char(n / 10), digit_char(n % 10)]
}

/// `hh:mm`, both fields two-digit zero-padded.
pub open spec fn hhmm_seq(hour: int, minute: int) -> Seq<char> {
    two_digit_seq(hour) + seq![':'] + two_digit_seq(minute)
}

/// The hour re-expressed under a signed whole-hour offset, wrapped onto the
/// 24-hour clock.
pub open spec fn shifted_hour_spec(hour: int, offset: int) -> int {
    (hour + offset) % 24
}

/// `hh:mm`, followed by a space and the label when the label is non-empty.
pub open spec fn labeled_time_seq(hour: int, minute: int, label: Seq<char>) -> Seq<char> {
    hhmm_seq(hour, minute) + if label.len() == 0 {
        Seq::<char>::empty()
    } else {
        seq![' '] + label
    }
}

/// The native-clock rendering of an optional timestamp.
pub open spec fn native_seq(t: Option<Timestamp>, label: Seq<char>) -> Seq<char> {
    match t {
        None => Seq::<char>::empty(),
        Some(ts) => labeled_time_seq(ts.hour as int, ts.minute as int, label),
    }
}

/// The offset-shifted rendering of an optional timestamp.
pub open spec fn converted_seq(t: Option<Timestamp>, offset: int, label: Seq<char>) -> Seq<char> {
    match t {
        None => Seq::<char>::empty(),
        Some(ts) => labeled_time_seq(
            shifted_hour_spec(ts.hour as int, offset),
            ts.minute as int,
            label,
        ),
    }
}

/// An absent timestamp renders as two empty strings, whatever the offset and
/// labels.
pub proof fn lemma_absent_renders_empty(offset: int, source_label: Seq<char>, dest_label: Seq<char>)
    ensures
        native_seq(None, source_label) == Seq::<char>::empty(),
        converted_seq(None, offset, dest_label) == Seq::<char>::empty(),
{
}

/// Hour and minute fields below ten are zero-padded to two digits: the
/// rendering is always exactly five characters around a central colon.
pub proof fn lemma_two_digit_padding(hour: int, minute: int)
    requires
        0 <= hour < 24,
        0 <= minute < 60,
    ensures
        hhmm_seq(hour, minute).len() == 5,
        hhmm_seq(hour, minute)[2] == ':',
        hour < 10 ==> hhmm_seq(hour, minute)[0] == '0',
        minute < 10 ==> hhmm_seq(hour, minute)[3] == '0',
{
}

/// The single character string for a decimal digit value.
fn digit_str(d: u8) -> (s: &'static str)
    requires
        d < 10,
    ensures
        s@ == seq![digit_char(d as int)],
{
    proof {
        reveal_strlit("0");
        reveal_strlit("1");
        reveal_strlit("2");
        reveal_strlit("3");
        reveal_strlit("4");
        reveal_strlit("5");
        reveal_strlit("6");
        reveal_strlit("7");
        reveal_strlit("8");
        reveal_strlit("9");
    }
    let s = match d {
        0 => "0",
        1 => "1",
        2 => "2",
        3 => "3",
        4 => "4",
        5 => "5",
        6 => "6",
        7 => "7",
        8 => "8",
        _ => "9",
    };
    assert(s@ =~= seq![digit_char(d as int)]);
    s
}

/// Append a value below 100 as two zero-padded digits.
fn push_two_digits(out: &mut String, n: u8)
    requires
        n < 100,
    ensures
        final(out)@ == old(out)@ + two_digit_seq(n as int),
{
    out.append(digit_str(n / 10));
    out.append(digit_str(n % 10));
    assert(out@ =~= old(out)@ + two_digit_seq(n as int));
}

/// Render an `hh:mm` wall-clock string, zero-padded.
pub fn format_hhmm(hour: u8, minute: u8) -> (s: String)
    requires
        hour < 24,
        minute < 60,
    ensures
        s@ == hhmm_seq(hour as int, minute as int),
{
    let mut s = String::new();
    push_two_digits(&mut s, hour);
    s.append(":");
    push_two_digits(&mut s, minute);
    proof {
        reveal_strlit(":");
    }
    assert(s@ =~= hhmm_seq(hour as int, minute as int));
    s
}

/// Shift an hour of day by a signed whole-hour offset, wrapping on the
/// 24-hour clock.
pub fn shift_hour(hour: u8, offset: i32) -> (h: u8)
    requires
        hour < 24,
    ensures
        h as int == shifted_hour_spec(hour as int, offset as int),
        h < 24,
{
    let sum: i64 = hour as i64 + offset as i64;
    let v = sum.checked_rem_euclid(24).unwrap();
    v as u8
}

/// Render an optional timestamp both on its native UTC clock and shifted by
/// the effective offset, each suffixed with its label when the label is
/// non-empty. An absent timestamp yields two empty strings.
pub fn format_pair(t: Option<Timestamp>, offset: i32, source_label: &str, dest_label: &str) -> (p: (
    String,
    String,
))
    requires
        t matches Some(ts) ==> ts.wf(),
    ensures
        p.0@ == native_seq(t, source_label@),
        p.1@ == converted_seq(t, offset as int, dest_label@),
{
    match t {
        None => (String::new(), String::new()),
        Some(ts) => {
            let mut native = format_hhmm(ts.hour, ts.minute);
            if source_label.unicode_len() > 0 {
                native.append(" ");
                native.append(source_label);
            }
            let sh = shift_hour(ts.hour, offset);
            let mut converted = format_hhmm(sh, ts.minute);
            if dest_label.unicode_len() > 0 {
                converted.append(" ");
                converted.append(dest_label);
            }
            proof {
                reveal_strlit(" ");
            }
            assert(native@ =~= native_seq(t, source_label@));
            assert(converted@ =~= converted_seq(t, offset as int, dest_label@));
            (native, converted)
        },
    }
}

} // verus!
