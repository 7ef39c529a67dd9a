//! Parsing of absolute `YYYY-MM-DDThh:mm:ssZ` timestamp strings.
//!
//! The backends publish every time of interest as a UTC wall-clock string in
//! this one shape. A string parses exactly when it has that shape and every
//! numeric field is within calendar/clock range; anything else is rejected.

use vstd::prelude::*;

verus! {

/// A parsed absolute timestamp, on the UTC wall clock.
#[derive(Clone, Copy, PartialEq, Eq, Structural, Debug)]
pub struct Timestamp {
    pub year: u16,
    pub month: u8,
    pub day: u8,
    pub hour: u8,
    pub minute: u8,
    pub second: u8,
}

impl Timestamp {
    /// Every field is within calendar/clock range.
    pub open spec fn wf(self) -> bool {
        &&& self.year <= 9999
        &&& 1 <= self.month <= 12
        &&& 1 <= self.day <= 31
        &&& self.hour <= 23
        &&& self.minute <= 59
        &&& self.second <= 59
    }
}

/// `c` is an ASCII decimal digit.
pub open spec fn is_digit(c: char) -> bool {
    48 <= c as int && c as int <= 57
}

/// The numeric value of an ASCII decimal digit.
pub open spec fn digit_val(c: char) -> int {
    c as int - 48
}

/// The string has exactly the shape `YYYY-MM-DDThh:mm:ssZ`.
pub open spec fn is_timestamp_shape(s: Seq<char>) -> bool {
    &&& s.len() == 20
    &&& is_digit(s[0]) && is_digit(s[1]) && is_digit(s[2]) && is_digit(s[3])
    &&& s[4] == '-'
    &&& is_digit(s[5]) && is_digit(s[6])
    &&& s[7] == '-'
    &&& is_digit(s[8]) && is_digit(s[9])
    &&& s[10] == 'T'
    &&& is_digit(s[11]) && is_digit(s[12])
    &&& s[13] == ':'
    &&& is_digit(s[14]) && is_digit(s[15])
    &&& s[16] == ':'
    &&& is_digit(s[17]) && is_digit(s[18])
    &&& s[19] == 'Z'
}

/// The value of the two-digit field starting at position `i`.
pub open spec fn two_digit_val(s: Seq<char>, i: int) -> int {
    10 * digit_val(s[i]) + digit_val(s[i + 1])
}

pub open spec fn year_val(s: Seq<char>) -> int {
    1000 * digit_val(s[0]) + 100 * digit_val(s[1]) + 10 * digit_val(s[2]) + digit_val(s[3])
}

pub open spec fn month_val(s: Seq<char>) -> int {
    two_digit_val(s, 5)
}

pub open spec fn day_val(s: Seq<char>) -> int {
    two_digit_val(s, 8)
}

pub open spec fn hour_val(s: Seq<char>) -> int {
    two_digit_val(s, 11)
}

pub open spec fn minute_val(s: Seq<char>) -> int {
    two_digit_val(s, 14)
}

pub open spec fn second_val(s: Seq<char>) -> int {
    two_digit_val(s, 17)
}

/// The numeric fields of a shape-correct string are within range.
pub open spec fn fields_in_range(s: Seq<char>) -> bool {
    &&& 1 <= month_val(s) <= 12
    &&& 1 <= day_val(s) <= 31
    &&& hour_val(s) <= 23
    &&& minute_val(s) <= 59
    &&& second_val(s) <= 59
}

/// The string parses as a timestamp.
pub open spec fn is_valid_timestamp(s: Seq<char>) -> bool {
    is_timestamp_shape(s) && fields_in_range(s)
}

/// The timestamp a valid string denotes.
pub open spec fn timestamp_of(s: Seq<char>) -> Timestamp {
    Timestamp {
        year: year_val(s) as u16,
        month: month_val(s) as u8,
        day: day_val(s) as u8,
        hour: hour_val(s) as u8,
        minute: minute_val(s) as u8,
        second: second_val(s) as u8,
    }
}

/// The numeric value of `c` when it is a decimal digit.
fn digit_of(c: char) -> (r: Option<u8>)
    ensures
        r is Some <==> is_digit(c),
        r matches Some(d) ==> d as int == digit_val(c) && d < 10,
{
    let v = c as u32;
    if 48 <= v && v <= 57 {
        Some((v - 48) as u8)
    } else {
        None
    }
}

/// Parse a `YYYY-MM-DDThh:mm:ssZ` string. Returns the parsed timestamp
/// exactly when the string has that shape with every field in range, and
/// nothing otherwise.
pub fn parse_timestamp(s: &str) -> (r: Option<Timestamp>)
    ensures
        r is Some <==> is_valid_timestamp(s@),
        r matches Some(t) ==> t == timestamp_of(s@) && t.wf(),
{
    let n = s.unicode_len();
    if n != 20 {
        return None;
    }
    if s.get_char(4) != '-' || s.get_char(7) != '-' || s.get_char(10) != 'T' {
        return None;
    }
    if s.get_char(13) != ':' || s.get_char(16) != ':' || s.get_char(19) != 'Z' {
        return None;
    }
    let y0 = match digit_of(s.get_char(0)) {
        Some(d) => d,
        None => { return None; },
    };
    let y1 = match digit_of(s.get_char(1)) {
        Some(d) => d,
        None => { return None; },
    };
    let y2 = match digit_of(s.get_char(2)) {
        Some(d) => d,
        None => { return None; },
    };
    let y3 = match digit_of(s.get_char(3)) {
        Some(d) => d,
        None => { return None; },
    };
    let mo0 = match digit_of(s.get_char(5)) {
        Some(d) => d,
        None => { return None; },
    };
    let mo1 = match digit_of(s.get_char(6)) {
        Some(d) => d,
        None => { return None; },
    };
    let d0 = match digit_of(s.get_char(8)) {
        Some(d) => d,
        None => { return None; },
    };
    let d1 = match digit_of(s.get_char(9)) {
        Some(d) => d,
        None => { return None; },
    };
    let h0 = match digit_of(s.get_char(11)) {
        Some(d) => d,
        None => { return None; },
    };
    let h1 = match digit_of(s.get_char(12)) {
        Some(d) => d,
        None => { return None; },
    };
    let mi0 = match digit_of(s.get_char(14)) {
        Some(d) => d,
        None => { return None; },
    };
    let mi1 = match digit_of(s.get_char(15)) {
        Some(d) => d,
        None => { return None; },
    };
    let s0 = match digit_of(s.get_char(17)) {
        Some(d) => d,
        None => { return None; },
    };
    let s1 = match digit_of(s.get_char(18)) {
        Some(d) => d,
        None => { return None; },
    };
    let year: u16 = 1000 * (y0 as u16) + 100 * (y1 as u16) + 10 * (y2 as u16) + (y3 as u16);
    let month: u8 = 10 * mo0 + mo1;
    let day: u8 = 10 * d0 + d1;
    let hour: u8 = 10 * h0 + h1;
    let minute: u8 = 10 * mi0 + mi1;
    let second: u8 = 10 * s0 + s1;
    if month < 1 || month > 12 {
        return None;
    }
    if day < 1 || day > 31 {
        return None;
    }
    if hour > 23 {
        return None;
    }
    if minute > 59 || second > 59 {
        return None;
    }
    Some(Timestamp { year, month, day, hour, minute, second })
}

} // verus!
