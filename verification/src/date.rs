//! Calendar dates and their wire form. Unlike the platform's integers, a
//! date travels as a plain JSON string `"YYYY-MM-DD"`; decoding fails on any
//! other shape.

use vstd::prelude::*;

use crate::codec::{
    digit_char, digit_value, is_digit_char, is_malformed, malformed,
};
use crate::error::MispError;
use crate::json::{Jv, JsonValue};

verus! {

/// A calendar date (proleptic Gregorian, years 0 through 9999).
#[derive(Debug, Clone, Copy, PartialEq, Eq, Structural)]
pub struct Date {
    pub year: u16,
    pub month: u8,
    pub day: u8,
}

pub open spec fn is_leap_year(y: int) -> bool {
    y % 4 == 0 && (y % 100 != 0 || y % 400 == 0)
}

pub open spec fn days_in_month(y: int, m: int) -> int {
    if m == 2 {
        if is_leap_year(y) {
            29
        } else {
            28
        }
    } else if m == 4 || m == 6 || m == 9 || m == 11 {
        30
    } else {
        31
    }
}

pub open spec fn date_valid(y: int, m: int, d: int) -> bool {
    0 <= y <= 9999 && 1 <= m <= 12 && 1 <= d <= days_in_month(y, m)
}

impl Date {
    /// Well-formedness: a real calendar date within the wire form's range.
    pub open spec fn valid(self) -> bool {
        date_valid(self.year as int, self.month as int, self.day as int)
    }

    /// Decides well-formedness, for callers outside verified code.
    pub fn is_valid(&self) -> (r: bool)
        ensures
            r == self.valid(),
    {
        let months_30 = self.month == 4 || self.month == 6 || self.month == 9 || self.month == 11;
        let leap = self.year % 4 == 0 && (self.year % 100 != 0 || self.year % 400 == 0);
        let dim: u8 = if self.month == 2 {
            if leap {
                29
            } else {
                28
            }
        } else if months_30 {
            30
        } else {
            31
        };
        self.year <= 9999 && 1 <= self.month && self.month <= 12 && 1 <= self.day && self.day
            <= dim
    }
}

// ---------------------------------------------------------------------------
// The wire text of a date.
// ---------------------------------------------------------------------------
/// Two decimal digits, zero padded.
pub open spec fn pad2(n: int) -> Seq<char> {
    seq![digit_char(n / 10 % 10), digit_char(n % 10)]
}

/// Four decimal digits, zero padded.
pub open spec fn pad4(n: int) -> Seq<char> {
    seq![
        digit_char(n / 1000 % 10),
        digit_char(n / 100 % 10),
        digit_char(n / 10 % 10),
        digit_char(n % 10),
    ]
}

pub open spec fn date_to_text(d: Date) -> Seq<char> {
    pad4(d.year as int) + seq!['-'] + pad2(d.month as int) + seq!['-'] + pad2(d.day as int)
}

/// The value of two decimal digits at position `i` of `s`.
pub open spec fn two_digit_value(s: Seq<char>, i: int) -> int {
    digit_value(s[i]) * 10 + digit_value(s[i + 1])
}

/// The value of four decimal digits at position `i` of `s`.
pub open spec fn four_digit_value(s: Seq<char>, i: int) -> int {
    ((digit_value(s[i]) * 10 + digit_value(s[i + 1])) * 10 + digit_value(s[i + 2])) * 10
        + digit_value(s[i + 3])
}

/// The exact shape `"YYYY-MM-DD"`, denoting a real calendar date.
pub open spec fn is_date_text(s: Seq<char>) -> bool {
    &&& s.len() == 10
    &&& is_digit_char(s[0])
    &&& is_digit_char(s[1])
    &&& is_digit_char(s[2])
    &&& is_digit_char(s[3])
    &&& s[4] == '-'
    &&& is_digit_char(s[5])
    &&& is_digit_char(s[6])
    &&& s[7] == '-'
    &&& is_digit_char(s[8])
    &&& is_digit_char(s[9])
    &&& date_valid(four_digit_value(s, 0), two_digit_value(s, 5), two_digit_value(s, 8))
}

pub open spec fn date_of_text(s: Seq<char>) -> Date {
    Date {
        year: four_digit_value(s, 0) as u16,
        month: two_digit_value(s, 5) as u8,
        day: two_digit_value(s, 8) as u8,
    }
}

// ---------------------------------------------------------------------------
// Executable formatting and parsing.
// ---------------------------------------------------------------------------
fn push_two_digits(s: &mut String, n: u16)
    requires
        n < 100,
    ensures
        final(s)@ == old(s)@ + pad2(n as int),
{
    crate::codec::push_digit_char(s, (n / 10) as u64);
    crate::codec::push_digit_char(s, (n % 10) as u64);
    assert(final(s)@ =~= old(s)@ + pad2(n as int));
}

/// Formats a date as the platform's `"YYYY-MM-DD"` text.
pub fn format_date(d: Date) -> (r: String)
    requires
        d.valid(),
    ensures
        r@ == date_to_text(d),
{
    let mut s = String::new();
    crate::codec::push_digit_char(&mut s, (d.year / 1000) as u64);
    assert(d.year / 1000 % 10 == d.year / 1000) by {
        assert(d.year / 1000 <= 9);
    }
    crate::codec::push_digit_char(&mut s, (d.year / 100 % 10) as u64);
    crate::codec::push_digit_char(&mut s, (d.year / 10 % 10) as u64);
    crate::codec::push_digit_char(&mut s, (d.year % 10) as u64);
    crate::codec::push_char(&mut s, '-');
    push_two_digits(&mut s, d.month as u16);
    crate::codec::push_char(&mut s, '-');
    push_two_digits(&mut s, d.day as u16);
    assert(s@ =~= date_to_text(d));
    s
}

fn read_digit(s: &str, i: usize) -> (r: Result<u16, MispError>)
    requires
        i < s@.len(),
    ensures
        is_digit_char(s@[i as int]) ==> (r matches Ok(d) && d == digit_value(s@[i as int])),
        !is_digit_char(s@[i as int]) ==> (r matches Err(e) && is_malformed(e, s@)),
{
    let c = s.get_char(i);
    let u = c as u32;
    if u < 48 || u > 57 {
        return Err(malformed(s, "a calendar date YYYY-MM-DD"));
    }
    Ok((u - 48) as u16)
}

/// Parses the platform's `"YYYY-MM-DD"` text. Succeeds exactly on that
/// shape, and only for real calendar dates.
pub fn parse_date(s: &str) -> (r: Result<Date, MispError>)
    ensures
        is_date_text(s@) ==> (r matches Ok(d) && d == date_of_text(s@) && d.valid()),
        !is_date_text(s@) ==> (r matches Err(e) && is_malformed(e, s@)),
{
    if s.unicode_len() != 10 {
        return Err(malformed(s, "a calendar date YYYY-MM-DD"));
    }
    if s.get_char(4) != '-' || s.get_char(7) != '-' {
        return Err(malformed(s, "a calendar date YYYY-MM-DD"));
    }
    let y0 = read_digit(s, 0)?;
    let y1 = read_digit(s, 1)?;
    let y2 = read_digit(s, 2)?;
    let y3 = read_digit(s, 3)?;
    let m0 = read_digit(s, 5)?;
    let m1 = read_digit(s, 6)?;
    let d0 = read_digit(s, 8)?;
    let d1 = read_digit(s, 9)?;
    let year: u16 = ((y0 * 10 + y1) * 10 + y2) * 10 + y3;
    let month: u8 = (m0 * 10 + m1) as u8;
    let day: u8 = (d0 * 10 + d1) as u8;
    let months_30 = month == 4 || month == 6 || month == 9 || month == 11;
    let leap = year % 4 == 0 && (year % 100 != 0 || year % 400 == 0);
    let dim: u8 = if month == 2 {
        if leap {
            29
        } else {
            28
        }
    } else if months_30 {
        30
    } else {
        31
    };
    if month < 1 || month > 12 || day < 1 || day > dim {
        return Err(malformed(s, "a calendar date YYYY-MM-DD"));
    }
    Ok(Date { year, month, day })
}

// ---------------------------------------------------------------------------
// JSON-level codec and the round trip.
// ---------------------------------------------------------------------------
pub open spec fn jv_dec_date(v: Jv) -> Option<Date> {
    match v {
        Jv::Text(s) => if is_date_text(s) {
            Some(date_of_text(s))
        } else {
            None
        },
        _ => None,
    }
}

/// Decodes a date from its JSON wire form: a plain string `"YYYY-MM-DD"`.
pub fn decode_date_json(v: &JsonValue) -> (r: Result<Date, MispError>)
    ensures
        jv_dec_date(v@) matches Some(d) ==> (r matches Ok(c) && c == d && c.valid()),
        jv_dec_date(v@) is None ==> (r matches Err(e) && e is MalformedValue),
{
    match v {
        JsonValue::Text(s) => parse_date(s.as_str()),
        _ => Err(malformed("", "a JSON string holding a calendar date")),
    }
}

/// Encodes a date as its JSON wire form.
pub fn encode_date_json(d: Date) -> (r: JsonValue)
    requires
        d.valid(),
    ensures
        r@ == Jv::Text(date_to_text(d)),
{
    JsonValue::Text(format_date(d))
}

/// Parsing the formatted text of any valid date gives that date back.
pub proof fn lemma_date_round_trip(d: Date)
    requires
        d.valid(),
    ensures
        is_date_text(date_to_text(d)),
        date_of_text(date_to_text(d)) == d,
{
    let s = date_to_text(d);
    let y = d.year as int;
    let m = d.month as int;
    let dd = d.day as int;
    assert(s.len() == 10);
    assert(s[0] == digit_char(y / 1000 % 10));
    assert(s[1] == digit_char(y / 100 % 10));
    assert(s[2] == digit_char(y / 10 % 10));
    assert(s[3] == digit_char(y % 10));
    assert(s[4] == '-');
    assert(s[5] == digit_char(m / 10 % 10));
    assert(s[6] == digit_char(m % 10));
    assert(s[7] == '-');
    assert(s[8] == digit_char(dd / 10 % 10));
    assert(s[9] == digit_char(dd % 10));
    crate::codec::lemma_digit_char_value(y / 1000 % 10);
    crate::codec::lemma_digit_char_value(y / 100 % 10);
    crate::codec::lemma_digit_char_value(y / 10 % 10);
    crate::codec::lemma_digit_char_value(y % 10);
    crate::codec::lemma_digit_char_value(m / 10 % 10);
    crate::codec::lemma_digit_char_value(m % 10);
    crate::codec::lemma_digit_char_value(dd / 10 % 10);
    crate::codec::lemma_digit_char_value(dd % 10);
    assert(four_digit_value(s, 0) == ((y / 1000 % 10 * 10 + y / 100 % 10) * 10 + y / 10 % 10) * 10
        + y % 10);
    assert(((y / 1000 % 10 * 10 + y / 100 % 10) * 10 + y / 10 % 10) * 10 + y % 10 == y) by {
        lemma_four_digit_recompose(y);
    }
    assert(two_digit_value(s, 5) == m / 10 % 10 * 10 + m % 10);
    assert(m / 10 % 10 * 10 + m % 10 == m) by {
        lemma_two_digit_recompose(m);
    }
    assert(two_digit_value(s, 8) == dd / 10 % 10 * 10 + dd % 10);
    assert(dd / 10 % 10 * 10 + dd % 10 == dd) by {
        lemma_two_digit_recompose(dd);
    }
}

proof fn lemma_two_digit_recompose(n: int)
    requires
        0 <= n < 100,
    ensures
        n / 10 % 10 * 10 + n % 10 == n,
{
    assert(n / 10 % 10 == n / 10);
    assert(n / 10 * 10 + n % 10 == n) by (nonlinear_arith)
        requires
            0 <= n,
    ;
}

proof fn lemma_four_digit_recompose(n: int)
    requires
        0 <= n < 10000,
    ensures
        ((n / 1000 % 10 * 10 + n / 100 % 10) * 10 + n / 10 % 10) * 10 + n % 10 == n,
{
    assert(n / 1000 % 10 == n / 1000);
    assert(n / 1000 * 10 + n / 100 % 10 == n / 100) by (nonlinear_arith)
        requires
            0 <= n < 10000,
    ;
    assert(n / 100 * 10 + n / 10 % 10 == n / 10) by (nonlinear_arith)
        requires
            0 <= n,
    ;
    assert(n / 10 * 10 + n % 10 == n) by (nonlinear_arith)
        requires
            0 <= n,
    ;
}

} // verus!
