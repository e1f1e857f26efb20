//! The number-in-string scalar codec: the platform encodes every integer as
//! a JSON string holding its decimal form. Encoding is total; decoding fails
//! with `MalformedValue` on anything that is not a valid decimal numeral of
//! the expected width and signedness.

use vstd::prelude::*;

use crate::error::MispError;
use crate::json::{Jv, JsonValue};

verus! {

// ---------------------------------------------------------------------------
// Decimal numerals, in specification form.
// ---------------------------------------------------------------------------
pub open spec fn is_digit_char(c: char) -> bool {
    '0' <= c && c <= '9'
}

/// The numeric value of one decimal digit character.
pub open spec fn digit_value(c: char) -> int {
    c as u32 - '0' as u32
}

/// The decimal digit character for a value between 0 and 9.
pub open spec fn digit_char(d: int) -> char {
    if d == 0 {
        '0'
    } else if d == 1 {
        '1'
    } else if d == 2 {
        '2'
    } else if d == 3 {
        '3'
    } else if d == 4 {
        '4'
    } else if d == 5 {
        '5'
    } else if d == 6 {
        '6'
    } else if d == 7 {
        '7'
    } else if d == 8 {
        '8'
    } else {
        '9'
    }
}

pub open spec fn all_digits(s: Seq<char>) -> bool {
    forall|i: int| 0 <= i < s.len() ==> is_digit_char(#[trigger] s[i])
}

/// The integer a sequence of decimal digits denotes (most significant first).
pub open spec fn dec_value(s: Seq<char>) -> int
    decreases s.len(),
{
    if s.len() == 0 {
        0
    } else {
        dec_value(s.drop_last()) * 10 + digit_value(s.last())
    }
}

/// The canonical decimal numeral of an unsigned integer: no sign, no
/// leading zeros.
pub open spec fn u64_to_dec(n: nat) -> Seq<char>
    decreases n,
{
    if n < 10 {
        seq![digit_char(n as int)]
    } else {
        u64_to_dec(n / 10).push(digit_char((n % 10) as int))
    }
}

/// A string accepted by the unsigned decoder: nonempty, all digits, and
/// small enough for the target width.
pub open spec fn is_u64_numeral(s: Seq<char>) -> bool {
    s.len() > 0 && all_digits(s) && dec_value(s) <= u64::MAX
}

pub open spec fn is_u16_numeral(s: Seq<char>) -> bool {
    s.len() > 0 && all_digits(s) && dec_value(s) <= u16::MAX
}

// ---------------------------------------------------------------------------
// Facts about decimal numerals.
// ---------------------------------------------------------------------------
pub proof fn lemma_dec_value_nonneg(s: Seq<char>)
    requires
        all_digits(s),
    ensures
        dec_value(s) >= 0,
    decreases s.len(),
{
    if s.len() > 0 {
        assert(all_digits(s.drop_last()));
        lemma_dec_value_nonneg(s.drop_last());
    }
}

/// Extending a digit string on the right can only grow its value.
pub proof fn lemma_dec_value_take_le(s: Seq<char>, i: int)
    requires
        all_digits(s),
        0 <= i <= s.len(),
    ensures
        dec_value(s.take(i)) <= dec_value(s),
    decreases s.len() - i,
{
    assert(all_digits(s.take(i)));
    if i < s.len() {
        let t = s.take(i + 1);
        assert(t.drop_last() =~= s.take(i));
        assert(t.last() == s[i]);
        lemma_dec_value_nonneg(s.take(i));
        lemma_dec_value_take_le(s, i + 1);
    } else {
        assert(s.take(i) =~= s);
    }
}

/// Reading back the digit character of a value below ten gives that value.
pub proof fn lemma_digit_char_value(d: int)
    requires
        0 <= d <= 9,
    ensures
        is_digit_char(digit_char(d)),
        digit_value(digit_char(d)) == d,
{
}

/// The canonical numeral of `n` is made of digits and denotes `n`.
pub proof fn lemma_u64_to_dec_value(n: nat)
    ensures
        u64_to_dec(n).len() > 0,
        all_digits(u64_to_dec(n)),
        dec_value(u64_to_dec(n)) == n,
    decreases n,
{
    if n < 10 {
        let s = u64_to_dec(n);
        lemma_digit_char_value(n as int);
        assert(s =~= seq![digit_char(n as int)]);
        assert(s.drop_last() =~= Seq::<char>::empty());
        assert(dec_value(s.drop_last()) == 0);
        assert(dec_value(s) == 0 * 10 + digit_value(digit_char(n as int)));
    } else {
        lemma_digit_char_value((n % 10) as int);
        lemma_u64_to_dec_value(n / 10);
        let p = u64_to_dec(n / 10);
        let s = u64_to_dec(n);
        assert(s =~= p.push(digit_char((n % 10) as int)));
        assert(s.drop_last() =~= p);
        assert(s.last() == digit_char((n % 10) as int));
        assert(dec_value(s) == dec_value(p) * 10 + (n % 10));
        assert(n / 10 * 10 + n % 10 == n) by (nonlinear_arith);
    }
}

// ---------------------------------------------------------------------------
// Executable encoder and decoder.
// ---------------------------------------------------------------------------
/// Appends one character to a string.
///
/// Relies on `String::push` of std: the character is appended at the end and
/// nothing else changes.
#[verifier::external_body]
pub(crate) fn push_char(s: &mut String, c: char)
    ensures
        final(s)@ == old(s)@.push(c),
{
    s.push(c);
}

/// Appends the digit character of a value below ten.
pub(crate) fn push_digit_char(s: &mut String, d: u64)
    requires
        d < 10,
    ensures
        final(s)@ == old(s)@.push(digit_char(d as int)),
{
    push_char(s, digit_char_of(d));
}

fn digit_char_of(d: u64) -> (c: char)
    requires
        d < 10,
    ensures
        c == digit_char(d as int),
{
    if d == 0 {
        '0'
    } else if d == 1 {
        '1'
    } else if d == 2 {
        '2'
    } else if d == 3 {
        '3'
    } else if d == 4 {
        '4'
    } else if d == 5 {
        '5'
    } else if d == 6 {
        '6'
    } else if d == 7 {
        '7'
    } else if d == 8 {
        '8'
    } else {
        '9'
    }
}

/// Encodes an unsigned integer in its decimal form, the text the platform
/// embeds in a JSON string.
pub fn encode_u64(n: u64) -> (r: String)
    ensures
        r@ == u64_to_dec(n as nat),
    decreases n,
{
    if n < 10 {
        let mut s = String::new();
        push_char(&mut s, digit_char_of(n));
        assert(s@ =~= seq![digit_char(n as int)]);
        s
    } else {
        assert(n / 10 < n) by (nonlinear_arith)
            requires
                n >= 10,
        ;
        let mut s = encode_u64(n / 10);
        push_char(&mut s, digit_char_of(n % 10));
        assert(s@ =~= u64_to_dec((n / 10) as nat).push(digit_char((n % 10) as int)));
        s
    }
}

/// Holds when `e` is a `MalformedValue` error carrying exactly the text `s`.
pub open spec fn is_malformed(e: MispError, s: Seq<char>) -> bool {
    e matches MispError::MalformedValue { text, .. } && text@ == s
}

pub(crate) fn malformed(text: &str, expected: &str) -> (e: MispError)
    ensures
        e matches MispError::MalformedValue { text: t, expected: x } && t@ == text@ && x@
            == expected@,
{
    MispError::MalformedValue { text: text.to_owned(), expected: expected.to_owned() }
}

/// Reads the digits of `s` from position `start` on as an unsigned 64-bit
/// integer.
fn parse_dec_from(s: &str, start: usize) -> (r: Result<u64, MispError>)
    requires
        start <= s@.len(),
    ensures
        is_u64_numeral(s@.skip(start as int)) ==> (r matches Ok(v) && v == dec_value(
            s@.skip(start as int),
        )),
        !is_u64_numeral(s@.skip(start as int)) ==> (r matches Err(e) && is_malformed(e, s@)),
{
    let ghost t = s@.skip(start as int);
    let len = s.unicode_len();
    if start == len {
        assert(t.len() == 0);
        return Err(malformed(s, "a decimal integer"));
    }
    let mut i: usize = start;
    let mut val: u64 = 0;
    while i < len
        invariant
            start <= i <= len,
            len == s@.len(),
            t == s@.skip(start as int),
            all_digits(t.take(i - start)),
            val == dec_value(t.take(i - start)),
        decreases len - i,
    {
        let c = s.get_char(i);
        assert(s@[i as int] == t[i - start]);
        let u = c as u32;
        if u < 48 || u > 57 {
            assert(!is_digit_char(t[i - start]));
            return Err(malformed(s, "a decimal integer"));
        }
        let d = (u - 48) as u64;
        assert(is_digit_char(t[i - start]));
        assert(d == digit_value(t[i - start]));
        proof {
            lemma_dec_value_nonneg(t.take(i - start));
        }
        if val > (u64::MAX - d) / 10 {
            proof {
                assert(val * 10 + d > u64::MAX) by (nonlinear_arith)
                    requires
                        val > (u64::MAX - d) / 10,
                        d <= 9,
                        val >= 0,
                ;
                assert(t.take(i - start + 1).drop_last() =~= t.take(i - start));
                assert(dec_value(t.take(i - start + 1)) > u64::MAX);
                if all_digits(t) {
                    lemma_dec_value_take_le(t, i - start + 1);
                    assert(dec_value(t) > u64::MAX);
                }
            }
            return Err(malformed(s, "a decimal integer"));
        }
        assert(val * 10 + d <= u64::MAX) by (nonlinear_arith)
            requires
                val <= (u64::MAX - d) / 10,
                d <= 9,
                val >= 0,
        ;
        val = val * 10 + d;
        proof {
            assert(t.take(i - start + 1).drop_last() =~= t.take(i - start));
            assert(t.take(i - start + 1).last() == t[i - start]);
        }
        i = i + 1;
    }
    assert(t.take(len - start) =~= t);
    Ok(val)
}

/// Decodes the decimal form of an unsigned 64-bit integer. Succeeds exactly
/// on nonempty all-digit strings whose value fits.
pub fn decode_u64(s: &str) -> (r: Result<u64, MispError>)
    ensures
        is_u64_numeral(s@) ==> (r matches Ok(v) && v == dec_value(s@)),
        !is_u64_numeral(s@) ==> (r matches Err(e) && is_malformed(e, s@)),
{
    assert(s@.skip(0) =~= s@);
    parse_dec_from(s, 0)
}

// ---------------------------------------------------------------------------
// Signed numerals and epoch timestamps.
// ---------------------------------------------------------------------------
/// The decimal form of a signed integer: a minus sign for negative values,
/// then the magnitude's digits.
pub open spec fn i64_to_dec(v: int) -> Seq<char> {
    if v >= 0 {
        u64_to_dec(v as nat)
    } else {
        seq!['-'] + u64_to_dec((-v) as nat)
    }
}

/// A string accepted by the signed 64-bit decoder.
pub open spec fn is_i64_numeral(s: Seq<char>) -> bool {
    if s.len() > 0 && s[0] == '-' {
        let m = s.skip(1);
        m.len() > 0 && all_digits(m) && -dec_value(m) >= i64::MIN
    } else {
        s.len() > 0 && all_digits(s) && dec_value(s) <= i64::MAX
    }
}

/// The integer a signed numeral denotes.
pub open spec fn i64_numeral_value(s: Seq<char>) -> int {
    if s.len() > 0 && s[0] == '-' {
        -dec_value(s.skip(1))
    } else {
        dec_value(s)
    }
}

/// A point in time, as whole seconds since the Unix epoch (UTC).
#[derive(Debug, Clone, Copy, PartialEq, Eq, Structural)]
pub struct Timestamp(pub i64);

/// Encodes a signed integer in its decimal form.
pub fn encode_i64(v: i64) -> (r: String)
    ensures
        r@ == i64_to_dec(v as int),
{
    if v >= 0 {
        encode_u64(v as u64)
    } else {
        let mag: u64 = if v == i64::MIN {
            9223372036854775808u64
        } else {
            (-v) as u64
        };
        let mut s = String::new();
        push_char(&mut s, '-');
        let digits = encode_u64(mag);
        s.append(digits.as_str());
        assert(s@ =~= seq!['-'] + u64_to_dec((-(v as int)) as nat));
        s
    }
}

/// Decodes the decimal form of a signed 64-bit integer.
pub fn decode_i64(s: &str) -> (r: Result<i64, MispError>)
    ensures
        is_i64_numeral(s@) ==> (r matches Ok(v) && v == i64_numeral_value(s@)),
        !is_i64_numeral(s@) ==> (r matches Err(e) && is_malformed(e, s@)),
{
    let len = s.unicode_len();
    if len == 0 {
        return Err(malformed(s, "a decimal integer"));
    }
    if s.get_char(0) == '-' {
        let ghost m = s@.skip(1);
        match parse_dec_from(s, 1) {
            Ok(mag) => {
                if mag > 9223372036854775808u64 {
                    proof {
                        lemma_dec_value_nonneg(m);
                    }
                    return Err(malformed(s, "a signed 64-bit decimal integer"));
                }
                if mag == 9223372036854775808u64 {
                    Ok(i64::MIN)
                } else {
                    Ok(-(mag as i64))
                }
            },
            Err(e) => {
                proof {
                    if m.len() > 0 && all_digits(m) && -dec_value(m) >= i64::MIN {
                        lemma_dec_value_nonneg(m);
                        assert(is_u64_numeral(m));
                    }
                }
                Err(e)
            },
        }
    } else {
        match parse_dec_from(s, 0) {
            Ok(v) => {
                assert(s@.skip(0) =~= s@);
                if v > i64::MAX as u64 {
                    return Err(malformed(s, "a signed 64-bit decimal integer"));
                }
                Ok(v as i64)
            },
            Err(e) => {
                assert(s@.skip(0) =~= s@);
                Err(e)
            },
        }
    }
}

/// Encodes an instant as the platform does: the decimal Unix seconds.
pub fn encode_timestamp(t: Timestamp) -> (r: String)
    ensures
        r@ == i64_to_dec(t.0 as int),
{
    encode_i64(t.0)
}

/// Decodes the decimal Unix seconds form of an instant.
pub fn decode_timestamp(s: &str) -> (r: Result<Timestamp, MispError>)
    ensures
        is_i64_numeral(s@) ==> (r matches Ok(t) && t.0 == i64_numeral_value(s@)),
        !is_i64_numeral(s@) ==> (r matches Err(e) && is_malformed(e, s@)),
{
    let v = decode_i64(s)?;
    Ok(Timestamp(v))
}

// ---------------------------------------------------------------------------
// Round-trip laws.
// ---------------------------------------------------------------------------
/// Decoding the encoding of any unsigned integer gives that integer back.
pub proof fn lemma_number_in_string_round_trip(n: u64)
    ensures
        is_u64_numeral(u64_to_dec(n as nat)),
        dec_value(u64_to_dec(n as nat)) == n,
{
    lemma_u64_to_dec_value(n as nat);
}

/// Decoding the encoding of any instant (second resolution) gives that
/// instant back.
pub proof fn lemma_timestamp_round_trip(t: Timestamp)
    ensures
        is_i64_numeral(i64_to_dec(t.0 as int)),
        i64_numeral_value(i64_to_dec(t.0 as int)) == t.0,
{
    let v = t.0 as int;
    if v >= 0 {
        lemma_u64_to_dec_value(v as nat);
        let s = i64_to_dec(v);
        assert(s[0] != '-') by {
            lemma_first_digit(v as nat);
        }
    } else {
        lemma_u64_to_dec_value((-v) as nat);
        let s = i64_to_dec(v);
        assert(s[0] == '-');
        assert(s.skip(1) =~= u64_to_dec((-v) as nat));
    }
}

/// The numeral of an unsigned integer starts with a digit, never a sign.
proof fn lemma_first_digit(n: nat)
    ensures
        is_digit_char(u64_to_dec(n)[0]),
    decreases n,
{
    if n < 10 {
        lemma_digit_char_value(n as int);
    } else {
        lemma_first_digit(n / 10);
        assert(u64_to_dec(n)[0] == u64_to_dec(n / 10)[0]);
    }
}

/// Decodes the decimal form of an unsigned 16-bit integer; fails when the
/// value does not fit the narrower width.
pub fn decode_u16(s: &str) -> (r: Result<u16, MispError>)
    ensures
        is_u16_numeral(s@) ==> (r matches Ok(v) && v == dec_value(s@)),
        !is_u16_numeral(s@) ==> (r matches Err(e) && is_malformed(e, s@)),
{
    let v = decode_u64(s)?;
    if v > u16::MAX as u64 {
        return Err(malformed(s, "a 16-bit decimal integer"));
    }
    Ok(v as u16)
}

// ---------------------------------------------------------------------------
// The codec applied to JSON values: integers travel as JSON strings, so a
// value that is not a string is malformed.
// ---------------------------------------------------------------------------
pub open spec fn jv_dec_u64(v: Jv) -> Option<u64> {
    match v {
        Jv::Text(s) => if is_u64_numeral(s) {
            Some(dec_value(s) as u64)
        } else {
            None
        },
        _ => None,
    }
}

pub open spec fn jv_dec_u16(v: Jv) -> Option<u16> {
    match v {
        Jv::Text(s) => if is_u16_numeral(s) {
            Some(dec_value(s) as u16)
        } else {
            None
        },
        _ => None,
    }
}

pub open spec fn jv_dec_timestamp(v: Jv) -> Option<Timestamp> {
    match v {
        Jv::Text(s) => if is_i64_numeral(s) {
            Some(Timestamp(i64_numeral_value(s) as i64))
        } else {
            None
        },
        _ => None,
    }
}

pub open spec fn jv_dec_bool(v: Jv) -> Option<bool> {
    match v {
        Jv::Bool(b) => Some(b),
        _ => None,
    }
}

pub open spec fn jv_dec_text(v: Jv) -> Option<Seq<char>> {
    match v {
        Jv::Text(s) => Some(s),
        _ => None,
    }
}

/// Decodes a number-in-string JSON value as an unsigned 64-bit integer.
pub fn decode_u64_json(v: &JsonValue) -> (r: Result<u64, MispError>)
    ensures
        jv_dec_u64(v@) matches Some(n) ==> (r matches Ok(m) && m == n),
        jv_dec_u64(v@) is None ==> (r matches Err(e) && e is MalformedValue),
{
    match v {
        JsonValue::Text(s) => decode_u64(s.as_str()),
        _ => Err(malformed("", "a JSON string holding a decimal integer")),
    }
}

/// Decodes a number-in-string JSON value as an unsigned 16-bit integer.
pub fn decode_u16_json(v: &JsonValue) -> (r: Result<u16, MispError>)
    ensures
        jv_dec_u16(v@) matches Some(n) ==> (r matches Ok(m) && m == n),
        jv_dec_u16(v@) is None ==> (r matches Err(e) && e is MalformedValue),
{
    match v {
        JsonValue::Text(s) => decode_u16(s.as_str()),
        _ => Err(malformed("", "a JSON string holding a decimal integer")),
    }
}

/// Decodes a number-in-string JSON value as an epoch timestamp.
pub fn decode_timestamp_json(v: &JsonValue) -> (r: Result<Timestamp, MispError>)
    ensures
        jv_dec_timestamp(v@) matches Some(t) ==> (r matches Ok(u) && u == t),
        jv_dec_timestamp(v@) is None ==> (r matches Err(e) && e is MalformedValue),
{
    match v {
        JsonValue::Text(s) => decode_timestamp(s.as_str()),
        _ => Err(malformed("", "a JSON string holding decimal Unix seconds")),
    }
}

/// Reads a JSON boolean.
pub fn decode_bool_json(v: &JsonValue) -> (r: Result<bool, MispError>)
    ensures
        jv_dec_bool(v@) matches Some(b) ==> (r matches Ok(c) && c == b),
        jv_dec_bool(v@) is None ==> (r matches Err(e) && e is MalformedValue),
{
    match v {
        JsonValue::Bool(b) => Ok(*b),
        _ => Err(malformed("", "a JSON boolean")),
    }
}

/// Reads a JSON string as owned text.
pub fn decode_text_json(v: &JsonValue) -> (r: Result<String, MispError>)
    ensures
        jv_dec_text(v@) matches Some(s) ==> (r matches Ok(t) && t@ == s),
        jv_dec_text(v@) is None ==> (r matches Err(e) && e is MalformedValue),
{
    match v {
        JsonValue::Text(s) => Ok(s.clone()),
        _ => Err(malformed("", "a JSON string")),
    }
}

/// Encodes an unsigned integer the platform's way: a JSON string holding its
/// decimal form.
pub fn encode_u64_json(n: u64) -> (r: JsonValue)
    ensures
        r@ == Jv::Text(u64_to_dec(n as nat)),
{
    JsonValue::Text(encode_u64(n))
}

/// Encodes an instant the platform's way: a JSON string holding the decimal
/// Unix seconds.
pub fn encode_timestamp_json(t: Timestamp) -> (r: JsonValue)
    ensures
        r@ == Jv::Text(i64_to_dec(t.0 as int)),
{
    JsonValue::Text(encode_timestamp(t))
}

} // verus!
