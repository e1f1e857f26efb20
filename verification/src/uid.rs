//! Global identifiers: 128-bit UUID values and their canonical text, the
//! lowercase hyphenated form the platform uses in URLs and JSON strings.

use vstd::prelude::*;

use crate::codec::{is_malformed, malformed};
use crate::error::MispError;
use crate::json::{Jv, JsonValue};

verus! {

/// A globally unique identifier, as its 128-bit value.
#[derive(Debug, Clone, Copy, PartialEq, Eq, Structural)]
pub struct Uuid(pub u128);

pub open spec fn is_hex_digit(c: char) -> bool {
    ('0' <= c && c <= '9') || ('a' <= c && c <= 'f') || ('A' <= c && c <= 'F')
}

/// The numeric value of one hexadecimal digit character, either case.
pub open spec fn hex_value(c: char) -> int {
    if '0' <= c && c <= '9' {
        c as u32 - '0' as u32
    } else if 'a' <= c && c <= 'f' {
        c as u32 - 'a' as u32 + 10
    } else {
        c as u32 - 'A' as u32 + 10
    }
}

/// The lowercase hexadecimal digit character of a value below sixteen.
pub open spec fn hex_digit_char(d: int) -> char {
    if d < 10 {
        crate::codec::digit_char(d)
    } else if d == 10 {
        'a'
    } else if d == 11 {
        'b'
    } else if d == 12 {
        'c'
    } else if d == 13 {
        'd'
    } else if d == 14 {
        'e'
    } else {
        'f'
    }
}

/// The canonical text has hyphens at these four positions.
pub open spec fn uuid_hyphen_pos(i: int) -> bool {
    i == 8 || i == 13 || i == 18 || i == 23
}

/// How many of the first `i` positions of the canonical text hold a
/// hexadecimal digit.
pub open spec fn uuid_hex_count(i: int) -> int {
    i - (if i > 8 {
        1int
    } else {
        0int
    }) - (if i > 13 {
        1int
    } else {
        0int
    }) - (if i > 18 {
        1int
    } else {
        0int
    }) - (if i > 23 {
        1int
    } else {
        0int
    })
}

/// The `k`-th nibble of a UUID value, most significant first.
pub open spec fn uuid_nibble(u: u128, k: int) -> int {
    ((u >> (((31 - k) * 4) as u128)) & 0xf) as int
}

pub open spec fn uuid_char_at(u: u128, i: int) -> char {
    if uuid_hyphen_pos(i) {
        '-'
    } else {
        hex_digit_char(uuid_nibble(u, uuid_hex_count(i)))
    }
}

/// The canonical lowercase hyphenated text of a UUID value.
pub open spec fn uuid_to_text(u: u128) -> Seq<char> {
    Seq::new(36, |i: int| uuid_char_at(u, i))
}

/// A well-formed hyphenated UUID text: hyphens at their four positions, a
/// hexadecimal digit (either case) everywhere else.
pub open spec fn is_uuid_text(s: Seq<char>) -> bool {
    s.len() == 36 && forall|i: int|
        0 <= i < 36 ==> (if uuid_hyphen_pos(i) {
            #[trigger] s[i] == '-'
        } else {
            is_hex_digit(s[i])
        })
}

/// The value the first `i` positions of a UUID text denote.
pub open spec fn uuid_prefix_value(s: Seq<char>, i: int) -> int
    decreases i,
{
    if i <= 0 {
        0
    } else if uuid_hyphen_pos(i - 1) {
        uuid_prefix_value(s, i - 1)
    } else {
        uuid_prefix_value(s, i - 1) * 16 + hex_value(s[i - 1])
    }
}

pub open spec fn uuid_of_text(s: Seq<char>) -> Uuid {
    Uuid(uuid_prefix_value(s, 36) as u128)
}

/// Sixteen to the power `n`.
pub open spec fn pow16(n: nat) -> nat
    decreases n,
{
    if n == 0 {
        1
    } else {
        16 * pow16((n - 1) as nat)
    }
}

proof fn lemma_pow16_mono(a: nat, b: nat)
    requires
        a <= b,
    ensures
        pow16(a) <= pow16(b),
    decreases b,
{
    if a < b {
        lemma_pow16_mono(a, (b - 1) as nat);
        assert(pow16(b) == 16 * pow16((b - 1) as nat));
    }
}

proof fn lemma_pow16_32()
    ensures
        pow16(32) == 0x1_0000_0000_0000_0000_0000_0000_0000_0000,
{
    reveal_with_fuel(pow16, 33);
}

/// The value of a prefix stays below sixteen to the number of its digits.
proof fn lemma_uuid_prefix_bound(s: Seq<char>, i: int)
    requires
        0 <= i <= 36,
        i <= s.len(),
        forall|j: int| 0 <= j < i && !uuid_hyphen_pos(j) ==> is_hex_digit(#[trigger] s[j]),
    ensures
        0 <= uuid_prefix_value(s, i) < pow16(uuid_hex_count(i) as nat),
    decreases i,
{
    if i > 0 {
        lemma_uuid_prefix_bound(s, i - 1);
        if !uuid_hyphen_pos(i - 1) {
            let v = uuid_prefix_value(s, i - 1);
            let c = uuid_hex_count(i - 1) as nat;
            assert(uuid_hex_count(i) == c + 1);
            assert(pow16((c + 1) as nat) == 16 * pow16(c));
            assert(v * 16 + hex_value(s[i - 1]) < 16 * pow16(c)) by (nonlinear_arith)
                requires
                    0 <= v < pow16(c),
                    hex_value(s[i - 1]) < 16,
            ;
            assert(v * 16 + hex_value(s[i - 1]) >= 0) by (nonlinear_arith)
                requires
                    0 <= v,
                    hex_value(s[i - 1]) >= 0,
            ;
            assert(hex_value(s[i - 1]) >= 0);
        }
    }
}

/// Reading back the lowercase hexadecimal digit character of a value below
/// sixteen gives that value.
proof fn lemma_hex_digit_char_value(d: int)
    requires
        0 <= d < 16,
    ensures
        is_hex_digit(hex_digit_char(d)),
        hex_value(hex_digit_char(d)) == d,
{
}

/// Decoding a prefix of the canonical text reads the leading nibbles of
/// the value, most significant first.
proof fn lemma_uuid_decode_prefix(u: u128, i: int)
    requires
        0 <= i <= 36,
    ensures
        uuid_hex_count(i) == 0 ==> uuid_prefix_value(uuid_to_text(u), i) == 0,
        uuid_hex_count(i) >= 1 ==> uuid_prefix_value(uuid_to_text(u), i) == (u >> (((32
            - uuid_hex_count(i)) * 4) as u128)) as int,
    decreases i,
{
    let s = uuid_to_text(u);
    if i > 0 {
        lemma_uuid_decode_prefix(u, i - 1);
        let h = uuid_hex_count(i);
        if uuid_hyphen_pos(i - 1) {
            assert(uuid_hex_count(i - 1) == h);
        } else {
            assert(uuid_hex_count(i - 1) == h - 1);
            assert(s[i - 1] == hex_digit_char(uuid_nibble(u, h - 1)));
            let sh: u128 = (((32 - h) * 4) as u128);
            assert(uuid_nibble(u, h - 1) == ((u >> sh) & 0xf) as int);
            assert((u >> sh) & 0xf < 16) by (bit_vector);
            lemma_hex_digit_char_value(((u >> sh) & 0xf) as int);
            if h - 1 == 0 {
                assert(sh == 124);
                assert(u >> 124 == (u >> 124) & 0xf) by (bit_vector);
                assert(uuid_prefix_value(s, i) == 0 * 16 + ((u >> sh) & 0xf) as int);
            } else {
                let prev: u128 = u >> ((((32 - (h - 1)) * 4)) as u128);
                assert(uuid_prefix_value(s, i - 1) == prev as int);
                assert(uuid_prefix_value(s, i) == prev as int * 16 + ((u >> sh) & 0xf) as int);
                assert(prev == u >> (sh + 4)) by (bit_vector)
                    requires
                        sh <= 120,
                        prev == u >> ((((sh + 4)) as u128)),
                ;
                assert((u >> (sh + 4)) * 16 + ((u >> sh) & 0xf) == u >> sh) by (bit_vector)
                    requires
                        sh <= 120,
                ;
                assert((u >> (sh + 4)) * 16 + ((u >> sh) & 0xf) <= u128::MAX);
                assert(prev as int * 16 + ((u >> sh) & 0xf) as int == (u >> sh) as int);
            }
        }
    }
}

/// Parsing the canonical text of any identifier gives that identifier
/// back: the text is well formed, and it denotes the value it was
/// rendered from.
pub proof fn lemma_uuid_round_trip(u: Uuid)
    ensures
        is_uuid_text(uuid_to_text(u.0)),
        uuid_of_text(uuid_to_text(u.0)) == u,
{
    let s = uuid_to_text(u.0);
    let w = u.0;
    assert forall|i: int| 0 <= i < 36 implies (if uuid_hyphen_pos(i) {
        s[i] == '-'
    } else {
        is_hex_digit(s[i])
    }) by {
        if !uuid_hyphen_pos(i) {
            let k = uuid_hex_count(i);
            let sh: u128 = (((31 - k) * 4) as u128);
            assert((w >> sh) & 0xf < 16) by (bit_vector);
            lemma_hex_digit_char_value(((w >> sh) & 0xf) as int);
        }
    }
    lemma_uuid_decode_prefix(w, 36);
    assert(uuid_hex_count(36) == 32);
    assert(w >> 0u128 == w) by (bit_vector);
}

// ---------------------------------------------------------------------------
// Executable formatting and parsing.
// ---------------------------------------------------------------------------
fn hex_digit_char_of(d: u64) -> (c: char)
    requires
        d < 16,
    ensures
        c == hex_digit_char(d as int),
{
    if d == 0 {
        '0'
    } else if d == 1 {
        '1'
    } else if d == 2 {
        '2'
    } else if d == 3 {
        '3'
    } else if d == 4 {
        '4'
    } else if d == 5 {
        '5'
    } else if d == 6 {
        '6'
    } else if d == 7 {
        '7'
    } else if d == 8 {
        '8'
    } else if d == 9 {
        '9'
    } else if d == 10 {
        'a'
    } else if d == 11 {
        'b'
    } else if d == 12 {
        'c'
    } else if d == 13 {
        'd'
    } else if d == 14 {
        'e'
    } else {
        'f'
    }
}

impl Uuid {
    /// The canonical lowercase hyphenated text of this identifier, the form
    /// the platform uses in URL paths and JSON strings.
    pub fn to_hyphenated_lower(&self) -> (r: String)
        ensures
            r@ == uuid_to_text(self.0),
    {
        let u = self.0;
        let mut s = String::new();
        let mut i: usize = 0;
        let mut h: usize = 0;
        while i < 36
            invariant
                0 <= i <= 36,
                h == uuid_hex_count(i as int),
                s@.len() == i,
                forall|j: int| 0 <= j < i ==> s@[j] == uuid_char_at(u, j),
            decreases 36 - i,
        {
            if i == 8 || i == 13 || i == 18 || i == 23 {
                crate::codec::push_char(&mut s, '-');
            } else {
                let shift: u128 = ((31 - h) * 4) as u128;
                let nib: u128 = (u >> shift) & 0xf;
                assert((u >> shift) & 0xf < 16) by (bit_vector);
                crate::codec::push_char(&mut s, hex_digit_char_of(nib as u64));
                assert(nib as u64 as int == uuid_nibble(u, h as int));
                h = h + 1;
            }
            i = i + 1;
        }
        assert(s@ =~= uuid_to_text(u));
        s
    }
}

fn read_hex_digit(s: &str, i: usize) -> (r: Result<u64, MispError>)
    requires
        i < s@.len(),
    ensures
        is_hex_digit(s@[i as int]) ==> (r matches Ok(d) && d < 16 && d == hex_value(
            s@[i as int],
        )),
        !is_hex_digit(s@[i as int]) ==> (r matches Err(e) && is_malformed(e, s@)),
{
    let c = s.get_char(i);
    let u = c as u32;
    if 48 <= u && u <= 57 {
        Ok((u - 48) as u64)
    } else if 97 <= u && u <= 102 {
        Ok((u - 97 + 10) as u64)
    } else if 65 <= u && u <= 70 {
        Ok((u - 65 + 10) as u64)
    } else {
        Err(malformed(s, "a hyphenated UUID"))
    }
}

/// Parses a hyphenated UUID text, accepting either letter case. Succeeds
/// exactly on the documented 36-character shape.
pub fn parse_uuid(s: &str) -> (r: Result<Uuid, MispError>)
    ensures
        is_uuid_text(s@) ==> (r matches Ok(u) && u == uuid_of_text(s@)),
        !is_uuid_text(s@) ==> (r matches Err(e) && is_malformed(e, s@)),
{
    if s.unicode_len() != 36 {
        return Err(malformed(s, "a hyphenated UUID"));
    }
    let mut i: usize = 0;
    let mut h: usize = 0;
    let mut val: u128 = 0;
    while i < 36
        invariant
            0 <= i <= 36,
            s@.len() == 36,
            h == uuid_hex_count(i as int),
            val == uuid_prefix_value(s@, i as int),
            forall|j: int|
                0 <= j < i ==> (if uuid_hyphen_pos(j) {
                    #[trigger] s@[j] == '-'
                } else {
                    is_hex_digit(s@[j])
                }),
        decreases 36 - i,
    {
        if i == 8 || i == 13 || i == 18 || i == 23 {
            if s.get_char(i) != '-' {
                return Err(malformed(s, "a hyphenated UUID"));
            }
        } else {
            let d = read_hex_digit(s, i)?;
            proof {
                lemma_uuid_prefix_bound(s@, i as int);
                lemma_pow16_mono(uuid_hex_count(i as int) as nat, 31);
                lemma_pow16_32();
                assert(pow16(31) == pow16(32) / 16) by {
                    assert(pow16(32) == 16 * pow16(31));
                }
                assert(val * 16 + d < 16 * pow16(31)) by (nonlinear_arith)
                    requires
                        0 <= val < pow16(31),
                        0 <= d < 16,
                ;
            }
            val = val * 16 + (d as u128);
            h = h + 1;
        }
        i = i + 1;
    }
    Ok(Uuid(val))
}

// ---------------------------------------------------------------------------
// The JSON wire form: a plain string holding the hyphenated text.
// ---------------------------------------------------------------------------
pub open spec fn jv_dec_uuid(v: Jv) -> Option<Uuid> {
    match v {
        Jv::Text(s) => if is_uuid_text(s) {
            Some(uuid_of_text(s))
        } else {
            None
        },
        _ => None,
    }
}

/// Decodes a UUID from its JSON wire form.
pub fn decode_uuid_json(v: &JsonValue) -> (r: Result<Uuid, MispError>)
    ensures
        jv_dec_uuid(v@) matches Some(u) ==> (r matches Ok(w) && w == u),
        jv_dec_uuid(v@) is None ==> (r matches Err(e) && e is MalformedValue),
{
    match v {
        JsonValue::Text(s) => parse_uuid(s.as_str()),
        _ => Err(malformed("", "a JSON string holding a hyphenated UUID")),
    }
}

/// Encodes a UUID as its JSON wire form.
pub fn encode_uuid_json(u: Uuid) -> (r: JsonValue)
    ensures
        r@ == Jv::Text(uuid_to_text(u.0)),
{
    JsonValue::Text(u.to_hyphenated_lower())
}

} // verus!
