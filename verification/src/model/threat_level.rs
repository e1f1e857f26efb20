//! The threat level of an event: a closed enumeration with a fallback
//! variant, so that decoding tolerates codes this library does not know.

use vstd::prelude::*;

use crate::codec::{decode_u64_json, encode_u64, jv_dec_u64, u64_to_dec};
use crate::error::MispError;
use crate::json::{Jv, JsonValue};

verus! {

#[derive(Debug, Clone, Copy, PartialEq, Eq, Structural)]
pub enum ThreatLevel {
    High,
    Medium,
    Low,
    Undefined,
    Custom(u64),
}

impl ThreatLevel {
    /// The numeric code the platform uses for this threat level.
    pub open spec fn spec_code(self) -> u64 {
        match self {
            ThreatLevel::High => 1,
            ThreatLevel::Medium => 2,
            ThreatLevel::Low => 3,
            ThreatLevel::Undefined => 4,
            ThreatLevel::Custom(v) => v,
        }
    }

    /// The threat level a numeric code denotes; an unknown code is kept
    /// unchanged in the fallback variant.
    pub open spec fn spec_from_code(c: u64) -> ThreatLevel {
        if c == 1 {
            ThreatLevel::High
        } else if c == 2 {
            ThreatLevel::Medium
        } else if c == 3 {
            ThreatLevel::Low
        } else if c == 4 {
            ThreatLevel::Undefined
        } else {
            ThreatLevel::Custom(c)
        }
    }

    /// Converts this threat level to its numeric code.
    pub fn code(&self) -> (r: u64)
        ensures
            r == self.spec_code(),
    {
        match self {
            ThreatLevel::High => 1,
            ThreatLevel::Medium => 2,
            ThreatLevel::Low => 3,
            ThreatLevel::Undefined => 4,
            ThreatLevel::Custom(v) => *v,
        }
    }
}

impl From<u64> for ThreatLevel {
    /// Creates a threat level from its numeric code. Total.
    fn from(thread_level: u64) -> (r: ThreatLevel) {
        if thread_level == 1 {
            ThreatLevel::High
        } else if thread_level == 2 {
            ThreatLevel::Medium
        } else if thread_level == 3 {
            ThreatLevel::Low
        } else if thread_level == 4 {
            ThreatLevel::Undefined
        } else {
            ThreatLevel::Custom(thread_level)
        }
    }
}

impl vstd::std_specs::convert::FromSpecImpl<u64> for ThreatLevel {
    open spec fn obeys_from_spec() -> bool {
        true
    }

    open spec fn from_spec(v: u64) -> ThreatLevel {
        ThreatLevel::spec_from_code(v)
    }
}

/// What decoding the JSON wire form of a threat level yields.
pub open spec fn jv_dec_threat_level(v: Jv) -> Option<ThreatLevel> {
    match jv_dec_u64(v) {
        Some(c) => Some(ThreatLevel::spec_from_code(c)),
        None => None,
    }
}

/// Decodes a threat level from its JSON wire form. Never fails on a
/// well-formed integer string, only on malformed ones.
pub fn decode_threat_level_json(v: &JsonValue) -> (r: Result<ThreatLevel, MispError>)
    ensures
        jv_dec_threat_level(v@) matches Some(t) ==> (r matches Ok(u) && u == t),
        jv_dec_threat_level(v@) is None ==> (r matches Err(e) && e is MalformedValue),
{
    let c = decode_u64_json(v)?;
    Ok(ThreatLevel::from(c))
}

/// Encodes a threat level as its JSON wire form: the code as a
/// number-in-string.
pub fn encode_threat_level_json(t: &ThreatLevel) -> (r: JsonValue)
    ensures
        r@ == Jv::Text(u64_to_dec(t.spec_code() as nat)),
{
    JsonValue::Text(encode_u64(t.code()))
}

/// A code outside the known set decodes to the fallback variant carrying
/// the code unchanged, and re-encoding it reproduces the original string.
pub proof fn lemma_threat_level_fallback_round_trip(c: u64)
    requires
        !(1 <= c <= 4),
    ensures
        ThreatLevel::spec_from_code(c) == ThreatLevel::Custom(c),
        ThreatLevel::Custom(c).spec_code() == c,
        jv_dec_threat_level(Jv::Text(u64_to_dec(c as nat))) == Some(ThreatLevel::Custom(c)),
{
    crate::codec::lemma_number_in_string_round_trip(c);
}

} // verus!
