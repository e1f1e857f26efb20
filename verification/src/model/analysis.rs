//! The analysis level of an event: a closed enumeration with a fallback
//! variant, so that decoding tolerates codes this library does not know.

use vstd::prelude::*;

use crate::codec::{decode_u16_json, encode_u64, jv_dec_u16, u64_to_dec};
use crate::error::MispError;
use crate::json::{Jv, JsonValue};

verus! {

/// Represents the analysis level of an event.
#[derive(Debug, Clone, Copy, PartialEq, Eq, Structural)]
pub enum Analysis {
    Initial,
    Ongoing,
    Complete,
    Custom(u16),
}

impl Analysis {
    /// The numeric code the platform uses for this analysis level.
    pub open spec fn spec_code(self) -> u16 {
        match self {
            Analysis::Initial => 0,
            Analysis::Ongoing => 1,
            Analysis::Complete => 2,
            Analysis::Custom(v) => v,
        }
    }

    /// The analysis level a numeric code denotes; an unknown code is kept
    /// unchanged in the fallback variant.
    pub open spec fn spec_from_code(c: u16) -> Analysis {
        if c == 0 {
            Analysis::Initial
        } else if c == 1 {
            Analysis::Ongoing
        } else if c == 2 {
            Analysis::Complete
        } else {
            Analysis::Custom(c)
        }
    }

    /// Converts this analysis level to its numeric code.
    pub fn code(&self) -> (r: u16)
        ensures
            r == self.spec_code(),
    {
        match self {
            Analysis::Initial => 0,
            Analysis::Ongoing => 1,
            Analysis::Complete => 2,
            Analysis::Custom(v) => *v,
        }
    }
}

impl From<u16> for Analysis {
    /// Creates an analysis level from its numeric code. Total.
    fn from(analysis: u16) -> (r: Analysis) {
        if analysis == 0 {
            Analysis::Initial
        } else if analysis == 1 {
            Analysis::Ongoing
        } else if analysis == 2 {
            Analysis::Complete
        } else {
            Analysis::Custom(analysis)
        }
    }
}

impl vstd::std_specs::convert::FromSpecImpl<u16> for Analysis {
    open spec fn obeys_from_spec() -> bool {
        true
    }

    open spec fn from_spec(v: u16) -> Analysis {
        Analysis::spec_from_code(v)
    }
}

/// What decoding the JSON wire form of an analysis level yields: the
/// number-in-string codec, then the code-to-variant mapping.
pub open spec fn jv_dec_analysis(v: Jv) -> Option<Analysis> {
    match jv_dec_u16(v) {
        Some(c) => Some(Analysis::spec_from_code(c)),
        None => None,
    }
}

/// Decodes an analysis level from its JSON wire form. Never fails on a
/// well-formed integer string, only on malformed ones.
pub fn decode_analysis_json(v: &JsonValue) -> (r: Result<Analysis, MispError>)
    ensures
        jv_dec_analysis(v@) matches Some(a) ==> (r matches Ok(b) && b == a),
        jv_dec_analysis(v@) is None ==> (r matches Err(e) && e is MalformedValue),
{
    let c = decode_u16_json(v)?;
    Ok(Analysis::from(c))
}

/// Encodes an analysis level as its JSON wire form: the code as a
/// number-in-string.
pub fn encode_analysis_json(a: &Analysis) -> (r: JsonValue)
    ensures
        r@ == Jv::Text(u64_to_dec(a.spec_code() as nat)),
{
    JsonValue::Text(encode_u64(a.code() as u64))
}

/// A code outside the known set decodes to the fallback variant carrying
/// the code unchanged, and re-encoding it reproduces the original string.
pub proof fn lemma_analysis_fallback_round_trip(c: u16)
    requires
        c > 2,
    ensures
        Analysis::spec_from_code(c) == Analysis::Custom(c),
        Analysis::Custom(c).spec_code() == c,
        jv_dec_analysis(Jv::Text(u64_to_dec(c as nat))) == Some(Analysis::Custom(c)),
{
    crate::codec::lemma_number_in_string_round_trip(c as u64);
}

} // verus!
