//! Distribution rules of an event: who an event may be disseminated to.
//! A closed enumeration with a fallback variant, so that decoding tolerates
//! codes this library does not know.

use vstd::prelude::*;

use crate::codec::{decode_u16_json, encode_u64, jv_dec_u16, u64_to_dec};
use crate::error::MispError;
use crate::json::{Jv, JsonValue};

verus! {

/// Represents the basic distribution rules of the event. The system must
/// adhere to the distribution setting for access control and for
/// dissemination of the event.
#[derive(Debug, Clone, Copy, PartialEq, Eq, Structural)]
pub enum Distribution {
    YourOrganizationOnly,
    ThisCommunityOnly,
    ConnectedCommunities,
    AllCommunities,
    SharingGroup,
    Unsupported(u16),
}

impl Distribution {
    /// The numeric code the platform uses for this distribution rule.
    pub open spec fn spec_code(self) -> u16 {
        match self {
            Distribution::YourOrganizationOnly => 0,
            Distribution::ThisCommunityOnly => 1,
            Distribution::ConnectedCommunities => 2,
            Distribution::AllCommunities => 3,
            Distribution::SharingGroup => 4,
            Distribution::Unsupported(v) => v,
        }
    }

    /// The distribution rule a numeric code denotes; an unknown code is
    /// kept unchanged in the fallback variant.
    pub open spec fn spec_from_code(c: u16) -> Distribution {
        if c == 0 {
            Distribution::YourOrganizationOnly
        } else if c == 1 {
            Distribution::ThisCommunityOnly
        } else if c == 2 {
            Distribution::ConnectedCommunities
        } else if c == 3 {
            Distribution::AllCommunities
        } else if c == 4 {
            Distribution::SharingGroup
        } else {
            Distribution::Unsupported(c)
        }
    }

    /// Converts this distribution rule to its numeric code.
    pub fn code(&self) -> (r: u16)
        ensures
            r == self.spec_code(),
    {
        match self {
            Distribution::YourOrganizationOnly => 0,
            Distribution::ThisCommunityOnly => 1,
            Distribution::ConnectedCommunities => 2,
            Distribution::AllCommunities => 3,
            Distribution::SharingGroup => 4,
            Distribution::Unsupported(v) => *v,
        }
    }
}

impl From<u16> for Distribution {
    /// Creates a distribution rule from its numeric code. Total.
    fn from(distribution: u16) -> (r: Distribution) {
        if distribution == 0 {
            Distribution::YourOrganizationOnly
        } else if distribution == 1 {
            Distribution::ThisCommunityOnly
        } else if distribution == 2 {
            Distribution::ConnectedCommunities
        } else if distribution == 3 {
            Distribution::AllCommunities
        } else if distribution == 4 {
            Distribution::SharingGroup
        } else {
            Distribution::Unsupported(distribution)
        }
    }
}

impl vstd::std_specs::convert::FromSpecImpl<u16> for Distribution {
    open spec fn obeys_from_spec() -> bool {
        true
    }

    open spec fn from_spec(v: u16) -> Distribution {
        Distribution::spec_from_code(v)
    }
}

/// What decoding the JSON wire form of a distribution rule yields.
pub open spec fn jv_dec_distribution(v: Jv) -> Option<Distribution> {
    match jv_dec_u16(v) {
        Some(c) => Some(Distribution::spec_from_code(c)),
        None => None,
    }
}

/// Decodes a distribution rule from its JSON wire form. Never fails on a
/// well-formed integer string, only on malformed ones.
pub fn decode_distribution_json(v: &JsonValue) -> (r: Result<Distribution, MispError>)
    ensures
        jv_dec_distribution(v@) matches Some(d) ==> (r matches Ok(c) && c == d),
        jv_dec_distribution(v@) is None ==> (r matches Err(e) && e is MalformedValue),
{
    let c = decode_u16_json(v)?;
    Ok(Distribution::from(c))
}

/// Encodes a distribution rule as its JSON wire form: the code as a
/// number-in-string.
pub fn encode_distribution_json(d: &Distribution) -> (r: JsonValue)
    ensures
        r@ == Jv::Text(u64_to_dec(d.spec_code() as nat)),
{
    JsonValue::Text(encode_u64(d.code() as u64))
}

/// A code outside the known set decodes to the fallback variant carrying
/// the code unchanged, and re-encoding it reproduces the original string.
pub proof fn lemma_distribution_fallback_round_trip(c: u16)
    requires
        c > 4,
    ensures
        Distribution::spec_from_code(c) == Distribution::Unsupported(c),
        Distribution::Unsupported(c).spec_code() == c,
        jv_dec_distribution(Jv::Text(u64_to_dec(c as nat))) == Some(Distribution::Unsupported(c)),
{
    crate::codec::lemma_number_in_string_round_trip(c as u64);
}

} // verus!
