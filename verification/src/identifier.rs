//! The identifier model: every entity kind can be addressed by a global
//! identifier (a UUID) or by the server-assigned local sequence number; an
//! organization can also be addressed by its short name. Conversions into an
//! identifier are total, and each form renders the exact text used in URL
//! paths and serialized query fields.

use vstd::prelude::*;

use crate::codec::{encode_u64, u64_to_dec};
use crate::uid::{uuid_to_text, Uuid};

verus! {

/// A server-assigned local event id.
#[derive(Debug, Clone, Copy, PartialEq, Eq, Structural)]
pub struct EventIdentifier(pub u64);

/// A server-assigned local attribute id.
#[derive(Debug, Clone, Copy, PartialEq, Eq, Structural)]
pub struct AttributeIdentifier(pub u64);

/// A server-assigned local object id.
#[derive(Debug, Clone, Copy, PartialEq, Eq, Structural)]
pub struct ObjectIdentifier(pub u64);

/// A server-assigned local organization id.
#[derive(Debug, Clone, Copy, PartialEq, Eq, Structural)]
pub struct OrganizationIdentifier(pub u64);

/// Either form of an event address.
#[derive(Debug, Clone, Copy, PartialEq, Eq, Structural)]
pub enum GenericEventIdentifier {
    Global(Uuid),
    Local(EventIdentifier),
}

/// Either form of an attribute address.
#[derive(Debug, Clone, Copy, PartialEq, Eq, Structural)]
pub enum GenericAttributeIdentifier {
    Global(Uuid),
    Local(AttributeIdentifier),
}

/// Either form of an object address.
#[derive(Debug, Clone, Copy, PartialEq, Eq, Structural)]
pub enum GenericObjectIdentifier {
    Global(Uuid),
    Local(ObjectIdentifier),
}

/// Any form of an organization address, including the human-readable short
/// name.
#[derive(Debug, Clone, PartialEq, Eq)]
pub enum GenericOrganizationIdentifier {
    Global(Uuid),
    Local(u64),
    Named(String),
}

/// The mathematical shape of an organization address.
#[verifier::ext_equal]
pub enum GenericOrganizationIdentifierV {
    Global(Uuid),
    Local(u64),
    Named(Seq<char>),
}

impl View for GenericOrganizationIdentifier {
    type V = GenericOrganizationIdentifierV;

    open spec fn view(&self) -> GenericOrganizationIdentifierV {
        match self {
            GenericOrganizationIdentifier::Global(u) => GenericOrganizationIdentifierV::Global(*u),
            GenericOrganizationIdentifier::Local(v) => GenericOrganizationIdentifierV::Local(*v),
            GenericOrganizationIdentifier::Named(s) => GenericOrganizationIdentifierV::Named(s@),
        }
    }
}

impl GenericOrganizationIdentifierV {
    /// The wire text of an organization address, in mathematical form.
    pub open spec fn wire_form(self) -> Seq<char> {
        match self {
            GenericOrganizationIdentifierV::Global(u) => uuid_to_text(u.0),
            GenericOrganizationIdentifierV::Local(v) => u64_to_dec(v as nat),
            GenericOrganizationIdentifierV::Named(s) => s,
        }
    }
}

impl GenericEventIdentifier {
    /// The text this identifier contributes to a URL path or a serialized
    /// query field: the decimal local id, or the lowercase hyphenated UUID.
    pub open spec fn wire_form(self) -> Seq<char> {
        match self {
            GenericEventIdentifier::Global(u) => uuid_to_text(u.0),
            GenericEventIdentifier::Local(id) => u64_to_dec(id.0 as nat),
        }
    }

    /// Renders the identifier's wire text.
    pub fn to_url_id(&self) -> (r: String)
        ensures
            r@ == self.wire_form(),
    {
        match self {
            GenericEventIdentifier::Global(u) => u.to_hyphenated_lower(),
            GenericEventIdentifier::Local(id) => encode_u64(id.0),
        }
    }

    /// Addresses an event by its local sequence number. Total.
    pub fn from_local_id(id: u64) -> (r: Self)
        ensures
            r == GenericEventIdentifier::Local(EventIdentifier(id)),
    {
        GenericEventIdentifier::Local(EventIdentifier(id))
    }

    /// Addresses an event by its global identifier. Total.
    pub fn from_global_id(u: Uuid) -> (r: Self)
        ensures
            r == GenericEventIdentifier::Global(u),
    {
        GenericEventIdentifier::Global(u)
    }
}

impl GenericAttributeIdentifier {
    /// The text this identifier contributes to a URL path or a serialized
    /// query field: the decimal local id, or the lowercase hyphenated UUID.
    pub open spec fn wire_form(self) -> Seq<char> {
        match self {
            GenericAttributeIdentifier::Global(u) => uuid_to_text(u.0),
            GenericAttributeIdentifier::Local(id) => u64_to_dec(id.0 as nat),
        }
    }

    /// Renders the identifier's wire text.
    pub fn to_url_id(&self) -> (r: String)
        ensures
            r@ == self.wire_form(),
    {
        match self {
            GenericAttributeIdentifier::Global(u) => u.to_hyphenated_lower(),
            GenericAttributeIdentifier::Local(id) => encode_u64(id.0),
        }
    }

    /// Addresses an attribute by its local sequence number. Total.
    pub fn from_local_id(id: u64) -> (r: Self)
        ensures
            r == GenericAttributeIdentifier::Local(AttributeIdentifier(id)),
    {
        GenericAttributeIdentifier::Local(AttributeIdentifier(id))
    }

    /// Addresses an attribute by its global identifier. Total.
    pub fn from_global_id(u: Uuid) -> (r: Self)
        ensures
            r == GenericAttributeIdentifier::Global(u),
    {
        GenericAttributeIdentifier::Global(u)
    }
}

impl GenericObjectIdentifier {
    /// The text this identifier contributes to a URL path or a serialized
    /// query field: the decimal local id, or the lowercase hyphenated UUID.
    pub open spec fn wire_form(self) -> Seq<char> {
        match self {
            GenericObjectIdentifier::Global(u) => uuid_to_text(u.0),
            GenericObjectIdentifier::Local(id) => u64_to_dec(id.0 as nat),
        }
    }

    /// Renders the identifier's wire text.
    pub fn to_url_id(&self) -> (r: String)
        ensures
            r@ == self.wire_form(),
    {
        match self {
            GenericObjectIdentifier::Global(u) => u.to_hyphenated_lower(),
            GenericObjectIdentifier::Local(id) => encode_u64(id.0),
        }
    }

    /// Addresses an object by its local sequence number. Total.
    pub fn from_local_id(id: u64) -> (r: Self)
        ensures
            r == GenericObjectIdentifier::Local(ObjectIdentifier(id)),
    {
        GenericObjectIdentifier::Local(ObjectIdentifier(id))
    }

    /// Addresses an object by its global identifier. Total.
    pub fn from_global_id(u: Uuid) -> (r: Self)
        ensures
            r == GenericObjectIdentifier::Global(u),
    {
        GenericObjectIdentifier::Global(u)
    }
}

impl GenericOrganizationIdentifier {
    /// The text this identifier contributes to a URL path or a serialized
    /// query field.
    pub open spec fn wire_form(self) -> Seq<char> {
        match self {
            GenericOrganizationIdentifier::Global(u) => uuid_to_text(u.0),
            GenericOrganizationIdentifier::Local(v) => u64_to_dec(v as nat),
            GenericOrganizationIdentifier::Named(s) => s@,
        }
    }

    /// Renders the identifier's wire text.
    pub fn to_url_id(&self) -> (r: String)
        ensures
            r@ == self.wire_form(),
    {
        match self {
            GenericOrganizationIdentifier::Global(u) => u.to_hyphenated_lower(),
            GenericOrganizationIdentifier::Local(v) => encode_u64(*v),
            GenericOrganizationIdentifier::Named(s) => s.clone(),
        }
    }

    /// Addresses an organization by its local sequence number. Total.
    pub fn from_local_id(id: u64) -> (r: Self)
        ensures
            r == GenericOrganizationIdentifier::Local(id),
    {
        GenericOrganizationIdentifier::Local(id)
    }

    /// Addresses an organization by its global identifier. Total.
    pub fn from_global_id(u: Uuid) -> (r: Self)
        ensures
            r == GenericOrganizationIdentifier::Global(u),
    {
        GenericOrganizationIdentifier::Global(u)
    }

    /// Addresses an organization by its short name. Total.
    pub fn from_name(name: &str) -> (r: Self)
        ensures
            r matches GenericOrganizationIdentifier::Named(s) && s@ == name@,
    {
        GenericOrganizationIdentifier::Named(name.to_owned())
    }
}

} // verus!
