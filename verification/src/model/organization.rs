//! Organization records: the summary form present wherever an event names
//! its organizations, and the full form a single-organization fetch
//! returns, which embeds the summary.

use vstd::prelude::*;

use crate::codec::Timestamp;
use crate::error::MispError;
use crate::fields::{
    get_bool_field, get_text_field, get_timestamp_field, get_u64_field, get_uuid_field,
    spec_get_bool, spec_get_text, spec_get_timestamp, spec_get_u64, spec_get_uuid,
};
use crate::identifier::{GenericOrganizationIdentifier, OrganizationIdentifier};
use crate::json::{Jv, JsonValue};
use crate::uid::Uuid;

verus! {

/// The summary of an organization: the fields guaranteed present wherever
/// an organization is named inside another record.
#[derive(Debug, Clone)]
pub struct OrganizationTemporary {
    id: OrganizationIdentifier,
    name: String,
    uuid: Uuid,
}

/// The mathematical shape of an organization summary.
#[verifier::ext_equal]
pub struct OrganizationTemporaryV {
    pub id: OrganizationIdentifier,
    pub name: Seq<char>,
    pub uuid: Uuid,
}

impl View for OrganizationTemporary {
    type V = OrganizationTemporaryV;

    closed spec fn view(&self) -> OrganizationTemporaryV {
        OrganizationTemporaryV { id: self.id, name: self.name@, uuid: self.uuid }
    }
}

/// What decoding an organization summary from JSON yields, field by field.
pub open spec fn jv_dec_organization_temporary(v: Jv) -> Option<OrganizationTemporaryV> {
    match v {
        Jv::Obj(fs) => {
            if spec_get_u64(fs, "id"@) is Some && spec_get_text(fs, "name"@) is Some
                && spec_get_uuid(fs, "uuid"@) is Some {
                Some(
                    OrganizationTemporaryV {
                        id: OrganizationIdentifier(spec_get_u64(fs, "id"@)->Some_0),
                        name: spec_get_text(fs, "name"@)->Some_0,
                        uuid: spec_get_uuid(fs, "uuid"@)->Some_0,
                    },
                )
            } else {
                None
            }
        },
        _ => None,
    }
}

impl OrganizationTemporary {
    pub fn id(&self) -> (r: OrganizationIdentifier)
        ensures
            r == self@.id,
    {
        self.id
    }

    pub fn name(&self) -> (r: &str)
        ensures
            r@ == self@.name,
    {
        self.name.as_str()
    }

    pub fn uuid(&self) -> (r: Uuid)
        ensures
            r == self@.uuid,
    {
        self.uuid
    }

    /// The global address of this organization. Total.
    pub fn identifier(&self) -> (r: GenericOrganizationIdentifier)
        ensures
            r == GenericOrganizationIdentifier::Global(self@.uuid),
    {
        GenericOrganizationIdentifier::Global(self.uuid)
    }

    /// Decodes an organization summary from a JSON object, atomically:
    /// fails without a value if any required field is malformed or missing.
    pub fn decode(v: &JsonValue) -> (r: Result<OrganizationTemporary, MispError>)
        ensures
            jv_dec_organization_temporary(v@) matches Some(o) ==> (r matches Ok(d) && d@ == o),
            jv_dec_organization_temporary(v@) is None ==> (r matches Err(e)
                && e is MalformedValue),
    {
        match v {
            JsonValue::Obj(fields) => {
                let id = get_u64_field(fields, "id")?;
                let name = get_text_field(fields, "name")?;
                let uuid = get_uuid_field(fields, "uuid")?;
                Ok(OrganizationTemporary { id: OrganizationIdentifier(id), name, uuid })
            },
            _ => Err(crate::codec::malformed("", "a JSON object holding an organization")),
        }
    }
}

/// The full form of an organization: the summary plus the fields only a
/// single-organization fetch returns.
#[derive(Debug, Clone)]
pub struct Organization {
    organization: OrganizationTemporary,
    date_crated: Timestamp,
    date_modified: Timestamp,
    description: String,
    nationality: String,
    sector: String,
    created_by: u64,
    contacts: String,
    local: bool,
    restricted_to_domain: String,
    landingpage: String,
}

/// The mathematical shape of a full organization record.
#[verifier::ext_equal]
pub struct OrganizationV {
    pub organization: OrganizationTemporaryV,
    pub date_crated: Timestamp,
    pub date_modified: Timestamp,
    pub description: Seq<char>,
    pub nationality: Seq<char>,
    pub sector: Seq<char>,
    pub created_by: u64,
    pub contacts: Seq<char>,
    pub local: bool,
    pub restricted_to_domain: Seq<char>,
    pub landingpage: Seq<char>,
}

impl View for Organization {
    type V = OrganizationV;

    closed spec fn view(&self) -> OrganizationV {
        OrganizationV {
            organization: self.organization@,
            date_crated: self.date_crated,
            date_modified: self.date_modified,
            description: self.description@,
            nationality: self.nationality@,
            sector: self.sector@,
            created_by: self.created_by,
            contacts: self.contacts@,
            local: self.local,
            restricted_to_domain: self.restricted_to_domain@,
            landingpage: self.landingpage@,
        }
    }
}

/// What decoding a full organization from JSON yields. The summary fields
/// live flattened in the same object as the added ones.
pub open spec fn jv_dec_organization(v: Jv) -> Option<OrganizationV> {
    match v {
        Jv::Obj(fs) => {
            if jv_dec_organization_temporary(v) is Some && spec_get_timestamp(fs, "date_crated"@)
                is Some && spec_get_timestamp(fs, "date_modified"@) is Some && spec_get_text(
                fs,
                "description"@,
            ) is Some && spec_get_text(fs, "nationality"@) is Some && spec_get_text(fs, "sector"@)
                is Some && spec_get_u64(fs, "created_by"@) is Some && spec_get_text(fs, "contacts"@)
                is Some && spec_get_bool(fs, "local"@) is Some && spec_get_text(
                fs,
                "restricted_to_domain"@,
            ) is Some && spec_get_text(fs, "landingpage"@) is Some {
                Some(
                    OrganizationV {
                        organization: jv_dec_organization_temporary(v)->Some_0,
                        date_crated: spec_get_timestamp(fs, "date_crated"@)->Some_0,
                        date_modified: spec_get_timestamp(fs, "date_modified"@)->Some_0,
                        description: spec_get_text(fs, "description"@)->Some_0,
                        nationality: spec_get_text(fs, "nationality"@)->Some_0,
                        sector: spec_get_text(fs, "sector"@)->Some_0,
                        created_by: spec_get_u64(fs, "created_by"@)->Some_0,
                        contacts: spec_get_text(fs, "contacts"@)->Some_0,
                        local: spec_get_bool(fs, "local"@)->Some_0,
                        restricted_to_domain: spec_get_text(fs, "restricted_to_domain"@)->Some_0,
                        landingpage: spec_get_text(fs, "landingpage"@)->Some_0,
                    },
                )
            } else {
                None
            }
        },
        _ => None,
    }
}

impl Organization {
    /// The global address of this organization. Total.
    pub fn identifier(&self) -> (r: GenericOrganizationIdentifier)
        ensures
            r == GenericOrganizationIdentifier::Global(self@.organization.uuid),
    {
        self.organization.identifier()
    }

    /// Decodes a full organization from a JSON object, atomically.
    pub fn decode(v: &JsonValue) -> (r: Result<Organization, MispError>)
        ensures
            jv_dec_organization(v@) matches Some(o) ==> (r matches Ok(d) && d@ == o),
            jv_dec_organization(v@) is None ==> (r matches Err(e) && e is MalformedValue),
    {
        match v {
            JsonValue::Obj(fields) => {
                let organization = OrganizationTemporary::decode(v)?;
                let date_crated = get_timestamp_field(fields, "date_crated")?;
                let date_modified = get_timestamp_field(fields, "date_modified")?;
                let description = get_text_field(fields, "description")?;
                let nationality = get_text_field(fields, "nationality")?;
                let sector = get_text_field(fields, "sector")?;
                let created_by = get_u64_field(fields, "created_by")?;
                let contacts = get_text_field(fields, "contacts")?;
                let local = get_bool_field(fields, "local")?;
                let restricted_to_domain = get_text_field(fields, "restricted_to_domain")?;
                let landingpage = get_text_field(fields, "landingpage")?;
                Ok(
                    Organization {
                        organization,
                        date_crated,
                        date_modified,
                        description,
                        nationality,
                        sector,
                        created_by,
                        contacts,
                        local,
                        restricted_to_domain,
                        landingpage,
                    },
                )
            },
            _ => Err(crate::codec::malformed("", "a JSON object holding an organization")),
        }
    }
}

} // verus!
