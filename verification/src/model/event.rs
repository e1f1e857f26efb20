//! Event records: the summary fields present in every listing, the full
//! form a single-event fetch returns, and the envelope the platform wraps
//! a fetched event in.

use vstd::prelude::*;

use crate::codec::Timestamp;
use crate::date::Date;
use crate::error::MispError;
use crate::fields::{
    get_bool_field, get_date_field, get_text_field, get_timestamp_field, get_u16_field,
    get_u64_field, get_uuid_field, spec_get_bool, spec_get_date, spec_get_raw, spec_get_text,
    spec_get_timestamp, spec_get_u16, spec_get_u64, spec_get_uuid,
};
use crate::identifier::{EventIdentifier, GenericEventIdentifier, OrganizationIdentifier};
use crate::json::{jv_get, jv_of_fields, obj_lookup, Jv, JsonValue};
use crate::model::attribute::{
    attribute_full_views, decode_attribute_full_vec, jv_dec_attribute_full_seq, AttributeFull,
    AttributeFullV,
};
use crate::model::distribution::{decode_distribution_json, jv_dec_distribution, Distribution};
use crate::model::object::{
    decode_object_full_vec, jv_dec_object_full_seq, object_full_views, ObjectFull, ObjectFullV,
};
use crate::model::organization::{
    jv_dec_organization_temporary, OrganizationTemporary, OrganizationTemporaryV,
};
use crate::model::threat_level::{decode_threat_level_json, jv_dec_threat_level, ThreatLevel};
use crate::uid::Uuid;

verus! {

/// The summary of an event: the fields guaranteed present in a minimal
/// listing.
#[derive(Debug, Clone)]
pub struct Event {
    id: EventIdentifier,
    org_id: OrganizationIdentifier,
    date: Date,
    info: String,
    uuid: Uuid,
    published: bool,
    analysis: u16,
    attribute_count: u64,
    orgc_id: OrganizationIdentifier,
    timestamp: Timestamp,
    distribution: Distribution,
    sharing_group_id: u64,
    proposal_email_lock: bool,
    locked: bool,
    threat_level_id: ThreatLevel,
    publish_timestamp: Timestamp,
    disable_correlation: bool,
    extends_uuid: String,
}

/// The mathematical shape of an event summary.
#[verifier::ext_equal]
pub struct EventV {
    pub id: EventIdentifier,
    pub org_id: OrganizationIdentifier,
    pub date: Date,
    pub info: Seq<char>,
    pub uuid: Uuid,
    pub published: bool,
    pub analysis: u16,
    pub attribute_count: u64,
    pub orgc_id: OrganizationIdentifier,
    pub timestamp: Timestamp,
    pub distribution: Distribution,
    pub sharing_group_id: u64,
    pub proposal_email_lock: bool,
    pub locked: bool,
    pub threat_level_id: ThreatLevel,
    pub publish_timestamp: Timestamp,
    pub disable_correlation: bool,
    pub extends_uuid: Seq<char>,
}

impl View for Event {
    type V = EventV;

    closed spec fn view(&self) -> EventV {
        EventV {
            id: self.id,
            org_id: self.org_id,
            date: self.date,
            info: self.info@,
            uuid: self.uuid,
            published: self.published,
            analysis: self.analysis,
            attribute_count: self.attribute_count,
            orgc_id: self.orgc_id,
            timestamp: self.timestamp,
            distribution: self.distribution,
            sharing_group_id: self.sharing_group_id,
            proposal_email_lock: self.proposal_email_lock,
            locked: self.locked,
            threat_level_id: self.threat_level_id,
            publish_timestamp: self.publish_timestamp,
            disable_correlation: self.disable_correlation,
            extends_uuid: self.extends_uuid@,
        }
    }
}

pub open spec fn spec_get_distribution(fs: Seq<(Seq<char>, Jv)>, key: Seq<char>) -> Option<
    Distribution,
> {
    match jv_get(fs, key) {
        Some(v) => jv_dec_distribution(v),
        None => None,
    }
}

pub open spec fn spec_get_threat_level(fs: Seq<(Seq<char>, Jv)>, key: Seq<char>) -> Option<
    ThreatLevel,
> {
    match jv_get(fs, key) {
        Some(v) => jv_dec_threat_level(v),
        None => None,
    }
}

fn get_distribution_field(fields: &Vec<(String, JsonValue)>, key: &str) -> (r: Result<
    Distribution,
    MispError,
>)
    ensures
        spec_get_distribution(jv_of_fields(fields@), key@) matches Some(d) ==> (r matches Ok(c)
            && c == d),
        spec_get_distribution(jv_of_fields(fields@), key@) is None ==> (r matches Err(e)
            && e is MalformedValue),
{
    match obj_lookup(fields, key) {
        Some(v) => decode_distribution_json(v),
        None => Err(crate::codec::malformed(key, "a required field")),
    }
}

fn get_threat_level_field(fields: &Vec<(String, JsonValue)>, key: &str) -> (r: Result<
    ThreatLevel,
    MispError,
>)
    ensures
        spec_get_threat_level(jv_of_fields(fields@), key@) matches Some(t) ==> (r matches Ok(u)
            && u == t),
        spec_get_threat_level(jv_of_fields(fields@), key@) is None ==> (r matches Err(e)
            && e is MalformedValue),
{
    match obj_lookup(fields, key) {
        Some(v) => decode_threat_level_json(v),
        None => Err(crate::codec::malformed(key, "a required field")),
    }
}

/// What decoding an event summary from JSON yields, field by field through
/// the scalar codec: ids, counts, the analysis code and the enumerations
/// are numbers-in-strings, the date is a plain date string, the two
/// timestamps are decimal Unix seconds.
pub open spec fn jv_dec_event(v: Jv) -> Option<EventV> {
    match v {
        Jv::Obj(fs) => {
            if spec_get_u64(fs, "id"@) is Some && spec_get_u64(fs, "org_id"@) is Some
                && spec_get_date(fs, "date"@) is Some && spec_get_text(fs, "info"@) is Some
                && spec_get_uuid(fs, "uuid"@) is Some && spec_get_bool(fs, "published"@) is Some
                && spec_get_u16(fs, "analysis"@) is Some && spec_get_u64(fs, "attribute_count"@)
                is Some && spec_get_u64(fs, "orgc_id"@) is Some && spec_get_timestamp(
                fs,
                "timestamp"@,
            ) is Some && spec_get_distribution(fs, "distribution"@) is Some && spec_get_u64(
                fs,
                "sharing_group_id"@,
            ) is Some && spec_get_bool(fs, "proposal_email_lock"@) is Some && spec_get_bool(
                fs,
                "locked"@,
            ) is Some && spec_get_threat_level(fs, "threat_level_id"@) is Some
                && spec_get_timestamp(fs, "publish_timestamp"@) is Some && spec_get_bool(
                fs,
                "disable_correlation"@,
            ) is Some && spec_get_text(fs, "extends_uuid"@) is Some {
                Some(
                    EventV {
                        id: EventIdentifier(spec_get_u64(fs, "id"@)->Some_0),
                        org_id: OrganizationIdentifier(spec_get_u64(fs, "org_id"@)->Some_0),
                        date: spec_get_date(fs, "date"@)->Some_0,
                        info: spec_get_text(fs, "info"@)->Some_0,
                        uuid: spec_get_uuid(fs, "uuid"@)->Some_0,
                        published: spec_get_bool(fs, "published"@)->Some_0,
                        analysis: spec_get_u16(fs, "analysis"@)->Some_0,
                        attribute_count: spec_get_u64(fs, "attribute_count"@)->Some_0,
                        orgc_id: OrganizationIdentifier(spec_get_u64(fs, "orgc_id"@)->Some_0),
                        timestamp: spec_get_timestamp(fs, "timestamp"@)->Some_0,
                        distribution: spec_get_distribution(fs, "distribution"@)->Some_0,
                        sharing_group_id: spec_get_u64(fs, "sharing_group_id"@)->Some_0,
                        proposal_email_lock: spec_get_bool(fs, "proposal_email_lock"@)->Some_0,
                        locked: spec_get_bool(fs, "locked"@)->Some_0,
                        threat_level_id: spec_get_threat_level(fs, "threat_level_id"@)->Some_0,
                        publish_timestamp: spec_get_timestamp(fs, "publish_timestamp"@)->Some_0,
                        disable_correlation: spec_get_bool(fs, "disable_correlation"@)->Some_0,
                        extends_uuid: spec_get_text(fs, "extends_uuid"@)->Some_0,
                    },
                )
            } else {
                None
            }
        },
        _ => None,
    }
}

impl Event {
    pub fn id(&self) -> (r: EventIdentifier)
        ensures
            r == self@.id,
    {
        self.id
    }

    /// The organization that is currently handling the event.
    pub fn organization_identifer(&self) -> (r: OrganizationIdentifier)
        ensures
            r == self@.org_id,
    {
        self.org_id
    }

    pub fn date(&self) -> (r: Date)
        ensures
            r == self@.date,
    {
        self.date
    }

    pub fn info(&self) -> (r: &str)
        ensures
            r@ == self@.info,
    {
        self.info.as_str()
    }

    pub fn uuid(&self) -> (r: Uuid)
        ensures
            r == self@.uuid,
    {
        self.uuid
    }

    pub fn published(&self) -> (r: bool)
        ensures
            r == self@.published,
    {
        self.published
    }

    pub fn analysis(&self) -> (r: u16)
        ensures
            r == self@.analysis,
    {
        self.analysis
    }

    pub fn attribute_count(&self) -> (r: u64)
        ensures
            r == self@.attribute_count,
    {
        self.attribute_count
    }

    /// The organization that initially created the event.
    pub fn organization_creator_identifier(&self) -> (r: OrganizationIdentifier)
        ensures
            r == self@.orgc_id,
    {
        self.orgc_id
    }

    pub fn timestamp(&self) -> (r: Timestamp)
        ensures
            r == self@.timestamp,
    {
        self.timestamp
    }

    pub fn distribution(&self) -> (r: Distribution)
        ensures
            r == self@.distribution,
    {
        self.distribution
    }

    pub fn sharing_group(&self) -> (r: u64)
        ensures
            r == self@.sharing_group_id,
    {
        self.sharing_group_id
    }

    pub fn proposal_email_lock(&self) -> (r: bool)
        ensures
            r == self@.proposal_email_lock,
    {
        self.proposal_email_lock
    }

    pub fn locked(&self) -> (r: bool)
        ensures
            r == self@.locked,
    {
        self.locked
    }

    pub fn threat_level(&self) -> (r: ThreatLevel)
        ensures
            r == self@.threat_level_id,
    {
        self.threat_level_id
    }

    pub fn publish_timestamp(&self) -> (r: Timestamp)
        ensures
            r == self@.publish_timestamp,
    {
        self.publish_timestamp
    }

    pub fn disable_correlation(&self) -> (r: bool)
        ensures
            r == self@.disable_correlation,
    {
        self.disable_correlation
    }

    pub fn extends(&self) -> (r: &str)
        ensures
            r@ == self@.extends_uuid,
    {
        self.extends_uuid.as_str()
    }

    /// The global address of this event. Total.
    pub fn identifier(&self) -> (r: GenericEventIdentifier)
        ensures
            r == GenericEventIdentifier::Global(self@.uuid),
    {
        GenericEventIdentifier::Global(self.uuid)
    }

    /// Decodes an event summary from a JSON object, atomically: fails
    /// without a value if any required field is malformed or missing.
    pub fn decode(v: &JsonValue) -> (r: Result<Event, MispError>)
        ensures
            jv_dec_event(v@) matches Some(ev) ==> (r matches Ok(d) && d@ == ev),
            jv_dec_event(v@) is None ==> (r matches Err(e) && e is MalformedValue),
    {
        match v {
            JsonValue::Obj(fields) => {
                let id = get_u64_field(fields, "id")?;
                let org_id = get_u64_field(fields, "org_id")?;
                let date = get_date_field(fields, "date")?;
                let info = get_text_field(fields, "info")?;
                let uuid = get_uuid_field(fields, "uuid")?;
                let published = get_bool_field(fields, "published")?;
                let analysis = get_u16_field(fields, "analysis")?;
                let attribute_count = get_u64_field(fields, "attribute_count")?;
                let orgc_id = get_u64_field(fields, "orgc_id")?;
                let timestamp = get_timestamp_field(fields, "timestamp")?;
                let distribution = get_distribution_field(fields, "distribution")?;
                let sharing_group_id = get_u64_field(fields, "sharing_group_id")?;
                let proposal_email_lock = get_bool_field(fields, "proposal_email_lock")?;
                let locked = get_bool_field(fields, "locked")?;
                let threat_level_id = get_threat_level_field(fields, "threat_level_id")?;
                let publish_timestamp = get_timestamp_field(fields, "publish_timestamp")?;
                let disable_correlation = get_bool_field(fields, "disable_correlation")?;
                let extends_uuid = get_text_field(fields, "extends_uuid")?;
                Ok(
                    Event {
                        id: EventIdentifier(id),
                        org_id: OrganizationIdentifier(org_id),
                        date,
                        info,
                        uuid,
                        published,
                        analysis,
                        attribute_count,
                        orgc_id: OrganizationIdentifier(orgc_id),
                        timestamp,
                        distribution,
                        sharing_group_id,
                        proposal_email_lock,
                        locked,
                        threat_level_id,
                        publish_timestamp,
                        disable_correlation,
                        extends_uuid,
                    },
                )
            },
            _ => Err(crate::codec::malformed("", "a JSON object holding an event")),
        }
    }
}

/// The wire members of an encoded event summary, in a fixed order: ids,
/// counts, codes and instants as numbers-in-strings, the date as a plain
/// date string, the UUID as its hyphenated text.
pub open spec fn jv_enc_event_fields(e: EventV) -> Seq<(Seq<char>, Jv)> {
    seq![
        ("id"@, Jv::Text(crate::codec::u64_to_dec(e.id.0 as nat))),
        ("org_id"@, Jv::Text(crate::codec::u64_to_dec(e.org_id.0 as nat))),
        ("date"@, Jv::Text(crate::date::date_to_text(e.date))),
        ("info"@, Jv::Text(e.info)),
        ("uuid"@, Jv::Text(crate::uid::uuid_to_text(e.uuid.0))),
        ("published"@, Jv::Bool(e.published)),
        ("analysis"@, Jv::Text(crate::codec::u64_to_dec(e.analysis as nat))),
        ("attribute_count"@, Jv::Text(crate::codec::u64_to_dec(e.attribute_count as nat))),
        ("orgc_id"@, Jv::Text(crate::codec::u64_to_dec(e.orgc_id.0 as nat))),
        ("timestamp"@, Jv::Text(crate::codec::i64_to_dec(e.timestamp.0 as int))),
        ("distribution"@, Jv::Text(crate::codec::u64_to_dec(e.distribution.spec_code() as nat))),
        ("sharing_group_id"@, Jv::Text(crate::codec::u64_to_dec(e.sharing_group_id as nat))),
        ("proposal_email_lock"@, Jv::Bool(e.proposal_email_lock)),
        ("locked"@, Jv::Bool(e.locked)),
        (
            "threat_level_id"@,
            Jv::Text(crate::codec::u64_to_dec(e.threat_level_id.spec_code() as nat)),
        ),
        ("publish_timestamp"@, Jv::Text(crate::codec::i64_to_dec(e.publish_timestamp.0 as int))),
        ("disable_correlation"@, Jv::Bool(e.disable_correlation)),
        ("extends_uuid"@, Jv::Text(e.extends_uuid)),
    ]
}

/// The JSON wire form of an event summary.
pub open spec fn jv_enc_event(e: EventV) -> Jv {
    Jv::Obj(jv_enc_event_fields(e))
}

impl Event {
    /// Encodes the event summary back into its JSON wire form. Total for
    /// every decoded event.
    pub fn encode(&self) -> (r: JsonValue)
        requires
            self@.date.valid(),
        ensures
            r@ == jv_enc_event(self@),
    {
        let mut fields: Vec<(String, JsonValue)> = Vec::new();
        let ghost target = jv_enc_event_fields(self@);
        proof {
            crate::json::lemma_jv_of_fields_empty();
        }
        let ghost g0 = fields@;
        fields.push(("id".to_owned(), crate::codec::encode_u64_json(self.id.0)));
        proof {
            crate::json::lemma_jv_of_fields_push(g0, fields@.last());
            assert(fields@ =~= g0.push(fields@.last()));
            assert(jv_of_fields(fields@) =~= target.take(1));
        }
        let ghost g1 = fields@;
        fields.push(("org_id".to_owned(), crate::codec::encode_u64_json(self.org_id.0)));
        let ghost g2 = fields@;
        fields.push(("date".to_owned(), crate::date::encode_date_json(self.date)));
        let ghost g3 = fields@;
        fields.push(("info".to_owned(), JsonValue::Text(self.info.clone())));
        let ghost g4 = fields@;
        fields.push(("uuid".to_owned(), crate::uid::encode_uuid_json(self.uuid)));
        let ghost g5 = fields@;
        fields.push(("published".to_owned(), JsonValue::Bool(self.published)));
        let ghost g6 = fields@;
        fields.push(("analysis".to_owned(), crate::codec::encode_u64_json(self.analysis as u64)));
        let ghost g7 = fields@;
        fields.push(
            ("attribute_count".to_owned(), crate::codec::encode_u64_json(self.attribute_count)),
        );
        let ghost g8 = fields@;
        fields.push(("orgc_id".to_owned(), crate::codec::encode_u64_json(self.orgc_id.0)));
        let ghost g9 = fields@;
        fields.push(
            ("timestamp".to_owned(), crate::codec::encode_timestamp_json(self.timestamp)),
        );
        let ghost g10 = fields@;
        fields.push(
            (
                "distribution".to_owned(),
                crate::model::distribution::encode_distribution_json(&self.distribution),
            ),
        );
        let ghost g11 = fields@;
        fields.push(
            ("sharing_group_id".to_owned(), crate::codec::encode_u64_json(self.sharing_group_id)),
        );
        let ghost g12 = fields@;
        fields.push(
            ("proposal_email_lock".to_owned(), JsonValue::Bool(self.proposal_email_lock)),
        );
        let ghost g13 = fields@;
        fields.push(("locked".to_owned(), JsonValue::Bool(self.locked)));
        let ghost g14 = fields@;
        fields.push(
            (
                "threat_level_id".to_owned(),
                crate::model::threat_level::encode_threat_level_json(&self.threat_level_id),
            ),
        );
        let ghost g15 = fields@;
        fields.push(
            (
                "publish_timestamp".to_owned(),
                crate::codec::encode_timestamp_json(self.publish_timestamp),
            ),
        );
        let ghost g16 = fields@;
        fields.push(
            ("disable_correlation".to_owned(), JsonValue::Bool(self.disable_correlation)),
        );
        let ghost g17 = fields@;
        fields.push(("extends_uuid".to_owned(), JsonValue::Text(self.extends_uuid.clone())));
        proof {
            crate::json::lemma_jv_of_fields_push(g1, g2.last());
            assert(g2 =~= g1.push(g2.last()));
            assert(jv_of_fields(g2) =~= target.take(2));
            crate::json::lemma_jv_of_fields_push(g2, g3.last());
            assert(g3 =~= g2.push(g3.last()));
            assert(jv_of_fields(g3) =~= target.take(3));
            crate::json::lemma_jv_of_fields_push(g3, g4.last());
            assert(g4 =~= g3.push(g4.last()));
            assert(jv_of_fields(g4) =~= target.take(4));
            crate::json::lemma_jv_of_fields_push(g4, g5.last());
            assert(g5 =~= g4.push(g5.last()));
            assert(jv_of_fields(g5) =~= target.take(5));
            crate::json::lemma_jv_of_fields_push(g5, g6.last());
            assert(g6 =~= g5.push(g6.last()));
            assert(jv_of_fields(g6) =~= target.take(6));
            crate::json::lemma_jv_of_fields_push(g6, g7.last());
            assert(g7 =~= g6.push(g7.last()));
            assert(jv_of_fields(g7) =~= target.take(7));
            crate::json::lemma_jv_of_fields_push(g7, g8.last());
            assert(g8 =~= g7.push(g8.last()));
            assert(jv_of_fields(g8) =~= target.take(8));
            crate::json::lemma_jv_of_fields_push(g8, g9.last());
            assert(g9 =~= g8.push(g9.last()));
            assert(jv_of_fields(g9) =~= target.take(9));
            crate::json::lemma_jv_of_fields_push(g9, g10.last());
            assert(g10 =~= g9.push(g10.last()));
            assert(jv_of_fields(g10) =~= target.take(10));
            crate::json::lemma_jv_of_fields_push(g10, g11.last());
            assert(g11 =~= g10.push(g11.last()));
            assert(jv_of_fields(g11) =~= target.take(11));
            crate::json::lemma_jv_of_fields_push(g11, g12.last());
            assert(g12 =~= g11.push(g12.last()));
            assert(jv_of_fields(g12) =~= target.take(12));
            crate::json::lemma_jv_of_fields_push(g12, g13.last());
            assert(g13 =~= g12.push(g13.last()));
            assert(jv_of_fields(g13) =~= target.take(13));
            crate::json::lemma_jv_of_fields_push(g13, g14.last());
            assert(g14 =~= g13.push(g14.last()));
            assert(jv_of_fields(g14) =~= target.take(14));
            crate::json::lemma_jv_of_fields_push(g14, g15.last());
            assert(g15 =~= g14.push(g15.last()));
            assert(jv_of_fields(g15) =~= target.take(15));
            crate::json::lemma_jv_of_fields_push(g15, g16.last());
            assert(g16 =~= g15.push(g16.last()));
            assert(jv_of_fields(g16) =~= target.take(16));
            crate::json::lemma_jv_of_fields_push(g16, g17.last());
            assert(g17 =~= g16.push(g17.last()));
            assert(jv_of_fields(g17) =~= target.take(17));
            crate::json::lemma_jv_of_fields_push(g17, fields@.last());
            assert(fields@ =~= g17.push(fields@.last()));
            assert(jv_of_fields(fields@) =~= target.take(18));
            assert(target.take(18) =~= target);
        }
        JsonValue::Obj(fields)
    }
}

/// Decoding the encoding of an event summary gives that summary back.
///
/// The law holds for every summary a decode can produce: its date is a
/// real calendar date, and its enumeration values are the canonical ones
/// for their codes. (A non-canonical value such as the threat level's
/// fallback variant carrying a known code encodes to the same string as
/// the named variant, so decoding returns the named variant instead.)
#[verifier::rlimit(60)]
pub proof fn lemma_event_round_trip(e: EventV)
    requires
        e.date.valid(),
        Distribution::spec_from_code(e.distribution.spec_code()) == e.distribution,
        ThreatLevel::spec_from_code(e.threat_level_id.spec_code()) == e.threat_level_id,
    ensures
        jv_dec_event(jv_enc_event(e)) == Some(e),
{
    reveal_strlit("id");
    reveal_strlit("org_id");
    reveal_strlit("date");
    reveal_strlit("info");
    reveal_strlit("uuid");
    reveal_strlit("published");
    reveal_strlit("analysis");
    reveal_strlit("attribute_count");
    reveal_strlit("orgc_id");
    reveal_strlit("timestamp");
    reveal_strlit("distribution");
    reveal_strlit("sharing_group_id");
    reveal_strlit("proposal_email_lock");
    reveal_strlit("locked");
    reveal_strlit("threat_level_id");
    reveal_strlit("publish_timestamp");
    reveal_strlit("disable_correlation");
    reveal_strlit("extends_uuid");
    assert("id"@.len() == 2);
    assert("org_id"@.len() == 6);
    assert("date"@.len() == 4);
    assert("info"@.len() == 4);
    assert("uuid"@.len() == 4);
    assert("published"@.len() == 9);
    assert("analysis"@.len() == 8);
    assert("attribute_count"@.len() == 15);
    assert("orgc_id"@.len() == 7);
    assert("timestamp"@.len() == 9);
    assert("distribution"@.len() == 12);
    assert("sharing_group_id"@.len() == 16);
    assert("proposal_email_lock"@.len() == 19);
    assert("locked"@.len() == 6);
    assert("threat_level_id"@.len() == 15);
    assert("publish_timestamp"@.len() == 17);
    assert("disable_correlation"@.len() == 19);
    assert("extends_uuid"@.len() == 12);
    assert("date"@[0] == 'd');
    assert("info"@[0] == 'i');
    assert("uuid"@[0] == 'u');
    assert("org_id"@[0] == 'o');
    assert("locked"@[0] == 'l');
    assert("published"@[0] == 'p');
    assert("timestamp"@[0] == 't');
    assert("attribute_count"@[0] == 'a');
    assert("threat_level_id"@[0] == 't');
    assert("distribution"@[0] == 'd');
    assert("extends_uuid"@[0] == 'e');
    assert("proposal_email_lock"@[0] == 'p');
    assert("disable_correlation"@[0] == 'd');
    let fs = jv_enc_event_fields(e);
    crate::codec::lemma_number_in_string_round_trip(e.id.0);
    crate::codec::lemma_number_in_string_round_trip(e.org_id.0);
    crate::date::lemma_date_round_trip(e.date);
    crate::uid::lemma_uuid_round_trip(e.uuid);
    crate::codec::lemma_number_in_string_round_trip(e.analysis as u64);
    crate::codec::lemma_number_in_string_round_trip(e.attribute_count);
    crate::codec::lemma_number_in_string_round_trip(e.orgc_id.0);
    crate::codec::lemma_timestamp_round_trip(e.timestamp);
    crate::codec::lemma_number_in_string_round_trip(e.distribution.spec_code() as u64);
    crate::codec::lemma_number_in_string_round_trip(e.sharing_group_id);
    crate::codec::lemma_number_in_string_round_trip(e.threat_level_id.spec_code());
    crate::codec::lemma_timestamp_round_trip(e.publish_timestamp);
    assert(jv_get(fs, "id"@) == Some(fs[0].1)) by {
        assert forall|i: int| 0 <= i < 0 implies (#[trigger] fs.take(0)[i]).0 != "id"@ by {
            assert(fs.take(0)[i] == fs[i]);
        }
        crate::json::lemma_jv_get_skip_keys(fs.take(0), fs.skip(0), "id"@);
        assert(fs =~= fs.take(0) + fs.skip(0));
        assert(fs.skip(0)[0] == fs[0]);
    }
    assert(jv_get(fs, "org_id"@) == Some(fs[1].1)) by {
        assert forall|i: int| 0 <= i < 1 implies (#[trigger] fs.take(1)[i]).0 != "org_id"@ by {
            assert(fs.take(1)[i] == fs[i]);
        }
        crate::json::lemma_jv_get_skip_keys(fs.take(1), fs.skip(1), "org_id"@);
        assert(fs =~= fs.take(1) + fs.skip(1));
        assert(fs.skip(1)[0] == fs[1]);
    }
    assert(jv_get(fs, "date"@) == Some(fs[2].1)) by {
        assert forall|i: int| 0 <= i < 2 implies (#[trigger] fs.take(2)[i]).0 != "date"@ by {
            assert(fs.take(2)[i] == fs[i]);
        }
        crate::json::lemma_jv_get_skip_keys(fs.take(2), fs.skip(2), "date"@);
        assert(fs =~= fs.take(2) + fs.skip(2));
        assert(fs.skip(2)[0] == fs[2]);
    }
    assert(jv_get(fs, "info"@) == Some(fs[3].1)) by {
        assert forall|i: int| 0 <= i < 3 implies (#[trigger] fs.take(3)[i]).0 != "info"@ by {
            assert(fs.take(3)[i] == fs[i]);
        }
        crate::json::lemma_jv_get_skip_keys(fs.take(3), fs.skip(3), "info"@);
        assert(fs =~= fs.take(3) + fs.skip(3));
        assert(fs.skip(3)[0] == fs[3]);
    }
    assert(jv_get(fs, "uuid"@) == Some(fs[4].1)) by {
        assert forall|i: int| 0 <= i < 4 implies (#[trigger] fs.take(4)[i]).0 != "uuid"@ by {
            assert(fs.take(4)[i] == fs[i]);
        }
        crate::json::lemma_jv_get_skip_keys(fs.take(4), fs.skip(4), "uuid"@);
        assert(fs =~= fs.take(4) + fs.skip(4));
        assert(fs.skip(4)[0] == fs[4]);
    }
    assert(jv_get(fs, "published"@) == Some(fs[5].1)) by {
        assert forall|i: int| 0 <= i < 5 implies (#[trigger] fs.take(5)[i]).0 != "published"@ by {
            assert(fs.take(5)[i] == fs[i]);
        }
        crate::json::lemma_jv_get_skip_keys(fs.take(5), fs.skip(5), "published"@);
        assert(fs =~= fs.take(5) + fs.skip(5));
        assert(fs.skip(5)[0] == fs[5]);
    }
    assert(jv_get(fs, "analysis"@) == Some(fs[6].1)) by {
        assert forall|i: int| 0 <= i < 6 implies (#[trigger] fs.take(6)[i]).0 != "analysis"@ by {
            assert(fs.take(6)[i] == fs[i]);
        }
        crate::json::lemma_jv_get_skip_keys(fs.take(6), fs.skip(6), "analysis"@);
        assert(fs =~= fs.take(6) + fs.skip(6));
        assert(fs.skip(6)[0] == fs[6]);
    }
    assert(jv_get(fs, "attribute_count"@) == Some(fs[7].1)) by {
        assert forall|i: int| 0 <= i < 7 implies (#[trigger] fs.take(7)[i]).0 != "attribute_count"@ by {
            assert(fs.take(7)[i] == fs[i]);
        }
        crate::json::lemma_jv_get_skip_keys(fs.take(7), fs.skip(7), "attribute_count"@);
        assert(fs =~= fs.take(7) + fs.skip(7));
        assert(fs.skip(7)[0] == fs[7]);
    }
    assert(jv_get(fs, "orgc_id"@) == Some(fs[8].1)) by {
        assert forall|i: int| 0 <= i < 8 implies (#[trigger] fs.take(8)[i]).0 != "orgc_id"@ by {
            assert(fs.take(8)[i] == fs[i]);
        }
        crate::json::lemma_jv_get_skip_keys(fs.take(8), fs.skip(8), "orgc_id"@);
        assert(fs =~= fs.take(8) + fs.skip(8));
        assert(fs.skip(8)[0] == fs[8]);
    }
    assert(jv_get(fs, "timestamp"@) == Some(fs[9].1)) by {
        assert forall|i: int| 0 <= i < 9 implies (#[trigger] fs.take(9)[i]).0 != "timestamp"@ by {
            assert(fs.take(9)[i] == fs[i]);
        }
        crate::json::lemma_jv_get_skip_keys(fs.take(9), fs.skip(9), "timestamp"@);
        assert(fs =~= fs.take(9) + fs.skip(9));
        assert(fs.skip(9)[0] == fs[9]);
    }
    assert(jv_get(fs, "distribution"@) == Some(fs[10].1)) by {
        assert forall|i: int| 0 <= i < 10 implies (#[trigger] fs.take(10)[i]).0 != "distribution"@ by {
            assert(fs.take(10)[i] == fs[i]);
        }
        crate::json::lemma_jv_get_skip_keys(fs.take(10), fs.skip(10), "distribution"@);
        assert(fs =~= fs.take(10) + fs.skip(10));
        assert(fs.skip(10)[0] == fs[10]);
    }
    assert(jv_get(fs, "sharing_group_id"@) == Some(fs[11].1)) by {
        assert forall|i: int| 0 <= i < 11 implies (#[trigger] fs.take(11)[i]).0 != "sharing_group_id"@ by {
            assert(fs.take(11)[i] == fs[i]);
        }
        crate::json::lemma_jv_get_skip_keys(fs.take(11), fs.skip(11), "sharing_group_id"@);
        assert(fs =~= fs.take(11) + fs.skip(11));
        assert(fs.skip(11)[0] == fs[11]);
    }
    assert(jv_get(fs, "proposal_email_lock"@) == Some(fs[12].1)) by {
        assert forall|i: int| 0 <= i < 12 implies (#[trigger] fs.take(12)[i]).0 != "proposal_email_lock"@ by {
            assert(fs.take(12)[i] == fs[i]);
        }
        crate::json::lemma_jv_get_skip_keys(fs.take(12), fs.skip(12), "proposal_email_lock"@);
        assert(fs =~= fs.take(12) + fs.skip(12));
        assert(fs.skip(12)[0] == fs[12]);
    }
    assert(jv_get(fs, "locked"@) == Some(fs[13].1)) by {
        assert forall|i: int| 0 <= i < 13 implies (#[trigger] fs.take(13)[i]).0 != "locked"@ by {
            assert(fs.take(13)[i] == fs[i]);
        }
        crate::json::lemma_jv_get_skip_keys(fs.take(13), fs.skip(13), "locked"@);
        assert(fs =~= fs.take(13) + fs.skip(13));
        assert(fs.skip(13)[0] == fs[13]);
    }
    assert(jv_get(fs, "threat_level_id"@) == Some(fs[14].1)) by {
        assert forall|i: int| 0 <= i < 14 implies (#[trigger] fs.take(14)[i]).0 != "threat_level_id"@ by {
            assert(fs.take(14)[i] == fs[i]);
        }
        crate::json::lemma_jv_get_skip_keys(fs.take(14), fs.skip(14), "threat_level_id"@);
        assert(fs =~= fs.take(14) + fs.skip(14));
        assert(fs.skip(14)[0] == fs[14]);
    }
    assert(jv_get(fs, "publish_timestamp"@) == Some(fs[15].1)) by {
        assert forall|i: int| 0 <= i < 15 implies (#[trigger] fs.take(15)[i]).0 != "publish_timestamp"@ by {
            assert(fs.take(15)[i] == fs[i]);
        }
        crate::json::lemma_jv_get_skip_keys(fs.take(15), fs.skip(15), "publish_timestamp"@);
        assert(fs =~= fs.take(15) + fs.skip(15));
        assert(fs.skip(15)[0] == fs[15]);
    }
    assert(jv_get(fs, "disable_correlation"@) == Some(fs[16].1)) by {
        assert forall|i: int| 0 <= i < 16 implies (#[trigger] fs.take(16)[i]).0 != "disable_correlation"@ by {
            assert(fs.take(16)[i] == fs[i]);
        }
        crate::json::lemma_jv_get_skip_keys(fs.take(16), fs.skip(16), "disable_correlation"@);
        assert(fs =~= fs.take(16) + fs.skip(16));
        assert(fs.skip(16)[0] == fs[16]);
    }
    assert(jv_get(fs, "extends_uuid"@) == Some(fs[17].1)) by {
        assert forall|i: int| 0 <= i < 17 implies (#[trigger] fs.take(17)[i]).0 != "extends_uuid"@ by {
            assert(fs.take(17)[i] == fs[i]);
        }
        crate::json::lemma_jv_get_skip_keys(fs.take(17), fs.skip(17), "extends_uuid"@);
        assert(fs =~= fs.take(17) + fs.skip(17));
        assert(fs.skip(17)[0] == fs[17]);
    }
    assert(spec_get_u64(fs, "id"@) == Some(e.id.0));
    assert(spec_get_u64(fs, "org_id"@) == Some(e.org_id.0));
    assert(spec_get_date(fs, "date"@) == Some(e.date));
    assert(spec_get_text(fs, "info"@) == Some(e.info));
    assert(spec_get_uuid(fs, "uuid"@) == Some(e.uuid));
    assert(spec_get_bool(fs, "published"@) == Some(e.published));
    assert(spec_get_u16(fs, "analysis"@) == Some(e.analysis));
    assert(spec_get_u64(fs, "attribute_count"@) == Some(e.attribute_count));
    assert(spec_get_u64(fs, "orgc_id"@) == Some(e.orgc_id.0));
    assert(spec_get_timestamp(fs, "timestamp"@) == Some(e.timestamp));
    assert(spec_get_distribution(fs, "distribution"@) == Some(e.distribution));
    assert(spec_get_u64(fs, "sharing_group_id"@) == Some(e.sharing_group_id));
    assert(spec_get_bool(fs, "proposal_email_lock"@) == Some(e.proposal_email_lock));
    assert(spec_get_bool(fs, "locked"@) == Some(e.locked));
    assert(spec_get_threat_level(fs, "threat_level_id"@) == Some(e.threat_level_id));
    assert(spec_get_timestamp(fs, "publish_timestamp"@) == Some(e.publish_timestamp));
    assert(spec_get_bool(fs, "disable_correlation"@) == Some(e.disable_correlation));
    assert(spec_get_text(fs, "extends_uuid"@) == Some(e.extends_uuid));
    assert(jv_dec_event(jv_enc_event(e)) matches Some(x) && x =~= e);
}

/// The full form of an event: the summary plus the members only a
/// single-event fetch returns. The summary's accessors are forwarded, so
/// the two forms never diverge on shared fields.
#[derive(Debug, Clone)]
pub struct EventFull {
    event: Event,
    org: OrganizationTemporary,
    orgc: OrganizationTemporary,
    attributes: Vec<AttributeFull>,
    shadow_attributes: JsonValue,
    related_events: JsonValue,
    galaxies: JsonValue,
    objects: Vec<ObjectFull>,
    tags: JsonValue,
}

/// The mathematical shape of a full event record.
#[verifier::ext_equal]
pub struct EventFullV {
    pub event: EventV,
    pub org: OrganizationTemporaryV,
    pub orgc: OrganizationTemporaryV,
    pub attributes: Seq<AttributeFullV>,
    pub shadow_attributes: Jv,
    pub related_events: Jv,
    pub galaxies: Jv,
    pub objects: Seq<ObjectFullV>,
    pub tags: Jv,
}

impl View for EventFull {
    type V = EventFullV;

    closed spec fn view(&self) -> EventFullV {
        EventFullV {
            event: self.event@,
            org: self.org@,
            orgc: self.orgc@,
            attributes: attribute_full_views(self.attributes@),
            shadow_attributes: self.shadow_attributes@,
            related_events: self.related_events@,
            galaxies: self.galaxies@,
            objects: object_full_views(self.objects@),
            tags: self.tags@,
        }
    }
}

/// What decoding a full event from JSON yields: the summary fields live
/// flattened beside the added members.
pub open spec fn jv_dec_event_full(v: Jv) -> Option<EventFullV> {
    match v {
        Jv::Obj(fs) => {
            if jv_dec_event(v) is Some && (jv_get(fs, "Org"@) matches Some(org)
                && jv_dec_organization_temporary(org) is Some) && (jv_get(fs, "Orgc"@)
                matches Some(orgc) && jv_dec_organization_temporary(orgc) is Some) && (jv_get(
                fs,
                "Attribute"@,
            ) matches Some(Jv::Arr(attrs)) && jv_dec_attribute_full_seq(attrs) is Some)
                && spec_get_raw(fs, "ShadowAttribute"@) is Some && spec_get_raw(fs, "RelatedEvent"@)
                is Some && spec_get_raw(fs, "Galaxy"@) is Some && (jv_get(fs, "Object"@)
                matches Some(Jv::Arr(objs)) && jv_dec_object_full_seq(objs) is Some)
                && spec_get_raw(fs, "Tag"@) is Some {
                Some(
                    EventFullV {
                        event: jv_dec_event(v)->Some_0,
                        org: jv_dec_organization_temporary(jv_get(fs, "Org"@)->Some_0)->Some_0,
                        orgc: jv_dec_organization_temporary(jv_get(fs, "Orgc"@)->Some_0)->Some_0,
                        attributes: jv_dec_attribute_full_seq(
                            jv_get(fs, "Attribute"@)->Some_0->Arr_0,
                        )->Some_0,
                        shadow_attributes: spec_get_raw(fs, "ShadowAttribute"@)->Some_0,
                        related_events: spec_get_raw(fs, "RelatedEvent"@)->Some_0,
                        galaxies: spec_get_raw(fs, "Galaxy"@)->Some_0,
                        objects: jv_dec_object_full_seq(jv_get(fs, "Object"@)->Some_0->Arr_0)
                            ->Some_0,
                        tags: spec_get_raw(fs, "Tag"@)->Some_0,
                    },
                )
            } else {
                None
            }
        },
        _ => None,
    }
}

impl EventFull {
    pub fn attributes(&self) -> (r: &Vec<AttributeFull>)
        ensures
            attribute_full_views(r@) == self@.attributes,
    {
        &self.attributes
    }

    pub fn objects(&self) -> (r: &Vec<ObjectFull>)
        ensures
            object_full_views(r@) == self@.objects,
    {
        &self.objects
    }

    pub fn id(&self) -> (r: EventIdentifier)
        ensures
            r == self@.event.id,
    {
        self.event.id()
    }

    /// The organization that is currently handling the event.
    pub fn organization_identifer(&self) -> (r: OrganizationIdentifier)
        ensures
            r == self@.event.org_id,
    {
        self.event.organization_identifer()
    }

    pub fn date(&self) -> (r: Date)
        ensures
            r == self@.event.date,
    {
        self.event.date()
    }

    pub fn info(&self) -> (r: &str)
        ensures
            r@ == self@.event.info,
    {
        self.event.info()
    }

    pub fn uuid(&self) -> (r: Uuid)
        ensures
            r == self@.event.uuid,
    {
        self.event.uuid()
    }

    pub fn published(&self) -> (r: bool)
        ensures
            r == self@.event.published,
    {
        self.event.published()
    }

    pub fn analysis(&self) -> (r: u16)
        ensures
            r == self@.event.analysis,
    {
        self.event.analysis()
    }

    pub fn attribute_count(&self) -> (r: u64)
        ensures
            r == self@.event.attribute_count,
    {
        self.event.attribute_count()
    }

    /// The organization that initially created the event.
    pub fn organization_creator_identifier(&self) -> (r: OrganizationIdentifier)
        ensures
            r == self@.event.orgc_id,
    {
        self.event.organization_creator_identifier()
    }

    pub fn timestamp(&self) -> (r: Timestamp)
        ensures
            r == self@.event.timestamp,
    {
        self.event.timestamp()
    }

    pub fn distribution(&self) -> (r: Distribution)
        ensures
            r == self@.event.distribution,
    {
        self.event.distribution()
    }

    pub fn sharing_group(&self) -> (r: u64)
        ensures
            r == self@.event.sharing_group_id,
    {
        self.event.sharing_group()
    }

    pub fn proposal_email_lock(&self) -> (r: bool)
        ensures
            r == self@.event.proposal_email_lock,
    {
        self.event.proposal_email_lock()
    }

    pub fn locked(&self) -> (r: bool)
        ensures
            r == self@.event.locked,
    {
        self.event.locked()
    }

    pub fn threat_level(&self) -> (r: ThreatLevel)
        ensures
            r == self@.event.threat_level_id,
    {
        self.event.threat_level()
    }

    pub fn publish_timestamp(&self) -> (r: Timestamp)
        ensures
            r == self@.event.publish_timestamp,
    {
        self.event.publish_timestamp()
    }

    pub fn disable_correlation(&self) -> (r: bool)
        ensures
            r == self@.event.disable_correlation,
    {
        self.event.disable_correlation()
    }

    pub fn extends(&self) -> (r: &str)
        ensures
            r@ == self@.event.extends_uuid,
    {
        self.event.extends()
    }

    /// The global address of this event. Total.
    pub fn identifier(&self) -> (r: GenericEventIdentifier)
        ensures
            r == GenericEventIdentifier::Global(self@.event.uuid),
    {
        self.event.identifier()
    }

    /// Decodes a full event from a JSON object, atomically.
    pub fn decode(v: &JsonValue) -> (r: Result<EventFull, MispError>)
        ensures
            jv_dec_event_full(v@) matches Some(ev) ==> (r matches Ok(d) && d@ == ev),
            jv_dec_event_full(v@) is None ==> (r matches Err(e) && e is MalformedValue),
    {
        match v {
            JsonValue::Obj(fields) => {
                let event = Event::decode(v)?;
                let org = match obj_lookup(fields, "Org") {
                    Some(w) => OrganizationTemporary::decode(w)?,
                    None => {
                        return Err(crate::codec::malformed("Org", "a required field"));
                    },
                };
                let orgc = match obj_lookup(fields, "Orgc") {
                    Some(w) => OrganizationTemporary::decode(w)?,
                    None => {
                        return Err(crate::codec::malformed("Orgc", "a required field"));
                    },
                };
                let attributes = match obj_lookup(fields, "Attribute") {
                    Some(JsonValue::Arr(items)) => decode_attribute_full_vec(items)?,
                    Some(_) => {
                        return Err(crate::codec::malformed("Attribute", "a JSON array"));
                    },
                    None => {
                        return Err(crate::codec::malformed("Attribute", "a required field"));
                    },
                };
                let shadow_attributes = crate::fields::get_raw_field(fields, "ShadowAttribute")?;
                let related_events = crate::fields::get_raw_field(fields, "RelatedEvent")?;
                let galaxies = crate::fields::get_raw_field(fields, "Galaxy")?;
                let objects = match obj_lookup(fields, "Object") {
                    Some(JsonValue::Arr(items)) => decode_object_full_vec(items)?,
                    Some(_) => {
                        return Err(crate::codec::malformed("Object", "a JSON array"));
                    },
                    None => {
                        return Err(crate::codec::malformed("Object", "a required field"));
                    },
                };
                let tags = crate::fields::get_raw_field(fields, "Tag")?;
                Ok(
                    EventFull {
                        event,
                        org,
                        orgc,
                        attributes,
                        shadow_attributes,
                        related_events,
                        galaxies,
                        objects,
                        tags,
                    },
                )
            },
            _ => Err(crate::codec::malformed("", "a JSON object holding an event")),
        }
    }
}

pub open spec fn event_full_views(s: Seq<EventFull>) -> Seq<EventFullV> {
    s.map_values(|e: EventFull| e@)
}

/// The envelope the platform wraps a fetched event in: an object whose one
/// meaningful member, `"Event"`, holds the full event.
#[derive(Debug, Clone)]
pub struct EventFullEmbedded {
    pub event: EventFull,
}

impl View for EventFullEmbedded {
    type V = EventFullV;

    open spec fn view(&self) -> EventFullV {
        self.event@
    }
}

/// What decoding the single-event envelope yields.
pub open spec fn jv_dec_event_full_embedded(v: Jv) -> Option<EventFullV> {
    match v {
        Jv::Obj(fs) => match jv_get(fs, "Event"@) {
            Some(inner) => jv_dec_event_full(inner),
            None => None,
        },
        _ => None,
    }
}

impl EventFullEmbedded {
    /// The global address of the enclosed event. Total.
    pub fn identifier(&self) -> (r: GenericEventIdentifier)
        ensures
            r == GenericEventIdentifier::Global(self@.event.uuid),
    {
        self.event.identifier()
    }

    /// Decodes the single-event envelope, atomically.
    pub fn decode(v: &JsonValue) -> (r: Result<EventFullEmbedded, MispError>)
        ensures
            jv_dec_event_full_embedded(v@) matches Some(ev) ==> (r matches Ok(d) && d@ == ev),
            jv_dec_event_full_embedded(v@) is None ==> (r matches Err(e) && e is MalformedValue),
    {
        match v {
            JsonValue::Obj(fields) => {
                let inner = match obj_lookup(fields, "Event") {
                    Some(w) => w,
                    None => {
                        return Err(crate::codec::malformed("Event", "a required field"));
                    },
                };
                let event = EventFull::decode(inner)?;
                Ok(EventFullEmbedded { event })
            },
            _ => Err(crate::codec::malformed("", "a JSON object holding an event envelope")),
        }
    }
}

} // verus!
