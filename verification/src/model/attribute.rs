//! Attribute records: the summary fields present in every listing, and the
//! full form a single-entity fetch returns, which embeds the summary and
//! adds first/last-seen instants and raw passthrough members.

use vstd::prelude::*;

use crate::codec::Timestamp;
use crate::error::MispError;
use crate::fields::{
    get_bool_field, get_opt_text_field, get_opt_timestamp_field, get_raw_field, get_text_field,
    get_timestamp_field, get_u16_field, get_u64_field, get_uuid_field, spec_get_bool,
    spec_get_opt_text, spec_get_opt_timestamp, spec_get_raw, spec_get_text, spec_get_timestamp,
    spec_get_u16, spec_get_u64, spec_get_uuid,
};
use crate::identifier::{AttributeIdentifier, EventIdentifier, ObjectIdentifier};
use crate::json::{jv_of_seq, lemma_jv_of_seq_index, Jv, JsonValue};
use crate::uid::Uuid;

verus! {

/// The summary of an attribute: the fields guaranteed present in a minimal
/// listing.
#[derive(Debug, Clone)]
pub struct Attribute {
    id: AttributeIdentifier,
    event_id: EventIdentifier,
    object_id: ObjectIdentifier,
    object_relation: Option<String>,
    category: String,
    kind: String,
    value: String,
    to_ids: bool,
    uuid: Uuid,
    timestamp: Timestamp,
    distribution: u16,
    sharing_group_id: u64,
    comment: String,
    deleted: bool,
    disable_correlation: bool,
}

/// The mathematical shape of an attribute summary.
#[verifier::ext_equal]
pub struct AttributeV {
    pub id: AttributeIdentifier,
    pub event_id: EventIdentifier,
    pub object_id: ObjectIdentifier,
    pub object_relation: Option<Seq<char>>,
    pub category: Seq<char>,
    pub kind: Seq<char>,
    pub value: Seq<char>,
    pub to_ids: bool,
    pub uuid: Uuid,
    pub timestamp: Timestamp,
    pub distribution: u16,
    pub sharing_group_id: u64,
    pub comment: Seq<char>,
    pub deleted: bool,
    pub disable_correlation: bool,
}

impl View for Attribute {
    type V = AttributeV;

    closed spec fn view(&self) -> AttributeV {
        AttributeV {
            id: self.id,
            event_id: self.event_id,
            object_id: self.object_id,
            object_relation: match self.object_relation {
                Some(ref s) => Some(s@),
                None => None,
            },
            category: self.category@,
            kind: self.kind@,
            value: self.value@,
            to_ids: self.to_ids,
            uuid: self.uuid,
            timestamp: self.timestamp,
            distribution: self.distribution,
            sharing_group_id: self.sharing_group_id,
            comment: self.comment@,
            deleted: self.deleted,
            disable_correlation: self.disable_correlation,
        }
    }
}

/// What decoding an attribute summary from JSON yields, field by field.
/// The attribute's type is called `kind` here, after the wire key `type`.
pub open spec fn jv_dec_attribute(v: Jv) -> Option<AttributeV> {
    match v {
        Jv::Obj(fs) => {
            if spec_get_u64(fs, "id"@) is Some && spec_get_u64(fs, "event_id"@) is Some
                && spec_get_u64(fs, "object_id"@) is Some && spec_get_opt_text(
                fs,
                "object_relation"@,
            ) is Some && spec_get_text(fs, "category"@) is Some && spec_get_text(fs, "type"@)
                is Some && spec_get_text(fs, "value"@) is Some && spec_get_bool(fs, "to_ids"@)
                is Some && spec_get_uuid(fs, "uuid"@) is Some && spec_get_timestamp(
                fs,
                "timestamp"@,
            ) is Some && spec_get_u16(fs, "distribution"@) is Some && spec_get_u64(
                fs,
                "sharing_group_id"@,
            ) is Some && spec_get_text(fs, "comment"@) is Some && spec_get_bool(fs, "deleted"@)
                is Some && spec_get_bool(fs, "disable_correlation"@) is Some {
                Some(
                    AttributeV {
                        id: AttributeIdentifier(spec_get_u64(fs, "id"@)->Some_0),
                        event_id: EventIdentifier(spec_get_u64(fs, "event_id"@)->Some_0),
                        object_id: ObjectIdentifier(spec_get_u64(fs, "object_id"@)->Some_0),
                        object_relation: spec_get_opt_text(fs, "object_relation"@)->Some_0,
                        category: spec_get_text(fs, "category"@)->Some_0,
                        kind: spec_get_text(fs, "type"@)->Some_0,
                        value: spec_get_text(fs, "value"@)->Some_0,
                        to_ids: spec_get_bool(fs, "to_ids"@)->Some_0,
                        uuid: spec_get_uuid(fs, "uuid"@)->Some_0,
                        timestamp: spec_get_timestamp(fs, "timestamp"@)->Some_0,
                        distribution: spec_get_u16(fs, "distribution"@)->Some_0,
                        sharing_group_id: spec_get_u64(fs, "sharing_group_id"@)->Some_0,
                        comment: spec_get_text(fs, "comment"@)->Some_0,
                        deleted: spec_get_bool(fs, "deleted"@)->Some_0,
                        disable_correlation: spec_get_bool(fs, "disable_correlation"@)->Some_0,
                    },
                )
            } else {
                None
            }
        },
        _ => None,
    }
}

impl Attribute {
    pub fn id(&self) -> (r: AttributeIdentifier)
        ensures
            r == self@.id,
    {
        self.id
    }

    /// The event this attribute belongs to.
    pub fn event_identifer(&self) -> (r: EventIdentifier)
        ensures
            r == self@.event_id,
    {
        self.event_id
    }

    pub fn category(&self) -> (r: &str)
        ensures
            r@ == self@.category,
    {
        self.category.as_str()
    }

    /// The attribute's type (named `kind`, since `type` is reserved).
    pub fn kind(&self) -> (r: &str)
        ensures
            r@ == self@.kind,
    {
        self.kind.as_str()
    }

    pub fn value(&self) -> (r: &str)
        ensures
            r@ == self@.value,
    {
        self.value.as_str()
    }

    pub fn object_relation(&self) -> (r: Option<&str>)
        ensures
            match r {
                Some(s) => self@.object_relation matches Some(t) && s@ == t,
                None => self@.object_relation is None,
            },
    {
        match &self.object_relation {
            Some(s) => Some(s.as_str()),
            None => None,
        }
    }

    /// Decodes an attribute summary from a JSON object, atomically.
    pub fn decode(v: &JsonValue) -> (r: Result<Attribute, MispError>)
        ensures
            jv_dec_attribute(v@) matches Some(a) ==> (r matches Ok(d) && d@ == a),
            jv_dec_attribute(v@) is None ==> (r matches Err(e) && e is MalformedValue),
    {
        match v {
            JsonValue::Obj(fields) => {
                let id = get_u64_field(fields, "id")?;
                let event_id = get_u64_field(fields, "event_id")?;
                let object_id = get_u64_field(fields, "object_id")?;
                let object_relation = get_opt_text_field(fields, "object_relation")?;
                let category = get_text_field(fields, "category")?;
                let kind = get_text_field(fields, "type")?;
                let value = get_text_field(fields, "value")?;
                let to_ids = get_bool_field(fields, "to_ids")?;
                let uuid = get_uuid_field(fields, "uuid")?;
                let timestamp = get_timestamp_field(fields, "timestamp")?;
                let distribution = get_u16_field(fields, "distribution")?;
                let sharing_group_id = get_u64_field(fields, "sharing_group_id")?;
                let comment = get_text_field(fields, "comment")?;
                let deleted = get_bool_field(fields, "deleted")?;
                let disable_correlation = get_bool_field(fields, "disable_correlation")?;
                Ok(
                    Attribute {
                        id: AttributeIdentifier(id),
                        event_id: EventIdentifier(event_id),
                        object_id: ObjectIdentifier(object_id),
                        object_relation,
                        category,
                        kind,
                        value,
                        to_ids,
                        uuid,
                        timestamp,
                        distribution,
                        sharing_group_id,
                        comment,
                        deleted,
                        disable_correlation,
                    },
                )
            },
            _ => Err(crate::codec::malformed("", "a JSON object holding an attribute")),
        }
    }
}

/// The full form of an attribute: the summary plus the fields only a
/// single-entity fetch returns. The summary's accessors are forwarded, so
/// the two forms never diverge on shared fields.
#[derive(Debug, Clone)]
pub struct AttributeFull {
    attribute: Attribute,
    galaxies: JsonValue,
    shadow_attributes: JsonValue,
    first_seen: Option<Timestamp>,
    last_seen: Option<Timestamp>,
}

/// The mathematical shape of a full attribute record.
#[verifier::ext_equal]
pub struct AttributeFullV {
    pub attribute: AttributeV,
    pub galaxies: Jv,
    pub shadow_attributes: Jv,
    pub first_seen: Option<Timestamp>,
    pub last_seen: Option<Timestamp>,
}

impl View for AttributeFull {
    type V = AttributeFullV;

    closed spec fn view(&self) -> AttributeFullV {
        AttributeFullV {
            attribute: self.attribute@,
            galaxies: self.galaxies@,
            shadow_attributes: self.shadow_attributes@,
            first_seen: self.first_seen,
            last_seen: self.last_seen,
        }
    }
}

/// What decoding a full attribute from JSON yields: the summary fields live
/// flattened in the same object as the added ones.
pub open spec fn jv_dec_attribute_full(v: Jv) -> Option<AttributeFullV> {
    match v {
        Jv::Obj(fs) => {
            if jv_dec_attribute(v) is Some && spec_get_raw(fs, "Galaxy"@) is Some && spec_get_raw(
                fs,
                "ShadowAttribute"@,
            ) is Some && spec_get_opt_timestamp(fs, "first_seen"@) is Some
                && spec_get_opt_timestamp(fs, "last_seen"@) is Some {
                Some(
                    AttributeFullV {
                        attribute: jv_dec_attribute(v)->Some_0,
                        galaxies: spec_get_raw(fs, "Galaxy"@)->Some_0,
                        shadow_attributes: spec_get_raw(fs, "ShadowAttribute"@)->Some_0,
                        first_seen: spec_get_opt_timestamp(fs, "first_seen"@)->Some_0,
                        last_seen: spec_get_opt_timestamp(fs, "last_seen"@)->Some_0,
                    },
                )
            } else {
                None
            }
        },
        _ => None,
    }
}

impl AttributeFull {
    pub fn category(&self) -> (r: &str)
        ensures
            r@ == self@.attribute.category,
    {
        self.attribute.category()
    }

    /// The attribute's type (named `kind`, since `type` is reserved).
    pub fn kind(&self) -> (r: &str)
        ensures
            r@ == self@.attribute.kind,
    {
        self.attribute.kind()
    }

    pub fn value(&self) -> (r: &str)
        ensures
            r@ == self@.attribute.value,
    {
        self.attribute.value()
    }

    pub fn object_relation(&self) -> (r: Option<&str>)
        ensures
            match r {
                Some(s) => self@.attribute.object_relation matches Some(t) && s@ == t,
                None => self@.attribute.object_relation is None,
            },
    {
        self.attribute.object_relation()
    }

    pub fn first_seen(&self) -> (r: Option<Timestamp>)
        ensures
            r == self@.first_seen,
    {
        self.first_seen
    }

    pub fn last_seen(&self) -> (r: Option<Timestamp>)
        ensures
            r == self@.last_seen,
    {
        self.last_seen
    }

    /// Decodes a full attribute from a JSON object, atomically.
    pub fn decode(v: &JsonValue) -> (r: Result<AttributeFull, MispError>)
        ensures
            jv_dec_attribute_full(v@) matches Some(a) ==> (r matches Ok(d) && d@ == a),
            jv_dec_attribute_full(v@) is None ==> (r matches Err(e) && e is MalformedValue),
    {
        match v {
            JsonValue::Obj(fields) => {
                let attribute = Attribute::decode(v)?;
                let galaxies = get_raw_field(fields, "Galaxy")?;
                let shadow_attributes = get_raw_field(fields, "ShadowAttribute")?;
                let first_seen = get_opt_timestamp_field(fields, "first_seen")?;
                let last_seen = get_opt_timestamp_field(fields, "last_seen")?;
                Ok(AttributeFull { attribute, galaxies, shadow_attributes, first_seen, last_seen })
            },
            _ => Err(crate::codec::malformed("", "a JSON object holding an attribute")),
        }
    }
}

// ---------------------------------------------------------------------------
// Sequences of full attributes, as nested records hold them.
// ---------------------------------------------------------------------------
pub open spec fn attribute_full_views(s: Seq<AttributeFull>) -> Seq<AttributeFullV> {
    s.map_values(|a: AttributeFull| a@)
}

/// What decoding a JSON array of full attributes yields: every element must
/// decode, else the whole array fails.
pub open spec fn jv_dec_attribute_full_seq(items: Seq<Jv>) -> Option<Seq<AttributeFullV>>
    decreases items.len(),
{
    if items.len() == 0 {
        Some(Seq::empty())
    } else {
        match jv_dec_attribute_full_seq(items.drop_last()) {
            Some(p) => match jv_dec_attribute_full(items.last()) {
                Some(x) => Some(p.push(x)),
                None => None,
            },
            None => None,
        }
    }
}

/// A failing prefix makes the whole array fail.
proof fn lemma_attribute_full_seq_none(items: Seq<Jv>, i: int)
    requires
        0 <= i <= items.len(),
        jv_dec_attribute_full_seq(items.take(i)) is None,
    ensures
        jv_dec_attribute_full_seq(items) is None,
    decreases items.len() - i,
{
    if i < items.len() {
        assert(items.take(i + 1).drop_last() =~= items.take(i));
        lemma_attribute_full_seq_none(items, i + 1);
    } else {
        assert(items.take(i) =~= items);
    }
}

/// Decodes a JSON array of full attributes, atomically.
pub fn decode_attribute_full_vec(items: &Vec<JsonValue>) -> (r: Result<
    Vec<AttributeFull>,
    MispError,
>)
    ensures
        jv_dec_attribute_full_seq(jv_of_seq(items@)) matches Some(s) ==> (r matches Ok(v)
            && attribute_full_views(v@) == s),
        jv_dec_attribute_full_seq(jv_of_seq(items@)) is None ==> (r matches Err(e)
            && e is MalformedValue),
{
    let ghost m = jv_of_seq(items@);
    proof {
        lemma_jv_of_seq_index(items@);
        assert(m.take(0) =~= Seq::<Jv>::empty());
    }
    let mut out: Vec<AttributeFull> = Vec::new();
    let mut i: usize = 0;
    while i < items.len()
        invariant
            0 <= i <= items@.len(),
            m == jv_of_seq(items@),
            m.len() == items@.len(),
            forall|j: int| 0 <= j < m.len() ==> m[j] == (#[trigger] items@[j])@,
            jv_dec_attribute_full_seq(m.take(i as int)) matches Some(p) && p
                == attribute_full_views(out@),
        decreases items@.len() - i,
    {
        match AttributeFull::decode(&items[i]) {
            Ok(a) => {
                let ghost prev = out@;
                let ghost av = a@;
                out.push(a);
                proof {
                    assert(m.take(i + 1).drop_last() =~= m.take(i as int));
                    assert(m.take(i + 1).last() == m[i as int]);
                    assert(attribute_full_views(prev.push(a)) =~= attribute_full_views(prev).push(
                        av,
                    ));
                }
                i = i + 1;
            },
            Err(e) => {
                proof {
                    assert(m.take(i + 1).drop_last() =~= m.take(i as int));
                    assert(m.take(i + 1).last() == m[i as int]);
                    assert(jv_dec_attribute_full_seq(m.take(i + 1)) is None);
                    lemma_attribute_full_seq_none(m, i + 1);
                }
                return Err(e);
            },
        }
    }
    assert(m.take(items@.len() as int) =~= m);
    Ok(out)
}

} // verus!
