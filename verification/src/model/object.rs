//! Object records: the summary fields present in every listing, and the
//! full form a single-entity fetch returns, with its nested attributes.

use vstd::prelude::*;

use crate::codec::Timestamp;
use crate::error::MispError;
use crate::fields::{
    get_bool_field, get_opt_timestamp_field, get_raw_field, get_text_field, get_timestamp_field,
    get_u16_field, get_u64_field, get_uuid_field, spec_get_bool, spec_get_opt_timestamp,
    spec_get_raw, spec_get_text, spec_get_timestamp, spec_get_u16, spec_get_u64, spec_get_uuid,
};
use crate::identifier::{EventIdentifier, ObjectIdentifier};
use crate::json::{jv_get, jv_of_seq, Jv, JsonValue};
use crate::model::attribute::{
    attribute_full_views, decode_attribute_full_vec, jv_dec_attribute_full_seq, AttributeFull,
    AttributeFullV,
};
use crate::uid::Uuid;

verus! {

/// The summary of an object: the fields guaranteed present in a minimal
/// listing.
#[derive(Debug, Clone)]
pub struct Object {
    id: ObjectIdentifier,
    name: String,
    meta_category: String,
    description: String,
    template_uuid: String,
    template_version: u64,
    event_id: EventIdentifier,
    uuid: Uuid,
    timestamp: Timestamp,
    distribution: u16,
    sharing_group_id: u64,
    comment: String,
    deleted: bool,
}

/// The mathematical shape of an object summary.
#[verifier::ext_equal]
pub struct ObjectV {
    pub id: ObjectIdentifier,
    pub name: Seq<char>,
    pub meta_category: Seq<char>,
    pub description: Seq<char>,
    pub template_uuid: Seq<char>,
    pub template_version: u64,
    pub event_id: EventIdentifier,
    pub uuid: Uuid,
    pub timestamp: Timestamp,
    pub distribution: u16,
    pub sharing_group_id: u64,
    pub comment: Seq<char>,
    pub deleted: bool,
}

impl View for Object {
    type V = ObjectV;

    closed spec fn view(&self) -> ObjectV {
        ObjectV {
            id: self.id,
            name: self.name@,
            meta_category: self.meta_category@,
            description: self.description@,
            template_uuid: self.template_uuid@,
            template_version: self.template_version,
            event_id: self.event_id,
            uuid: self.uuid,
            timestamp: self.timestamp,
            distribution: self.distribution,
            sharing_group_id: self.sharing_group_id,
            comment: self.comment@,
            deleted: self.deleted,
        }
    }
}

/// What decoding an object summary from JSON yields, field by field.
pub open spec fn jv_dec_object(v: Jv) -> Option<ObjectV> {
    match v {
        Jv::Obj(fs) => {
            if spec_get_u64(fs, "id"@) is Some && spec_get_text(fs, "name"@) is Some
                && spec_get_text(fs, "meta-category"@) is Some && spec_get_text(fs, "description"@)
                is Some && spec_get_text(fs, "template_uuid"@) is Some && spec_get_u64(
                fs,
                "template_version"@,
            ) is Some && spec_get_u64(fs, "event_id"@) is Some && spec_get_uuid(fs, "uuid"@)
                is Some && spec_get_timestamp(fs, "timestamp"@) is Some && spec_get_u16(
                fs,
                "distribution"@,
            ) is Some && spec_get_u64(fs, "sharing_group_id"@) is Some && spec_get_text(
                fs,
                "comment"@,
            ) is Some && spec_get_bool(fs, "deleted"@) is Some {
                Some(
                    ObjectV {
                        id: ObjectIdentifier(spec_get_u64(fs, "id"@)->Some_0),
                        name: spec_get_text(fs, "name"@)->Some_0,
                        meta_category: spec_get_text(fs, "meta-category"@)->Some_0,
                        description: spec_get_text(fs, "description"@)->Some_0,
                        template_uuid: spec_get_text(fs, "template_uuid"@)->Some_0,
                        template_version: spec_get_u64(fs, "template_version"@)->Some_0,
                        event_id: EventIdentifier(spec_get_u64(fs, "event_id"@)->Some_0),
                        uuid: spec_get_uuid(fs, "uuid"@)->Some_0,
                        timestamp: spec_get_timestamp(fs, "timestamp"@)->Some_0,
                        distribution: spec_get_u16(fs, "distribution"@)->Some_0,
                        sharing_group_id: spec_get_u64(fs, "sharing_group_id"@)->Some_0,
                        comment: spec_get_text(fs, "comment"@)->Some_0,
                        deleted: spec_get_bool(fs, "deleted"@)->Some_0,
                    },
                )
            } else {
                None
            }
        },
        _ => None,
    }
}

impl Object {
    pub fn name(&self) -> (r: &str)
        ensures
            r@ == self@.name,
    {
        self.name.as_str()
    }

    pub fn description(&self) -> (r: &str)
        ensures
            r@ == self@.description,
    {
        self.description.as_str()
    }

    pub fn comment(&self) -> (r: &str)
        ensures
            r@ == self@.comment,
    {
        self.comment.as_str()
    }

    /// Decodes an object summary from a JSON object, atomically.
    pub fn decode(v: &JsonValue) -> (r: Result<Object, MispError>)
        ensures
            jv_dec_object(v@) matches Some(o) ==> (r matches Ok(d) && d@ == o),
            jv_dec_object(v@) is None ==> (r matches Err(e) && e is MalformedValue),
    {
        match v {
            JsonValue::Obj(fields) => {
                let id = get_u64_field(fields, "id")?;
                let name = get_text_field(fields, "name")?;
                let meta_category = get_text_field(fields, "meta-category")?;
                let description = get_text_field(fields, "description")?;
                let template_uuid = get_text_field(fields, "template_uuid")?;
                let template_version = get_u64_field(fields, "template_version")?;
                let event_id = get_u64_field(fields, "event_id")?;
                let uuid = get_uuid_field(fields, "uuid")?;
                let timestamp = get_timestamp_field(fields, "timestamp")?;
                let distribution = get_u16_field(fields, "distribution")?;
                let sharing_group_id = get_u64_field(fields, "sharing_group_id")?;
                let comment = get_text_field(fields, "comment")?;
                let deleted = get_bool_field(fields, "deleted")?;
                Ok(
                    Object {
                        id: ObjectIdentifier(id),
                        name,
                        meta_category,
                        description,
                        template_uuid,
                        template_version,
                        event_id: EventIdentifier(event_id),
                        uuid,
                        timestamp,
                        distribution,
                        sharing_group_id,
                        comment,
                        deleted,
                    },
                )
            },
            _ => Err(crate::codec::malformed("", "a JSON object holding an object record")),
        }
    }
}

/// The full form of an object: the summary plus first/last-seen instants,
/// the raw object references, and the nested full attributes. The summary's
/// accessors are forwarded, so the two forms never diverge on shared
/// fields.
#[derive(Debug, Clone)]
pub struct ObjectFull {
    object: Object,
    first_seen: Option<Timestamp>,
    last_seen: Option<Timestamp>,
    object_reference: JsonValue,
    attributes: Vec<AttributeFull>,
}

/// The mathematical shape of a full object record.
#[verifier::ext_equal]
pub struct ObjectFullV {
    pub object: ObjectV,
    pub first_seen: Option<Timestamp>,
    pub last_seen: Option<Timestamp>,
    pub object_reference: Jv,
    pub attributes: Seq<AttributeFullV>,
}

impl View for ObjectFull {
    type V = ObjectFullV;

    closed spec fn view(&self) -> ObjectFullV {
        ObjectFullV {
            object: self.object@,
            first_seen: self.first_seen,
            last_seen: self.last_seen,
            object_reference: self.object_reference@,
            attributes: attribute_full_views(self.attributes@),
        }
    }
}

/// What decoding a full object from JSON yields: the summary fields live
/// flattened in the same object as the added ones.
pub open spec fn jv_dec_object_full(v: Jv) -> Option<ObjectFullV> {
    match v {
        Jv::Obj(fs) => {
            if jv_dec_object(v) is Some && spec_get_opt_timestamp(fs, "first_seen"@) is Some
                && spec_get_opt_timestamp(fs, "last_seen"@) is Some && spec_get_raw(
                fs,
                "ObjectReference"@,
            ) is Some && (jv_get(fs, "Attribute"@) matches Some(Jv::Arr(items))
                && jv_dec_attribute_full_seq(items) is Some) {
                Some(
                    ObjectFullV {
                        object: jv_dec_object(v)->Some_0,
                        first_seen: spec_get_opt_timestamp(fs, "first_seen"@)->Some_0,
                        last_seen: spec_get_opt_timestamp(fs, "last_seen"@)->Some_0,
                        object_reference: spec_get_raw(fs, "ObjectReference"@)->Some_0,
                        attributes: jv_dec_attribute_full_seq(
                            jv_get(fs, "Attribute"@)->Some_0->Arr_0,
                        )->Some_0,
                    },
                )
            } else {
                None
            }
        },
        _ => None,
    }
}

/// The first full attribute of `s` whose object relation is `key`.
pub open spec fn spec_find_attribute(s: Seq<AttributeFullV>, key: Seq<char>) -> Option<
    AttributeFullV,
>
    decreases s.len(),
{
    if s.len() == 0 {
        None
    } else if s[0].attribute.object_relation matches Some(t) && t == key {
        Some(s[0])
    } else {
        spec_find_attribute(s.skip(1), key)
    }
}

impl ObjectFull {
    pub fn attributes(&self) -> (r: &Vec<AttributeFull>)
        ensures
            attribute_full_views(r@) == self@.attributes,
    {
        &self.attributes
    }

    /// A shortcut to the first attribute of this object with a specific
    /// object relation.
    pub fn attribute(&self, relation: &str) -> (r: Option<&AttributeFull>)
        ensures
            r matches Some(a) ==> spec_find_attribute(self@.attributes, relation@) == Some(a@),
            r is None ==> spec_find_attribute(self@.attributes, relation@) is None,
    {
        let ghost m = self@.attributes;
        let mut i: usize = 0;
        assert(m.skip(0) =~= m);
        while i < self.attributes.len()
            invariant
                0 <= i <= self.attributes@.len(),
                m == attribute_full_views(self.attributes@),
                m.len() == self.attributes@.len(),
                spec_find_attribute(m, relation@) == spec_find_attribute(m.skip(i as int), relation@),
            decreases self.attributes@.len() - i,
        {
            assert(m.skip(i as int)[0] == m[i as int]);
            assert(m[i as int] == self.attributes@[i as int]@);
            let matched = match self.attributes[i].object_relation() {
                Some(t) => crate::json::str_eq(t, relation),
                None => false,
            };
            if matched {
                return Some(&self.attributes[i]);
            }
            assert(m.skip(i as int).skip(1) =~= m.skip(i + 1));
            i = i + 1;
        }
        assert(m.skip(i as int).len() == 0);
        None
    }

    pub fn name(&self) -> (r: &str)
        ensures
            r@ == self@.object.name,
    {
        self.object.name()
    }

    pub fn description(&self) -> (r: &str)
        ensures
            r@ == self@.object.description,
    {
        self.object.description()
    }

    pub fn comment(&self) -> (r: &str)
        ensures
            r@ == self@.object.comment,
    {
        self.object.comment()
    }

    /// Decodes a full object from a JSON object, atomically.
    pub fn decode(v: &JsonValue) -> (r: Result<ObjectFull, MispError>)
        ensures
            jv_dec_object_full(v@) matches Some(o) ==> (r matches Ok(d) && d@ == o),
            jv_dec_object_full(v@) is None ==> (r matches Err(e) && e is MalformedValue),
    {
        match v {
            JsonValue::Obj(fields) => {
                let object = Object::decode(v)?;
                let first_seen = get_opt_timestamp_field(fields, "first_seen")?;
                let last_seen = get_opt_timestamp_field(fields, "last_seen")?;
                let object_reference = get_raw_field(fields, "ObjectReference")?;
                let attributes = match crate::json::obj_lookup(fields, "Attribute") {
                    Some(JsonValue::Arr(items)) => decode_attribute_full_vec(items)?,
                    Some(_) => {
                        return Err(crate::codec::malformed("Attribute", "a JSON array"));
                    },
                    None => {
                        return Err(crate::codec::malformed("Attribute", "a required field"));
                    },
                };
                Ok(ObjectFull { object, first_seen, last_seen, object_reference, attributes })
            },
            _ => Err(crate::codec::malformed("", "a JSON object holding an object record")),
        }
    }
}

// ---------------------------------------------------------------------------
// Sequences of full objects, as events hold them.
// ---------------------------------------------------------------------------
pub open spec fn object_full_views(s: Seq<ObjectFull>) -> Seq<ObjectFullV> {
    s.map_values(|o: ObjectFull| o@)
}

/// What decoding a JSON array of full objects yields: every element must
/// decode, else the whole array fails.
pub open spec fn jv_dec_object_full_seq(items: Seq<Jv>) -> Option<Seq<ObjectFullV>>
    decreases items.len(),
{
    if items.len() == 0 {
        Some(Seq::empty())
    } else {
        match jv_dec_object_full_seq(items.drop_last()) {
            Some(p) => match jv_dec_object_full(items.last()) {
                Some(x) => Some(p.push(x)),
                None => None,
            },
            None => None,
        }
    }
}

/// A failing prefix makes the whole array fail.
proof fn lemma_object_full_seq_none(items: Seq<Jv>, i: int)
    requires
        0 <= i <= items.len(),
        jv_dec_object_full_seq(items.take(i)) is None,
    ensures
        jv_dec_object_full_seq(items) is None,
    decreases items.len() - i,
{
    if i < items.len() {
        assert(items.take(i + 1).drop_last() =~= items.take(i));
        lemma_object_full_seq_none(items, i + 1);
    } else {
        assert(items.take(i) =~= items);
    }
}

/// Decodes a JSON array of full objects, atomically.
pub fn decode_object_full_vec(items: &Vec<JsonValue>) -> (r: Result<Vec<ObjectFull>, MispError>)
    ensures
        jv_dec_object_full_seq(jv_of_seq(items@)) matches Some(s) ==> (r matches Ok(v)
            && object_full_views(v@) == s),
        jv_dec_object_full_seq(jv_of_seq(items@)) is None ==> (r matches Err(e)
            && e is MalformedValue),
{
    let ghost m = jv_of_seq(items@);
    proof {
        crate::json::lemma_jv_of_seq_index(items@);
        assert(m.take(0) =~= Seq::<Jv>::empty());
    }
    let mut out: Vec<ObjectFull> = Vec::new();
    let mut i: usize = 0;
    while i < items.len()
        invariant
            0 <= i <= items@.len(),
            m == jv_of_seq(items@),
            m.len() == items@.len(),
            forall|j: int| 0 <= j < m.len() ==> m[j] == (#[trigger] items@[j])@,
            jv_dec_object_full_seq(m.take(i as int)) matches Some(p) && p == object_full_views(
                out@,
            ),
        decreases items@.len() - i,
    {
        match ObjectFull::decode(&items[i]) {
            Ok(a) => {
                let ghost prev = out@;
                let ghost av = a@;
                out.push(a);
                proof {
                    assert(m.take(i + 1).drop_last() =~= m.take(i as int));
                    assert(m.take(i + 1).last() == m[i as int]);
                    assert(object_full_views(prev.push(a)) =~= object_full_views(prev).push(av));
                }
                i = i + 1;
            },
            Err(e) => {
                proof {
                    assert(m.take(i + 1).drop_last() =~= m.take(i as int));
                    assert(m.take(i + 1).last() == m[i as int]);
                    assert(jv_dec_object_full_seq(m.take(i + 1)) is None);
                    lemma_object_full_seq_none(m, i + 1);
                }
                return Err(e);
            },
        }
    }
    assert(m.take(items@.len() as int) =~= m);
    Ok(out)
}

} // verus!
