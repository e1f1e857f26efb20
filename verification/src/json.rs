//! The library's own model of an already-parsed JSON document. The core
//! consumes and produces these values; turning wire bytes into them and back
//! is the transport side's concern.
//!
//! `JsonValue` is the executable tree; its mathematical abstraction is `Jv`,
//! reached with the view operator `@`. An object keeps its members in order
//! as a vector of pairs; when a key is repeated, the first member wins on
//! lookup. A JSON number is kept only in the unsigned integral form the
//! platform's search payload uses; the scalar codecs reject numbers anyway,
//! since the platform embeds every integer in a string.

use vstd::prelude::*;

verus! {

#[derive(Debug, PartialEq)]
pub enum JsonValue {
    Null,
    Bool(bool),
    Num(u64),
    Text(String),
    Arr(Vec<JsonValue>),
    Obj(Vec<(String, JsonValue)>),
}

/// The mathematical shape of a JSON document.
#[verifier::ext_equal]
pub enum Jv {
    Null,
    Bool(bool),
    Num(u64),
    Text(Seq<char>),
    Arr(Seq<Jv>),
    Obj(Seq<(Seq<char>, Jv)>),
}

pub open spec fn jv_of(v: JsonValue) -> Jv
    decreases v,
{
    match v {
        JsonValue::Null => Jv::Null,
        JsonValue::Bool(b) => Jv::Bool(b),
        JsonValue::Num(n) => Jv::Num(n),
        JsonValue::Text(s) => Jv::Text(s@),
        JsonValue::Arr(items) => Jv::Arr(jv_of_seq(items@)),
        JsonValue::Obj(fields) => Jv::Obj(jv_of_fields(fields@)),
    }
}

pub open spec fn jv_of_seq(s: Seq<JsonValue>) -> Seq<Jv>
    decreases s,
{
    if s.len() == 0 {
        Seq::empty()
    } else {
        jv_of_seq(s.drop_last()).push(jv_of(s.last()))
    }
}

pub open spec fn jv_of_fields(s: Seq<(String, JsonValue)>) -> Seq<(Seq<char>, Jv)>
    decreases s,
{
    if s.len() == 0 {
        Seq::empty()
    } else {
        jv_of_fields(s.drop_last()).push((s.last().0@, jv_of(s.last().1)))
    }
}

impl View for JsonValue {
    type V = Jv;

    open spec fn view(&self) -> Jv {
        jv_of(*self)
    }
}

/// The view of a sequence of values is the values' views, one for one.
pub proof fn lemma_jv_of_seq_index(s: Seq<JsonValue>)
    ensures
        jv_of_seq(s).len() == s.len(),
        forall|i: int| 0 <= i < s.len() ==> jv_of_seq(s)[i] == jv_of(#[trigger] s[i]),
    decreases s.len(),
{
    if s.len() > 0 {
        lemma_jv_of_seq_index(s.drop_last());
        assert forall|i: int| 0 <= i < s.len() implies jv_of_seq(s)[i] == jv_of(s[i]) by {
            if i < s.len() - 1 {
                assert(s.drop_last()[i] == s[i]);
                assert(jv_of_seq(s)[i] == jv_of_seq(s.drop_last())[i]);
            } else {
                assert(jv_of_seq(s)[i] == jv_of(s.last()));
            }
        }
    }
}

/// The view of an object's members is the members' views, one for one.
pub proof fn lemma_jv_of_fields_index(s: Seq<(String, JsonValue)>)
    ensures
        jv_of_fields(s).len() == s.len(),
        forall|i: int| 0 <= i < s.len() ==> jv_of_fields(s)[i] == ((#[trigger] s[i]).0@, jv_of(
            s[i].1,
        )),
    decreases s.len(),
{
    if s.len() > 0 {
        lemma_jv_of_fields_index(s.drop_last());
        assert forall|i: int|
            0 <= i < s.len() implies jv_of_fields(s)[i] == (s[i].0@, jv_of(s[i].1)) by {
            if i < s.len() - 1 {
                assert(s.drop_last()[i] == s[i]);
                assert(jv_of_fields(s)[i] == jv_of_fields(s.drop_last())[i]);
            } else {
                assert(jv_of_fields(s)[i] == (s.last().0@, jv_of(s.last().1)));
            }
        }
    }
}

/// The view of an empty member list is empty.
pub proof fn lemma_jv_of_fields_empty()
    ensures
        jv_of_fields(Seq::<(String, JsonValue)>::empty()) == Seq::<(Seq<char>, Jv)>::empty(),
{
}

/// Appending one member appends its view.
pub proof fn lemma_jv_of_fields_push(s: Seq<(String, JsonValue)>, p: (String, JsonValue))
    ensures
        jv_of_fields(s.push(p)) == jv_of_fields(s).push((p.0@, jv_of(p.1))),
{
    assert(s.push(p).drop_last() =~= s);
    assert(s.push(p).last() == p);
}

// ---------------------------------------------------------------------------
// Cloning, with the clone's view provably equal to the original's.
// ---------------------------------------------------------------------------
fn clone_json(v: &JsonValue) -> (r: JsonValue)
    ensures
        r@ == v@,
    decreases *v,
{
    match v {
        JsonValue::Null => JsonValue::Null,
        JsonValue::Bool(b) => JsonValue::Bool(*b),
        JsonValue::Num(n) => JsonValue::Num(*n),
        JsonValue::Text(s) => JsonValue::Text(s.clone()),
        JsonValue::Arr(items) => {
            let w = clone_json_values(items);
            proof {
                lemma_jv_of_seq_index(w@);
                lemma_jv_of_seq_index(items@);
                assert forall|i: int|
                    0 <= i < items@.len() implies jv_of_seq(w@)[i] == jv_of_seq(items@)[i] by {
                    assert(w@[i]@ == items@[i]@);
                }
                assert(jv_of_seq(w@) =~= jv_of_seq(items@));
            }
            JsonValue::Arr(w)
        },
        JsonValue::Obj(fields) => {
            let w = clone_json_fields(fields);
            proof {
                lemma_jv_of_fields_index(w@);
                lemma_jv_of_fields_index(fields@);
                assert forall|i: int|
                    0 <= i < fields@.len() implies jv_of_fields(w@)[i] == jv_of_fields(fields@)[i] by {
                    assert(w@[i].0@ == fields@[i].0@ && w@[i].1@ == fields@[i].1@);
                }
                assert(jv_of_fields(w@) =~= jv_of_fields(fields@));
            }
            JsonValue::Obj(w)
        },
    }
}

fn clone_json_values(items: &Vec<JsonValue>) -> (r: Vec<JsonValue>)
    ensures
        r@.len() == items@.len(),
        forall|i: int| 0 <= i < items@.len() ==> r@[i]@ == (#[trigger] items@[i])@,
    decreases *items,
{
    let mut out: Vec<JsonValue> = Vec::new();
    let mut i: usize = 0;
    while i < items.len()
        invariant
            0 <= i <= items.len(),
            out@.len() == i,
            forall|j: int| 0 <= j < i ==> out@[j]@ == (#[trigger] items@[j])@,
        decreases items.len() - i,
    {
        out.push(clone_json(&items[i]));
        i = i + 1;
    }
    out
}

fn clone_json_fields(fields: &Vec<(String, JsonValue)>) -> (r: Vec<(String, JsonValue)>)
    ensures
        r@.len() == fields@.len(),
        forall|i: int|
            0 <= i < fields@.len() ==> r@[i].0@ == (#[trigger] fields@[i]).0@ && r@[i].1@
                == fields@[i].1@,
    decreases *fields,
{
    let mut out: Vec<(String, JsonValue)> = Vec::new();
    let mut i: usize = 0;
    while i < fields.len()
        invariant
            0 <= i <= fields.len(),
            out@.len() == i,
            forall|j: int|
                0 <= j < i ==> out@[j].0@ == (#[trigger] fields@[j]).0@ && out@[j].1@
                    == fields@[j].1@,
        decreases fields.len() - i,
    {
        let name = fields[i].0.clone();
        let value = clone_json(&fields[i].1);
        out.push((name, value));
        i = i + 1;
    }
    out
}

impl Clone for JsonValue {
    /// The clone denotes the same JSON document.
    fn clone(&self) -> (r: Self)
        ensures
            r@ == self@,
    {
        clone_json(self)
    }
}

// ---------------------------------------------------------------------------
// Object member lookup: the first member under a key.
// ---------------------------------------------------------------------------
pub open spec fn jv_get(fields: Seq<(Seq<char>, Jv)>, key: Seq<char>) -> Option<Jv>
    decreases fields.len(),
{
    if fields.len() == 0 {
        None
    } else if fields[0].0 == key {
        Some(fields[0].1)
    } else {
        jv_get(fields.skip(1), key)
    }
}

/// Members under keys other than the sought one do not affect lookup.
pub proof fn lemma_jv_get_skip_keys(
    s1: Seq<(Seq<char>, Jv)>,
    s2: Seq<(Seq<char>, Jv)>,
    key: Seq<char>,
)
    requires
        forall|i: int| 0 <= i < s1.len() ==> (#[trigger] s1[i]).0 != key,
    ensures
        jv_get(s1 + s2, key) == jv_get(s2, key),
    decreases s1.len(),
{
    if s1.len() == 0 {
        assert(s1 + s2 =~= s2);
    } else {
        assert((s1 + s2)[0] == s1[0]);
        assert((s1 + s2).skip(1) =~= s1.skip(1) + s2);
        lemma_jv_get_skip_keys(s1.skip(1), s2, key);
    }
}

/// Compares two strings character by character.
pub fn str_eq(a: &str, b: &str) -> (r: bool)
    ensures
        r == (a@ == b@),
{
    let la = a.unicode_len();
    let lb = b.unicode_len();
    if la != lb {
        return false;
    }
    let mut i: usize = 0;
    while i < la
        invariant
            0 <= i <= la,
            la == a@.len(),
            la == b@.len(),
            forall|j: int| 0 <= j < i ==> a@[j] == b@[j],
        decreases la - i,
    {
        if a.get_char(i) != b.get_char(i) {
            return false;
        }
        i = i + 1;
    }
    assert(a@ =~= b@);
    true
}

/// Finds the first member of an object under the given key.
pub fn obj_lookup<'a>(fields: &'a Vec<(String, JsonValue)>, key: &str) -> (r: Option<
    &'a JsonValue,
>)
    ensures
        r matches Some(v) ==> jv_get(jv_of_fields(fields@), key@) == Some(v@),
        r is None ==> jv_get(jv_of_fields(fields@), key@) is None,
{
    let ghost m = jv_of_fields(fields@);
    proof {
        lemma_jv_of_fields_index(fields@);
        assert(m.skip(0) =~= m);
    }
    let mut i: usize = 0;
    while i < fields.len()
        invariant
            0 <= i <= fields@.len(),
            m == jv_of_fields(fields@),
            m.len() == fields@.len(),
            forall|j: int| 0 <= j < m.len() ==> m[j] == ((#[trigger] fields@[j]).0@, jv_of(
                fields@[j].1,
            )),
            jv_get(m, key@) == jv_get(m.skip(i as int), key@),
        decreases fields@.len() - i,
    {
        if str_eq(fields[i].0.as_str(), key) {
            assert(m.skip(i as int)[0] == m[i as int]);
            return Some(&fields[i].1);
        }
        assert(m.skip(i as int)[0] == m[i as int]);
        assert(m.skip(i as int).skip(1) =~= m.skip(i + 1));
        i = i + 1;
    }
    assert(m.skip(i as int).len() == 0);
    None
}

} // verus!
