//! The lazy request handle for event listings, and the search query
//! builder.
//!
//! The builder is a chainable filter accumulator: it allocates its inner
//! payload on the first filter applied, and reapplying a filter replaces
//! the previous value. A handle with no filters triggers the plain listing
//! path with no request body; one with any filter triggers the search path
//! with the serialized query as its body. The one fetched response is
//! cached; filters changed after the first resolution have no observable
//! effect on this handle — the cache is frozen once filled.

use vstd::prelude::*;

use crate::date::{date_to_text, Date};
use crate::error::MispError;
use crate::identifier::{GenericOrganizationIdentifier, GenericOrganizationIdentifierV};
use crate::json::{
    jv_get, jv_of_fields, jv_of_seq, lemma_jv_get_skip_keys, lemma_jv_of_fields_empty,
    lemma_jv_of_fields_push, obj_lookup, Jv, JsonValue,
};
use crate::model::event::{
    event_full_views, jv_dec_event_full_embedded, EventFull, EventFullEmbedded, EventFullV,
};

verus! {

// ---------------------------------------------------------------------------
// The search query payload.
// ---------------------------------------------------------------------------
/// The inner filter record of a search request. Fields left unset are
/// omitted from the wire form entirely, never emitted as null.
#[derive(Debug, Clone)]
pub struct SearchQuery {
    return_format: String,
    organization: Option<GenericOrganizationIdentifier>,
    after: Option<Date>,
    before: Option<Date>,
    info: Option<String>,
    limit: Option<u64>,
}

/// The mathematical shape of the filter record.
#[verifier::ext_equal]
pub struct SearchQueryV {
    pub return_format: Seq<char>,
    pub organization: Option<GenericOrganizationIdentifierV>,
    pub after: Option<Date>,
    pub before: Option<Date>,
    pub info: Option<Seq<char>>,
    pub limit: Option<u64>,
}

impl View for SearchQuery {
    type V = SearchQueryV;

    closed spec fn view(&self) -> SearchQueryV {
        SearchQueryV {
            return_format: self.return_format@,
            organization: match self.organization {
                Some(ref o) => Some(o@),
                None => None,
            },
            after: self.after,
            before: self.before,
            info: match self.info {
                Some(ref s) => Some(s@),
                None => None,
            },
            limit: self.limit,
        }
    }
}

/// A fresh filter record: JSON return format, nothing else set.
pub open spec fn spec_new_query() -> SearchQueryV {
    SearchQueryV {
        return_format: "json"@,
        organization: None,
        after: None,
        before: None,
        info: None,
        limit: None,
    }
}

impl SearchQuery {
    pub fn new() -> (r: Self)
        ensures
            r@ == spec_new_query(),
    {
        SearchQuery {
            return_format: "json".to_owned(),
            organization: None,
            after: None,
            before: None,
            info: None,
            limit: None,
        }
    }
}

/// The members of the serialized filter record, in wire order, with unset
/// fields omitted.
pub open spec fn spec_wire_fields(q: SearchQueryV) -> Seq<(Seq<char>, Jv)> {
    seq![("returnFormat"@, Jv::Text(q.return_format))] + (match q.organization {
        Some(o) => seq![("org"@, Jv::Text(o.wire_form()))],
        None => Seq::empty(),
    }) + (match q.after {
        Some(d) => seq![("from"@, Jv::Text(date_to_text(d)))],
        None => Seq::empty(),
    }) + (match q.before {
        Some(d) => seq![("to"@, Jv::Text(date_to_text(d)))],
        None => Seq::empty(),
    }) + (match q.info {
        Some(s) => seq![("eventinfo"@, Jv::Text(s))],
        None => Seq::empty(),
    }) + (match q.limit {
        Some(l) => seq![("limit"@, Jv::Num(l))],
        None => Seq::empty(),
    })
}

/// The serialized filter record.
pub open spec fn spec_wire_query(q: SearchQueryV) -> Jv {
    Jv::Obj(spec_wire_fields(q))
}

impl SearchQuery {
    /// Serializes the filter record to its wire shape. A date bound renders
    /// as a plain date string, the result limit as a JSON number, and every
    /// unset field is left out.
    pub fn to_wire_json(&self) -> (r: JsonValue)
        requires
            self@.after matches Some(d) ==> d.valid(),
            self@.before matches Some(d) ==> d.valid(),
        ensures
            r@ == spec_wire_query(self@),
    {
        let mut fields: Vec<(String, JsonValue)> = Vec::new();
        let ghost q = self@;
        let ghost seg0 = seq![("returnFormat"@, Jv::Text(q.return_format))];
        let ghost seg1 = match q.organization {
            Some(o) => seq![("org"@, Jv::Text(o.wire_form()))],
            None => Seq::<(Seq<char>, Jv)>::empty(),
        };
        let ghost seg2 = match q.after {
            Some(d) => seq![("from"@, Jv::Text(date_to_text(d)))],
            None => Seq::<(Seq<char>, Jv)>::empty(),
        };
        let ghost seg3 = match q.before {
            Some(d) => seq![("to"@, Jv::Text(date_to_text(d)))],
            None => Seq::<(Seq<char>, Jv)>::empty(),
        };
        let ghost seg4 = match q.info {
            Some(s) => seq![("eventinfo"@, Jv::Text(s))],
            None => Seq::<(Seq<char>, Jv)>::empty(),
        };
        let ghost seg5 = match q.limit {
            Some(l) => seq![("limit"@, Jv::Num(l))],
            None => Seq::<(Seq<char>, Jv)>::empty(),
        };
        let ghost empty_fields = fields@;
        fields.push(("returnFormat".to_owned(), JsonValue::Text(self.return_format.clone())));
        proof {
            lemma_jv_of_fields_empty();
            lemma_jv_of_fields_push(empty_fields, fields@.last());
            assert(fields@ =~= empty_fields.push(fields@.last()));
            assert(jv_of_fields(fields@) =~= seg0);
        }
        let ghost done1 = seg0;
        match &self.organization {
            Some(o) => {
                let ghost before = fields@;
                fields.push(("org".to_owned(), JsonValue::Text(o.to_url_id())));
                proof {
                    lemma_jv_of_fields_push(before, fields@.last());
                    assert(fields@ =~= before.push(fields@.last()));
                    assert(jv_of_fields(fields@) =~= done1 + seg1);
                }
            },
            None => {
                proof {
                    assert(jv_of_fields(fields@) =~= done1 + seg1);
                }
            },
        }
        let ghost done2 = done1 + seg1;
        match &self.after {
            Some(d) => {
                let ghost before = fields@;
                fields.push(("from".to_owned(), JsonValue::Text(crate::date::format_date(*d))));
                proof {
                    lemma_jv_of_fields_push(before, fields@.last());
                    assert(fields@ =~= before.push(fields@.last()));
                    assert(jv_of_fields(fields@) =~= done2 + seg2);
                }
            },
            None => {
                proof {
                    assert(jv_of_fields(fields@) =~= done2 + seg2);
                }
            },
        }
        let ghost done3 = done2 + seg2;
        match &self.before {
            Some(d) => {
                let ghost before = fields@;
                fields.push(("to".to_owned(), JsonValue::Text(crate::date::format_date(*d))));
                proof {
                    lemma_jv_of_fields_push(before, fields@.last());
                    assert(fields@ =~= before.push(fields@.last()));
                    assert(jv_of_fields(fields@) =~= done3 + seg3);
                }
            },
            None => {
                proof {
                    assert(jv_of_fields(fields@) =~= done3 + seg3);
                }
            },
        }
        let ghost done4 = done3 + seg3;
        match &self.info {
            Some(s) => {
                let ghost before = fields@;
                fields.push(("eventinfo".to_owned(), JsonValue::Text(s.clone())));
                proof {
                    lemma_jv_of_fields_push(before, fields@.last());
                    assert(fields@ =~= before.push(fields@.last()));
                    assert(jv_of_fields(fields@) =~= done4 + seg4);
                }
            },
            None => {
                proof {
                    assert(jv_of_fields(fields@) =~= done4 + seg4);
                }
            },
        }
        let ghost done5 = done4 + seg4;
        match &self.limit {
            Some(l) => {
                let ghost before = fields@;
                fields.push(("limit".to_owned(), JsonValue::Num(*l)));
                proof {
                    lemma_jv_of_fields_push(before, fields@.last());
                    assert(fields@ =~= before.push(fields@.last()));
                    assert(jv_of_fields(fields@) =~= done5 + seg5);
                }
            },
            None => {
                proof {
                    assert(jv_of_fields(fields@) =~= done5 + seg5);
                }
            },
        }
        proof {
            assert(jv_of_fields(fields@) =~= spec_wire_fields(q));
        }
        JsonValue::Obj(fields)
    }
}

/// The wrapper the search path expects around the filter record.
#[derive(Debug, Clone)]
pub struct EmbeddedSearchQuery {
    pub request: SearchQuery,
}

/// The mathematical shape of the search request body.
#[verifier::ext_equal]
pub struct EmbeddedSearchQueryV {
    pub request: SearchQueryV,
}

impl View for EmbeddedSearchQuery {
    type V = EmbeddedSearchQueryV;

    open spec fn view(&self) -> EmbeddedSearchQueryV {
        EmbeddedSearchQueryV { request: self.request@ }
    }
}

/// The serialized search request body: the filter record under the one
/// member `"request"`.
pub open spec fn spec_wire_body(q: EmbeddedSearchQueryV) -> Jv {
    Jv::Obj(seq![("request"@, spec_wire_query(q.request))])
}

impl EmbeddedSearchQuery {
    /// Serializes the search request body.
    pub fn to_wire_json(&self) -> (r: JsonValue)
        requires
            self@.request.after matches Some(d) ==> d.valid(),
            self@.request.before matches Some(d) ==> d.valid(),
        ensures
            r@ == spec_wire_body(self@),
    {
        let inner = self.request.to_wire_json();
        let mut fields: Vec<(String, JsonValue)> = Vec::new();
        let ghost empty_fields = fields@;
        fields.push(("request".to_owned(), inner));
        proof {
            lemma_jv_of_fields_empty();
            lemma_jv_of_fields_push(empty_fields, fields@.last());
            assert(fields@ =~= empty_fields.push(fields@.last()));
            assert(jv_of_fields(fields@) =~= seq![("request"@, spec_wire_query(self@.request))]);
        }
        JsonValue::Obj(fields)
    }
}

// ---------------------------------------------------------------------------
// The listing response envelope.
// ---------------------------------------------------------------------------
/// What decoding a JSON array of single-event envelopes yields: every
/// element must decode, else the whole array fails.
pub open spec fn jv_dec_envelope_seq(items: Seq<Jv>) -> Option<Seq<EventFullV>>
    decreases items.len(),
{
    if items.len() == 0 {
        Some(Seq::empty())
    } else {
        match jv_dec_envelope_seq(items.drop_last()) {
            Some(p) => match jv_dec_event_full_embedded(items.last()) {
                Some(x) => Some(p.push(x)),
                None => None,
            },
            None => None,
        }
    }
}

/// A failing prefix makes the whole array fail.
proof fn lemma_envelope_seq_none(items: Seq<Jv>, i: int)
    requires
        0 <= i <= items.len(),
        jv_dec_envelope_seq(items.take(i)) is None,
    ensures
        jv_dec_envelope_seq(items) is None,
    decreases items.len() - i,
{
    if i < items.len() {
        assert(items.take(i + 1).drop_last() =~= items.take(i));
        lemma_envelope_seq_none(items, i + 1);
    } else {
        assert(items.take(i) =~= items);
    }
}

/// The listing response must be an object whose `"response"` member is an
/// array; anything else is an unexpected response shape.
pub open spec fn list_envelope_shape_ok(v: Jv) -> bool {
    v matches Jv::Obj(fs) && jv_get(fs, "response"@) matches Some(Jv::Arr(items))
}

/// What decoding the listing response yields: the enveloped events, in
/// order, unwrapped to a plain sequence of full records.
pub open spec fn jv_dec_event_list(v: Jv) -> Option<Seq<EventFullV>> {
    match v {
        Jv::Obj(fs) => match jv_get(fs, "response"@) {
            Some(Jv::Arr(items)) => jv_dec_envelope_seq(items),
            _ => None,
        },
        _ => None,
    }
}

/// Decodes a JSON array of single-event envelopes, atomically.
fn decode_envelope_vec(items: &Vec<JsonValue>) -> (r: Result<Vec<EventFull>, MispError>)
    ensures
        jv_dec_envelope_seq(jv_of_seq(items@)) matches Some(s) ==> (r matches Ok(v)
            && event_full_views(v@) == s),
        jv_dec_envelope_seq(jv_of_seq(items@)) is None ==> (r matches Err(e)
            && e is MalformedValue),
{
    let ghost m = jv_of_seq(items@);
    proof {
        crate::json::lemma_jv_of_seq_index(items@);
        assert(m.take(0) =~= Seq::<Jv>::empty());
    }
    let mut out: Vec<EventFull> = Vec::new();
    let mut i: usize = 0;
    while i < items.len()
        invariant
            0 <= i <= items@.len(),
            m == jv_of_seq(items@),
            m.len() == items@.len(),
            forall|j: int| 0 <= j < m.len() ==> m[j] == (#[trigger] items@[j])@,
            jv_dec_envelope_seq(m.take(i as int)) matches Some(p) && p == event_full_views(out@),
        decreases items@.len() - i,
    {
        match EventFullEmbedded::decode(&items[i]) {
            Ok(envelope) => {
                let ghost prev = out@;
                let ghost ev = envelope@;
                out.push(envelope.event);
                proof {
                    assert(m.take(i + 1).drop_last() =~= m.take(i as int));
                    assert(m.take(i + 1).last() == m[i as int]);
                    assert(event_full_views(prev.push(envelope.event)) =~= event_full_views(
                        prev,
                    ).push(ev));
                }
                i = i + 1;
            },
            Err(e) => {
                proof {
                    assert(m.take(i + 1).drop_last() =~= m.take(i as int));
                    assert(m.take(i + 1).last() == m[i as int]);
                    assert(jv_dec_envelope_seq(m.take(i + 1)) is None);
                    lemma_envelope_seq_none(m, i + 1);
                }
                return Err(e);
            },
        }
    }
    assert(m.take(items@.len() as int) =~= m);
    Ok(out)
}

// ---------------------------------------------------------------------------
// The listing handle.
// ---------------------------------------------------------------------------
/// A lazily-resolved request for a listing of events.
pub struct EventListRequest {
    search_query: Option<EmbeddedSearchQuery>,
    cached_local: Option<Vec<EventFull>>,
}

/// The mathematical state of a listing handle.
#[verifier::ext_equal]
pub struct EventListRequestV {
    pub query: Option<EmbeddedSearchQueryV>,
    pub cached: Option<Seq<EventFullV>>,
}

impl View for EventListRequest {
    type V = EventListRequestV;

    closed spec fn view(&self) -> EventListRequestV {
        EventListRequestV {
            query: match self.search_query {
                Some(ref q) => Some(q@),
                None => None,
            },
            cached: match self.cached_local {
                Some(ref evs) => Some(event_full_views(evs@)),
                None => None,
            },
        }
    }
}

/// The filter record the next applied filter will start from: the one
/// already accumulated, or a fresh one allocated on first use.
pub open spec fn spec_query_base(s: EventListRequestV) -> SearchQueryV {
    match s.query {
        Some(eq) => eq.request,
        None => spec_new_query(),
    }
}

/// The listing path this state triggers: the plain listing when no filter
/// was ever applied, the search path once any filter was.
pub open spec fn spec_list_fetch_path(s: EventListRequestV) -> Seq<char> {
    if s.query is Some {
        "events/restSearch"@
    } else {
        "events"@
    }
}

/// Whether answering `retrieve()` still needs the one fetch.
pub open spec fn spec_list_needs_fetch(s: EventListRequestV) -> bool {
    s.cached is None
}

impl EventListRequest {
    /// A fresh, unresolved listing handle, optionally starting from an
    /// already-built search query.
    pub fn new(search_query: Option<EmbeddedSearchQuery>) -> (r: EventListRequest)
        ensures
            r@.cached is None,
            search_query matches Some(q) ==> r@.query == Some(q@),
            search_query is None ==> r@.query is None,
    {
        EventListRequest { search_query, cached_local: None }
    }

    /// Whether answering `retrieve()` still needs the one fetch.
    pub fn needs_fetch(&self) -> (r: bool)
        ensures
            r == spec_list_needs_fetch(self@),
    {
        match &self.cached_local {
            Some(_) => false,
            None => true,
        }
    }

    /// The path this handle's one fetch goes to.
    pub fn fetch_path(&self) -> (r: String)
        ensures
            r@ == spec_list_fetch_path(self@),
    {
        match &self.search_query {
            Some(_) => "events/restSearch".to_owned(),
            None => "events".to_owned(),
        }
    }

    /// The serialized request body of the one fetch: none for the plain
    /// listing, the serialized search query for the filtered search.
    pub fn request_body(&self) -> (r: Option<JsonValue>)
        requires
            spec_query_base(self@).after matches Some(d) ==> d.valid(),
            spec_query_base(self@).before matches Some(d) ==> d.valid(),
        ensures
            self@.query matches Some(q) ==> (r matches Some(b) && b@ == spec_wire_body(q)),
            self@.query is None ==> r is None,
    {
        match &self.search_query {
            Some(q) => Some(q.to_wire_json()),
            None => None,
        }
    }

    /// Feeds the parsed body of the one fetch into the handle.
    ///
    /// On a handle that is already cached this is a no-op: the cache is
    /// frozen once filled. On an unresolved handle, a response in the
    /// documented envelope shape whose events all decode is cached; any
    /// failure leaves the handle unresolved, so that a later retry is
    /// permitted.
    pub fn ingest(&mut self, response: &JsonValue) -> (r: Result<(), MispError>)
        ensures
            old(self)@.cached is Some ==> final(self)@ == old(self)@ && r is Ok,
            old(self)@.cached is None && !list_envelope_shape_ok(response@) ==> final(self)@ == old(
                self,
            )@ && r == Err::<(), MispError>(MispError::UnexpectedResponseShape),
            old(self)@.cached is None && list_envelope_shape_ok(response@) ==> match jv_dec_event_list(
                response@,
            ) {
                Some(evs) => r is Ok && final(self)@ == EventListRequestV {
                    query: old(self)@.query,
                    cached: Some(evs),
                },
                None => (r matches Err(e) && e is MalformedValue) && final(self)@ == old(self)@,
            },
    {
        if let Some(_) = &self.cached_local {
            return Ok(());
        }
        match response {
            JsonValue::Obj(fields) => {
                let items = match obj_lookup(fields, "response") {
                    Some(JsonValue::Arr(items)) => items,
                    Some(_) => {
                        return Err(MispError::UnexpectedResponseShape);
                    },
                    None => {
                        return Err(MispError::UnexpectedResponseShape);
                    },
                };
                let events = decode_envelope_vec(items)?;
                self.cached_local = Some(events);
                Ok(())
            },
            _ => Err(MispError::UnexpectedResponseShape),
        }
    }

    /// The records of the one fetch, once it has been ingested.
    pub fn cached_events(&self) -> (r: Option<&Vec<EventFull>>)
        ensures
            r matches Some(evs) ==> self@.cached == Some(event_full_views(evs@)),
            r is None ==> self@.cached is None,
    {
        match &self.cached_local {
            Some(evs) => Some(evs),
            None => None,
        }
    }

    /// Filters the events on the organization currently owning them.
    /// Reapplying replaces the previous value.
    pub fn from_organization(self, organization: GenericOrganizationIdentifier) -> (r: Self)
        ensures
            r@.cached == self@.cached,
            r@.query matches Some(eq) && eq.request == (SearchQueryV {
                organization: Some(organization@),
                ..spec_query_base(self@)
            }),
    {
        let mut eq = match self.search_query {
            Some(eq) => eq,
            None => EmbeddedSearchQuery { request: SearchQuery::new() },
        };
        eq.request.organization = Some(organization);
        EventListRequest { search_query: Some(eq), cached_local: self.cached_local }
    }

    /// Filters events whose info contains the given text: the text is
    /// wrapped in wildcard markers for substring search. Writes the same
    /// field as `with_exact_info`; the last writer wins.
    pub fn containing_info(self, search: &str) -> (r: Self)
        ensures
            r@.cached == self@.cached,
            r@.query matches Some(eq) && eq.request == (SearchQueryV {
                info: Some("%"@ + search@ + "%"@),
                ..spec_query_base(self@)
            }),
    {
        let mut text = "%".to_owned();
        text.append(search);
        text.append("%");
        assert(text@ =~= "%"@ + search@ + "%"@);
        let mut eq = match self.search_query {
            Some(eq) => eq,
            None => EmbeddedSearchQuery { request: SearchQuery::new() },
        };
        eq.request.info = Some(text);
        EventListRequest { search_query: Some(eq), cached_local: self.cached_local }
    }

    /// Filters events whose info is exactly the given text. Writes the
    /// same field as `containing_info`; the last writer wins.
    pub fn with_exact_info(self, search: &str) -> (r: Self)
        ensures
            r@.cached == self@.cached,
            r@.query matches Some(eq) && eq.request == (SearchQueryV {
                info: Some(search@),
                ..spec_query_base(self@)
            }),
    {
        let mut eq = match self.search_query {
            Some(eq) => eq,
            None => EmbeddedSearchQuery { request: SearchQuery::new() },
        };
        eq.request.info = Some(search.to_owned());
        EventListRequest { search_query: Some(eq), cached_local: self.cached_local }
    }

    /// Filters events that happened after the given date.
    pub fn after(self, date: Date) -> (r: Self)
        ensures
            r@.cached == self@.cached,
            r@.query matches Some(eq) && eq.request == (SearchQueryV {
                after: Some(date),
                ..spec_query_base(self@)
            }),
    {
        let mut eq = match self.search_query {
            Some(eq) => eq,
            None => EmbeddedSearchQuery { request: SearchQuery::new() },
        };
        eq.request.after = Some(date);
        EventListRequest { search_query: Some(eq), cached_local: self.cached_local }
    }

    /// Filters events that happened before the given date.
    pub fn before(self, date: Date) -> (r: Self)
        ensures
            r@.cached == self@.cached,
            r@.query matches Some(eq) && eq.request == (SearchQueryV {
                before: Some(date),
                ..spec_query_base(self@)
            }),
    {
        let mut eq = match self.search_query {
            Some(eq) => eq,
            None => EmbeddedSearchQuery { request: SearchQuery::new() },
        };
        eq.request.before = Some(date);
        EventListRequest { search_query: Some(eq), cached_local: self.cached_local }
    }

    /// Limits the number of results.
    pub fn limit(self, limit: u64) -> (r: Self)
        ensures
            r@.cached == self@.cached,
            r@.query matches Some(eq) && eq.request == (SearchQueryV {
                limit: Some(limit),
                ..spec_query_base(self@)
            }),
    {
        let mut eq = match self.search_query {
            Some(eq) => eq,
            None => EmbeddedSearchQuery { request: SearchQuery::new() },
        };
        eq.request.limit = Some(limit);
        EventListRequest { search_query: Some(eq), cached_local: self.cached_local }
    }
}

// ---------------------------------------------------------------------------
// Laws of the builder's wire form.
// ---------------------------------------------------------------------------
/// Once a listing handle is cached it never fetches again, whatever
/// happened to its filters meanwhile: the cached state is absorbing, and
/// every builder operation's contract keeps the cache unchanged.
pub proof fn lemma_cached_listing_is_frozen(s: EventListRequestV)
    requires
        s.cached is Some,
    ensures
        !spec_list_needs_fetch(s),
{
}

/// A handle with no filters triggers the plain listing path with no body;
/// a handle with any filter triggers the filtered search path.
pub proof fn lemma_listing_paths(s: EventListRequestV)
    ensures
        s.query is None ==> spec_list_fetch_path(s) == "events"@,
        s.query is Some ==> spec_list_fetch_path(s) == "events/restSearch"@,
{
}

/// Whenever the info filter is set — as `containing_info` sets it, wrapped
/// in wildcard markers — the serialized filter record carries exactly that
/// value under the `eventinfo` key.
pub proof fn lemma_wire_info_field(q: SearchQueryV)
    requires
        q.info is Some,
    ensures
        jv_get(spec_wire_fields(q), "eventinfo"@) == Some(Jv::Text(q.info->Some_0)),
{
    reveal_strlit("returnFormat");
    reveal_strlit("org");
    reveal_strlit("from");
    reveal_strlit("to");
    reveal_strlit("eventinfo");
    let seg0 = seq![("returnFormat"@, Jv::Text(q.return_format))];
    let seg1 = match q.organization {
        Some(o) => seq![("org"@, Jv::Text(o.wire_form()))],
        None => Seq::<(Seq<char>, Jv)>::empty(),
    };
    let seg2 = match q.after {
        Some(d) => seq![("from"@, Jv::Text(date_to_text(d)))],
        None => Seq::<(Seq<char>, Jv)>::empty(),
    };
    let seg3 = match q.before {
        Some(d) => seq![("to"@, Jv::Text(date_to_text(d)))],
        None => Seq::<(Seq<char>, Jv)>::empty(),
    };
    let seg4 = seq![("eventinfo"@, Jv::Text(q.info->Some_0))];
    let seg5 = match q.limit {
        Some(l) => seq![("limit"@, Jv::Num(l))],
        None => Seq::<(Seq<char>, Jv)>::empty(),
    };
    let pre = seg0 + seg1 + seg2 + seg3;
    assert(spec_wire_fields(q) =~= pre + (seg4 + seg5));
    assert forall|i: int| 0 <= i < pre.len() implies (#[trigger] pre[i]).0 != "eventinfo"@ by {
        assert("returnFormat"@.len() == 12);
        assert("org"@.len() == 3);
        assert("from"@.len() == 4);
        assert("to"@.len() == 2);
        assert("eventinfo"@.len() == 9);
    }
    lemma_jv_get_skip_keys(pre, seg4 + seg5, "eventinfo"@);
    assert((seg4 + seg5)[0] == seg4[0]);
    assert(jv_get(seg4 + seg5, "eventinfo"@) == Some(Jv::Text(q.info->Some_0)));
}

} // verus!
