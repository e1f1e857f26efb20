//! The lazy request handle for a single event.
//!
//! The handle is an explicit state machine with two states: unresolved,
//! holding only the identifier it was built from, and cached, holding the
//! full record of one fetch. The transition is one-way: once a response has
//! been ingested, the cache is never replaced or dropped for the life of
//! the handle. Identity queries that the identifier itself can answer never
//! need a fetch; the others are answered from the cache once it is filled.
//!
//! The transport side drives the handle: while `needs_fetch()` holds it
//! performs one GET of `fetch_path()` and hands the parsed body to
//! `ingest`. A failed ingest leaves the handle unresolved, so a caller may
//! retry.
//!
//! The check-then-fetch-then-store sequence is guarded by ownership:
//! `ingest` takes the handle by exclusive reference, so no two resolutions
//! of one handle can race, and a resolution that finds the cache filled
//! changes nothing. Callers sharing one handle across tasks must wrap it
//! in their own mutual exclusion, as with any `&mut` state.

use vstd::prelude::*;

use crate::error::MispError;
use crate::identifier::{EventIdentifier, GenericEventIdentifier};
use crate::json::{jv_get, Jv, JsonValue};
use crate::model::event::{jv_dec_event_full, EventFull, EventFullV};
use crate::uid::Uuid;

verus! {

/// A lazily-resolved request for one event.
pub struct EventRequest {
    id: GenericEventIdentifier,
    cached_local: Option<EventFull>,
}

/// The mathematical state of a single-event handle.
#[verifier::ext_equal]
pub struct EventRequestV {
    pub id: GenericEventIdentifier,
    pub cached: Option<EventFullV>,
}

impl View for EventRequest {
    type V = EventRequestV;

    closed spec fn view(&self) -> EventRequestV {
        EventRequestV {
            id: self.id,
            cached: match self.cached_local {
                Some(ref ev) => Some(ev@),
                None => None,
            },
        }
    }
}

/// Whether a handle in this state still has to fetch before it can answer
/// every derived query.
pub open spec fn spec_needs_fetch(s: EventRequestV) -> bool {
    s.cached is None
}

/// What `uuid()` answers in this state without any further fetch: the
/// identifier's own UUID when the handle was built from a global id, else
/// the cached record's UUID once one fetch has been ingested.
pub open spec fn spec_uuid_answer(s: EventRequestV) -> Option<Uuid> {
    match s.id {
        GenericEventIdentifier::Global(u) => Some(u),
        GenericEventIdentifier::Local(_) => match s.cached {
            Some(ev) => Some(ev.event.uuid),
            None => None,
        },
    }
}

/// What `id()` answers in this state without any further fetch.
pub open spec fn spec_id_answer(s: EventRequestV) -> Option<EventIdentifier> {
    match s.id {
        GenericEventIdentifier::Local(id) => Some(id),
        GenericEventIdentifier::Global(_) => match s.cached {
            Some(ev) => Some(ev.event.id),
            None => None,
        },
    }
}

/// The single-event response envelope must be an object with an `"Event"`
/// member; anything else is an unexpected response shape.
pub open spec fn event_envelope_shape_ok(v: Jv) -> bool {
    v matches Jv::Obj(fs) && jv_get(fs, "Event"@) is Some
}

impl EventRequest {
    /// A fresh, unresolved handle for the addressed event.
    pub fn new(id: GenericEventIdentifier) -> (r: EventRequest)
        ensures
            r@.id == id,
            r@.cached is None,
    {
        EventRequest { id, cached_local: None }
    }

    /// Whether answering `retrieve()` still needs the one fetch.
    pub fn needs_fetch(&self) -> (r: bool)
        ensures
            r == spec_needs_fetch(self@),
    {
        match &self.cached_local {
            Some(_) => false,
            None => true,
        }
    }

    /// The canonical retrieval path of the addressed event, built from the
    /// identifier's wire form.
    pub fn fetch_path(&self) -> (r: String)
        ensures
            r@ == "events/view/"@ + self@.id.wire_form(),
    {
        let mut path = "events/view/".to_owned();
        let id_text = self.id.to_url_id();
        path.append(id_text.as_str());
        path
    }

    /// Feeds the parsed body of the one fetch into the handle.
    ///
    /// On a handle that is already cached this is a no-op: the transition
    /// to the cached state is irreversible. On an unresolved handle, a
    /// response in the documented envelope shape whose event decodes is
    /// cached; any failure leaves the handle unresolved, so that a later
    /// retry is permitted.
    pub fn ingest(&mut self, response: &JsonValue) -> (r: Result<(), MispError>)
        ensures
            old(self)@.cached is Some ==> final(self)@ == old(self)@ && r is Ok,
            old(self)@.cached is None && !event_envelope_shape_ok(response@) ==> final(self)@
                == old(self)@ && r == Err::<(), MispError>(MispError::UnexpectedResponseShape),
            old(self)@.cached is None && event_envelope_shape_ok(response@) ==> {
                let inner = (response@->Obj_0, jv_get(response@->Obj_0, "Event"@)->Some_0).1;
                match jv_dec_event_full(inner) {
                    Some(ev) => r is Ok && final(self)@ == EventRequestV {
                        id: old(self)@.id,
                        cached: Some(ev),
                    },
                    None => (r matches Err(e) && e is MalformedValue) && final(self)@ == old(
                        self,
                    )@,
                }
            },
    {
        if let Some(_) = &self.cached_local {
            return Ok(());
        }
        match response {
            JsonValue::Obj(fields) => {
                let inner = match crate::json::obj_lookup(fields, "Event") {
                    Some(w) => w,
                    None => {
                        return Err(MispError::UnexpectedResponseShape);
                    },
                };
                let event = EventFull::decode(inner)?;
                self.cached_local = Some(event);
                Ok(())
            },
            _ => Err(MispError::UnexpectedResponseShape),
        }
    }

    /// The record of the one fetch, once it has been ingested.
    pub fn cached_record(&self) -> (r: Option<&EventFull>)
        ensures
            r matches Some(ev) ==> self@.cached == Some(ev@),
            r is None ==> self@.cached is None,
    {
        match &self.cached_local {
            Some(ev) => Some(ev),
            None => None,
        }
    }

    /// The event's UUID, answered locally when possible: a handle built
    /// from a global identifier answers without any fetch; otherwise the
    /// cache answers once it is filled.
    pub fn uuid_answer(&self) -> (r: Option<Uuid>)
        ensures
            r == spec_uuid_answer(self@),
    {
        match &self.id {
            GenericEventIdentifier::Global(u) => Some(*u),
            GenericEventIdentifier::Local(_) => match &self.cached_local {
                Some(ev) => Some(ev.uuid()),
                None => None,
            },
        }
    }

    /// The event's local id, answered locally when possible.
    pub fn id_answer(&self) -> (r: Option<EventIdentifier>)
        ensures
            r == spec_id_answer(self@),
    {
        match &self.id {
            GenericEventIdentifier::Local(id) => Some(*id),
            GenericEventIdentifier::Global(_) => match &self.cached_local {
                Some(ev) => Some(ev.id()),
                None => None,
            },
        }
    }
}

/// A handle built from a global identifier answers its UUID immediately:
/// in every state, also the fresh unresolved one, the answer is there
/// before any fetch.
pub proof fn lemma_global_handle_uuid_without_fetch(s: EventRequestV, u: Uuid)
    requires
        s.id == GenericEventIdentifier::Global(u),
    ensures
        spec_uuid_answer(s) == Some(u),
{
}

/// Once a handle is cached it answers every identity query, and no state
/// it can reach still needs a fetch: the cached state is absorbing, so a
/// second query costs zero further fetches.
pub proof fn lemma_cached_handle_answers_everything(s: EventRequestV)
    requires
        s.cached is Some,
    ensures
        !spec_needs_fetch(s),
        spec_uuid_answer(s) is Some,
        spec_id_answer(s) is Some,
{
}

} // verus!
