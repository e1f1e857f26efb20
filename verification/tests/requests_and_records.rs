//! The lazy request handles, the query builder, and record decoding,
//! driven end to end against canned responses by a test double transport
//! that counts its fetches.

use rs_misp::identifier::{GenericEventIdentifier, GenericOrganizationIdentifier};
use rs_misp::json::{obj_lookup, JsonValue};
use rs_misp::model::event::{Event, EventFull, EventFullEmbedded};
use rs_misp::model::distribution::{decode_distribution_json, Distribution};
use rs_misp::model::organization::OrganizationTemporary;
use rs_misp::model::server_info::ServerInfo;
use rs_misp::model::threat_level::ThreatLevel;
use rs_misp::requests::event::EventRequest;
use rs_misp::requests::event_list::EventListRequest;
use rs_misp::uid::{parse_uuid, Uuid};
use rs_misp::codec::{decode_u64_json, encode_u64};
use rs_misp::date::{decode_date_json, format_date, Date};
use rs_misp::MispError;

fn text(s: &str) -> JsonValue {
    JsonValue::Text(s.to_string())
}

fn pair(k: &str, v: JsonValue) -> (String, JsonValue) {
    (k.to_string(), v)
}

fn org_obj(id: &str, name: &str, uuid: &str) -> JsonValue {
    JsonValue::Obj(vec![
        pair("id", text(id)),
        pair("name", text(name)),
        pair("uuid", text(uuid)),
    ])
}

fn event_full_obj(id: &str, uuid: &str, info: &str) -> JsonValue {
    let mut fields = vec![
        pair("id", text(id)),
        pair("org_id", text("7")),
        pair("date", text("2020-03-15")),
        pair("info", text(info)),
        pair("uuid", text(uuid)),
        pair("published", JsonValue::Bool(true)),
        pair("analysis", text("2")),
        pair("attribute_count", text("0")),
        pair("orgc_id", text("8")),
        pair("timestamp", text("1585000000")),
        pair("distribution", text("1")),
        pair("sharing_group_id", text("0")),
        pair("proposal_email_lock", JsonValue::Bool(false)),
        pair("locked", JsonValue::Bool(false)),
        pair("threat_level_id", text("3")),
        pair("publish_timestamp", text("1585000001")),
        pair("disable_correlation", JsonValue::Bool(false)),
        pair("extends_uuid", text("")),
    ];
    fields.push(pair(
        "Org",
        org_obj("7", "CIRCL", "11111111-2222-3333-4444-555555555555"),
    ));
    fields.push(pair(
        "Orgc",
        org_obj("8", "OTHER", "11111111-2222-3333-4444-666666666666"),
    ));
    fields.push(pair("Attribute", JsonValue::Arr(vec![])));
    fields.push(pair("ShadowAttribute", JsonValue::Arr(vec![])));
    fields.push(pair("RelatedEvent", JsonValue::Arr(vec![])));
    fields.push(pair("Galaxy", JsonValue::Arr(vec![])));
    fields.push(pair("Object", JsonValue::Arr(vec![])));
    fields.push(pair("Tag", JsonValue::Arr(vec![])));
    JsonValue::Obj(fields)
}

fn event_envelope(id: &str, uuid: &str, info: &str) -> JsonValue {
    JsonValue::Obj(vec![pair("Event", event_full_obj(id, uuid, info))])
}

/// Drives a single-event handle the way the transport side does: answer
/// locally when possible, else fetch once through the canned transport.
fn drive_uuid(
    handle: &mut EventRequest,
    transport: &dyn Fn(&str) -> JsonValue,
    fetches: &mut usize,
) -> Uuid {
    if let Some(u) = handle.uuid_answer() {
        return u;
    }
    *fetches += 1;
    let response = transport(&handle.fetch_path());
    handle.ingest(&response).unwrap();
    handle.uuid_answer().unwrap()
}

// ---------------------------------------------------------------------------
// Single-event handles.
// ---------------------------------------------------------------------------
#[test]
fn global_handle_answers_uuid_with_zero_fetches() {
    let u = parse_uuid("abcd1234-0000-0000-0000-000000000001").unwrap();
    let mut handle = EventRequest::new(GenericEventIdentifier::from_global_id(u));
    let mut fetches: usize = 0;
    let transport = |_path: &str| -> JsonValue { panic!("no fetch may happen") };
    let got = drive_uuid(&mut handle, &transport, &mut fetches);
    assert_eq!(got, u);
    let again = drive_uuid(&mut handle, &transport, &mut fetches);
    assert_eq!(again, u);
    assert_eq!(fetches, 0);
}

#[test]
fn local_handle_fetches_once_and_caches() {
    let expected = parse_uuid("abcd1234-0000-0000-0000-000000000001").unwrap();
    let mut handle = EventRequest::new(GenericEventIdentifier::from_local_id(1188));
    let mut fetches: usize = 0;
    let transport = |path: &str| -> JsonValue {
        assert_eq!(path, "events/view/1188");
        event_envelope("1188", "abcd1234-0000-0000-0000-000000000001", "canned")
    };
    assert!(handle.needs_fetch());
    let got = drive_uuid(&mut handle, &transport, &mut fetches);
    assert_eq!(got, expected);
    assert_eq!(fetches, 1);
    // A second query and a full retrieval are served from the cache.
    let again = drive_uuid(&mut handle, &transport, &mut fetches);
    assert_eq!(again, expected);
    assert_eq!(fetches, 1);
    assert!(!handle.needs_fetch());
    let record = handle.cached_record().unwrap();
    assert_eq!(record.uuid(), expected);
    assert_eq!(record.id().0, 1188);
    assert_eq!(record.info(), "canned");
}

#[test]
fn global_handle_path_uses_hyphenated_uuid() {
    let u = parse_uuid("abcd1234-0000-0000-0000-000000000001").unwrap();
    let handle = EventRequest::new(GenericEventIdentifier::from_global_id(u));
    assert_eq!(
        handle.fetch_path(),
        "events/view/abcd1234-0000-0000-0000-000000000001"
    );
}

#[test]
fn failed_resolution_leaves_handle_retryable() {
    let mut handle = EventRequest::new(GenericEventIdentifier::from_local_id(5));
    // A response that is not the documented envelope shape.
    let r = handle.ingest(&JsonValue::Arr(vec![]));
    assert_eq!(r, Err(MispError::UnexpectedResponseShape));
    assert!(handle.needs_fetch());
    // An envelope whose event is malformed: the date is not a date.
    let mut broken = event_full_obj("5", "abcd1234-0000-0000-0000-000000000005", "x");
    if let JsonValue::Obj(ref mut fields) = broken {
        fields[2].1 = text("not-a-date");
    }
    let r = handle.ingest(&JsonValue::Obj(vec![pair("Event", broken)]));
    assert!(matches!(r, Err(MispError::MalformedValue { .. })));
    assert!(handle.needs_fetch());
    // The retry with a well-formed response succeeds.
    let r = handle.ingest(&event_envelope("5", "abcd1234-0000-0000-0000-000000000005", "x"));
    assert_eq!(r, Ok(()));
    assert!(!handle.needs_fetch());
}

#[test]
fn id_query_is_local_on_local_handles() {
    let handle = EventRequest::new(GenericEventIdentifier::from_local_id(42));
    assert_eq!(handle.id_answer().unwrap().0, 42);
    let u = parse_uuid("abcd1234-0000-0000-0000-000000000001").unwrap();
    let handle = EventRequest::new(GenericEventIdentifier::from_global_id(u));
    assert!(handle.id_answer().is_none());
}

// ---------------------------------------------------------------------------
// The query builder and the listing handle.
// ---------------------------------------------------------------------------
#[test]
fn unfiltered_listing_uses_plain_path_and_no_body() {
    let list = EventListRequest::new(None);
    assert_eq!(list.fetch_path(), "events");
    assert!(list.request_body().is_none());
}

#[test]
fn containing_info_filters_and_uses_search_path() {
    let list = EventListRequest::new(None).containing_info("COVID");
    assert_eq!(list.fetch_path(), "events/restSearch");
    let body = list.request_body().unwrap();
    let outer = match &body {
        JsonValue::Obj(fields) => fields,
        other => panic!("expected an object, got {:?}", other),
    };
    let request = match obj_lookup(outer, "request").unwrap() {
        JsonValue::Obj(fields) => fields,
        other => panic!("expected an object, got {:?}", other),
    };
    assert_eq!(obj_lookup(request, "returnFormat"), Some(&text("json")));
    assert_eq!(obj_lookup(request, "eventinfo"), Some(&text("%COVID%")));
    assert_eq!(obj_lookup(request, "org"), None);
    assert_eq!(obj_lookup(request, "from"), None);
    assert_eq!(obj_lookup(request, "to"), None);
    assert_eq!(obj_lookup(request, "limit"), None);
}

#[test]
fn exact_info_overwrites_substring_info() {
    let list = EventListRequest::new(None)
        .containing_info("COVID")
        .with_exact_info("CSSE COVID-19 daily report");
    let body = list.request_body().unwrap();
    let outer = match &body {
        JsonValue::Obj(fields) => fields,
        other => panic!("expected an object, got {:?}", other),
    };
    let request = match obj_lookup(outer, "request").unwrap() {
        JsonValue::Obj(fields) => fields,
        other => panic!("expected an object, got {:?}", other),
    };
    assert_eq!(
        obj_lookup(request, "eventinfo"),
        Some(&text("CSSE COVID-19 daily report"))
    );
}

#[test]
fn all_filters_serialize_in_wire_shape() {
    let list = EventListRequest::new(None)
        .from_organization(GenericOrganizationIdentifier::from_name("CIRCL"))
        .after(Date { year: 2020, month: 3, day: 8 })
        .before(Date { year: 2020, month: 3, day: 15 })
        .containing_info("daily report")
        .limit(25);
    let body = list.request_body().unwrap();
    let outer = match &body {
        JsonValue::Obj(fields) => fields,
        other => panic!("expected an object, got {:?}", other),
    };
    let request = match obj_lookup(outer, "request").unwrap() {
        JsonValue::Obj(fields) => fields,
        other => panic!("expected an object, got {:?}", other),
    };
    assert_eq!(obj_lookup(request, "returnFormat"), Some(&text("json")));
    assert_eq!(obj_lookup(request, "org"), Some(&text("CIRCL")));
    assert_eq!(obj_lookup(request, "from"), Some(&text("2020-03-08")));
    assert_eq!(obj_lookup(request, "to"), Some(&text("2020-03-15")));
    assert_eq!(obj_lookup(request, "eventinfo"), Some(&text("%daily report%")));
    assert_eq!(obj_lookup(request, "limit"), Some(&JsonValue::Num(25)));
}

#[test]
fn organization_filter_takes_any_identifier_form() {
    let by_id = EventListRequest::new(None)
        .from_organization(GenericOrganizationIdentifier::from_local_id(7));
    let body = by_id.request_body().unwrap();
    let outer = match &body {
        JsonValue::Obj(fields) => fields,
        other => panic!("expected an object, got {:?}", other),
    };
    let request = match obj_lookup(outer, "request").unwrap() {
        JsonValue::Obj(fields) => fields,
        other => panic!("expected an object, got {:?}", other),
    };
    assert_eq!(obj_lookup(request, "org"), Some(&text("7")));
}

#[test]
fn listing_unwraps_response_envelopes_and_caches() {
    let response = JsonValue::Obj(vec![pair(
        "response",
        JsonValue::Arr(vec![
            event_envelope("1", "abcd1234-0000-0000-0000-000000000001", "first"),
            event_envelope("2", "abcd1234-0000-0000-0000-000000000002", "second"),
        ]),
    )]);
    let mut list = EventListRequest::new(None);
    assert!(list.needs_fetch());
    list.ingest(&response).unwrap();
    assert!(!list.needs_fetch());
    let events = list.cached_events().unwrap();
    assert_eq!(events.len(), 2);
    assert_eq!(events[0].info(), "first");
    assert_eq!(events[1].info(), "second");
    assert_eq!(events[0].id().0, 1);
    // A second ingest has no effect: the cache is frozen once filled.
    let other = JsonValue::Obj(vec![pair("response", JsonValue::Arr(vec![]))]);
    list.ingest(&other).unwrap();
    assert_eq!(list.cached_events().unwrap().len(), 2);
}

#[test]
fn listing_rejects_unexpected_envelope_shapes() {
    let mut list = EventListRequest::new(None);
    assert_eq!(
        list.ingest(&JsonValue::Null),
        Err(MispError::UnexpectedResponseShape)
    );
    assert_eq!(
        list.ingest(&JsonValue::Obj(vec![pair("response", JsonValue::Null)])),
        Err(MispError::UnexpectedResponseShape)
    );
    assert!(list.needs_fetch());
}

// ---------------------------------------------------------------------------
// End-to-end scenarios.
// ---------------------------------------------------------------------------
#[test]
fn canned_event_scenario_fetches_exactly_once() {
    let mut handle = EventRequest::new(GenericEventIdentifier::from_local_id(1188));
    let mut fetches: usize = 0;
    let transport = |path: &str| -> JsonValue {
        assert_eq!(path, "events/view/1188");
        event_envelope("1188", "abcd1234-0000-0000-0000-000000000001", "canned")
    };
    let first = drive_uuid(&mut handle, &transport, &mut fetches);
    let second = drive_uuid(&mut handle, &transport, &mut fetches);
    assert_eq!(
        first,
        parse_uuid("abcd1234-0000-0000-0000-000000000001").unwrap()
    );
    assert_eq!(first, second);
    assert_eq!(fetches, 1);
}

#[test]
fn minimal_event_shaped_record_scenario() {
    let fields = vec![
        pair("id", text("42")),
        pair("date", text("2020-03-15")),
        pair("distribution", text("9")),
    ];
    let id = decode_u64_json(obj_lookup(&fields, "id").unwrap()).unwrap();
    let date = decode_date_json(obj_lookup(&fields, "date").unwrap()).unwrap();
    let distribution =
        decode_distribution_json(obj_lookup(&fields, "distribution").unwrap()).unwrap();
    assert_eq!(id, 42);
    assert_eq!(date, Date { year: 2020, month: 3, day: 15 });
    assert_eq!(distribution, Distribution::Unsupported(9));
    // Re-encoding reproduces the same three string values.
    assert_eq!(encode_u64(id), "42");
    assert_eq!(format_date(date), "2020-03-15");
    assert_eq!(
        rs_misp::model::distribution::encode_distribution_json(&distribution),
        text("9")
    );
}

// ---------------------------------------------------------------------------
// Record decoding.
// ---------------------------------------------------------------------------
#[test]
fn event_decode_reads_every_field() {
    let v = event_full_obj("1188", "abcd1234-0000-0000-0000-000000000001", "info text");
    let ev = Event::decode(&v).unwrap();
    assert_eq!(ev.id().0, 1188);
    assert_eq!(ev.organization_identifer().0, 7);
    assert_eq!(ev.date(), Date { year: 2020, month: 3, day: 15 });
    assert_eq!(ev.info(), "info text");
    assert_eq!(
        ev.uuid(),
        parse_uuid("abcd1234-0000-0000-0000-000000000001").unwrap()
    );
    assert!(ev.published());
    assert_eq!(ev.analysis(), 2);
    assert_eq!(ev.attribute_count(), 0);
    assert_eq!(ev.organization_creator_identifier().0, 8);
    assert_eq!(ev.timestamp().0, 1585000000);
    assert_eq!(ev.distribution(), Distribution::ThisCommunityOnly);
    assert_eq!(ev.sharing_group(), 0);
    assert!(!ev.proposal_email_lock());
    assert!(!ev.locked());
    assert_eq!(ev.threat_level(), ThreatLevel::Low);
    assert_eq!(ev.publish_timestamp().0, 1585000001);
    assert!(!ev.disable_correlation());
    assert_eq!(ev.extends(), "");
}

#[test]
fn event_decode_fails_atomically_on_missing_field() {
    let v = event_full_obj("1188", "abcd1234-0000-0000-0000-000000000001", "x");
    let mut fields = match v {
        JsonValue::Obj(fields) => fields,
        _ => unreachable!(),
    };
    fields.remove(6);  // drop the analysis field
    let r = Event::decode(&JsonValue::Obj(fields));
    assert!(matches!(r, Err(MispError::MalformedValue { .. })));
}

#[test]
fn full_event_forwards_summary_accessors() {
    let v = event_full_obj("3", "abcd1234-0000-0000-0000-000000000003", "full");
    let ev = EventFull::decode(&v).unwrap();
    assert_eq!(ev.id().0, 3);
    assert_eq!(ev.info(), "full");
    assert_eq!(ev.attributes().len(), 0);
    assert_eq!(ev.objects().len(), 0);
    let envelope = JsonValue::Obj(vec![pair(
        "Event",
        event_full_obj("3", "abcd1234-0000-0000-0000-000000000003", "full"),
    )]);
    let embedded = EventFullEmbedded::decode(&envelope).unwrap();
    assert_eq!(embedded.event.info(), "full");
}

#[test]
fn full_event_decodes_nested_objects_and_attributes() {
    let attribute = JsonValue::Obj(vec![
        pair("id", text("11")),
        pair("event_id", text("3")),
        pair("object_id", text("21")),
        pair("object_relation", text("country-region")),
        pair("category", text("Other")),
        pair("type", text("text")),
        pair("value", text("Luxembourg")),
        pair("to_ids", JsonValue::Bool(false)),
        pair("uuid", text("abcd1234-0000-0000-0000-00000000000a")),
        pair("timestamp", text("1585000002")),
        pair("distribution", text("5")),
        pair("sharing_group_id", text("0")),
        pair("comment", text("")),
        pair("deleted", JsonValue::Bool(false)),
        pair("disable_correlation", JsonValue::Bool(false)),
        pair("Galaxy", JsonValue::Arr(vec![])),
        pair("ShadowAttribute", JsonValue::Arr(vec![])),
        pair("first_seen", JsonValue::Null),
        pair("last_seen", text("1585000003")),
    ]);
    let object = JsonValue::Obj(vec![
        pair("id", text("21")),
        pair("name", text("covid19-csse-daily-report")),
        pair("meta-category", text("misc")),
        pair("description", text("report")),
        pair("template_uuid", text("t")),
        pair("template_version", text("4")),
        pair("event_id", text("3")),
        pair("uuid", text("abcd1234-0000-0000-0000-00000000000b")),
        pair("timestamp", text("1585000004")),
        pair("distribution", text("5")),
        pair("sharing_group_id", text("0")),
        pair("comment", text("")),
        pair("deleted", JsonValue::Bool(false)),
        pair("first_seen", JsonValue::Null),
        pair("last_seen", JsonValue::Null),
        pair("ObjectReference", JsonValue::Arr(vec![])),
        pair("Attribute", JsonValue::Arr(vec![attribute])),
    ]);
    let v = event_full_obj("3", "abcd1234-0000-0000-0000-000000000003", "nested");
    let mut fields = match v {
        JsonValue::Obj(fields) => fields,
        _ => unreachable!(),
    };
    for f in fields.iter_mut() {
        if f.0 == "Object" {
            f.1 = JsonValue::Arr(vec![object.clone()]);
        }
    }
    let ev = EventFull::decode(&JsonValue::Obj(fields)).unwrap();
    assert_eq!(ev.objects().len(), 1);
    let obj = &ev.objects()[0];
    assert_eq!(obj.name(), "covid19-csse-daily-report");
    let found = obj.attribute("country-region").unwrap();
    assert_eq!(found.value(), "Luxembourg");
    assert_eq!(found.kind(), "text");
    assert_eq!(found.first_seen(), None);
    assert_eq!(found.last_seen().unwrap().0, 1585000003);
    assert!(obj.attribute("death").is_none());
}

#[test]
fn event_encode_decode_round_trip() {
    let v = event_full_obj("1188", "abcd1234-0000-0000-0000-000000000001", "round trip");
    let ev = Event::decode(&v).unwrap();
    let encoded = ev.encode();
    let again = Event::decode(&encoded).unwrap();
    assert_eq!(again.id().0, ev.id().0);
    assert_eq!(again.organization_identifer().0, ev.organization_identifer().0);
    assert_eq!(again.date(), ev.date());
    assert_eq!(again.info(), ev.info());
    assert_eq!(again.uuid(), ev.uuid());
    assert_eq!(again.published(), ev.published());
    assert_eq!(again.analysis(), ev.analysis());
    assert_eq!(again.attribute_count(), ev.attribute_count());
    assert_eq!(again.timestamp(), ev.timestamp());
    assert_eq!(again.distribution(), ev.distribution());
    assert_eq!(again.threat_level(), ev.threat_level());
    assert_eq!(again.publish_timestamp(), ev.publish_timestamp());
    assert_eq!(again.extends(), ev.extends());
    // The encoded object holds the platform's string forms.
    let fields = match &encoded {
        JsonValue::Obj(fields) => fields,
        other => panic!("expected an object, got {:?}", other),
    };
    assert_eq!(obj_lookup(fields, "id"), Some(&text("1188")));
    assert_eq!(obj_lookup(fields, "date"), Some(&text("2020-03-15")));
    assert_eq!(obj_lookup(fields, "timestamp"), Some(&text("1585000000")));
    assert_eq!(
        obj_lookup(fields, "uuid"),
        Some(&text("abcd1234-0000-0000-0000-000000000001"))
    );
}

#[test]
fn organization_summary_decodes() {
    let v = org_obj("7", "CIRCL", "11111111-2222-3333-4444-555555555555");
    let org = OrganizationTemporary::decode(&v).unwrap();
    assert_eq!(org.id().0, 7);
    assert_eq!(org.name(), "CIRCL");
    assert_eq!(
        org.uuid(),
        parse_uuid("11111111-2222-3333-4444-555555555555").unwrap()
    );
}

#[test]
fn server_info_decodes() {
    let v = JsonValue::Obj(vec![
        pair("version", text("2.4.135")),
        pair("perm_sync", JsonValue::Bool(true)),
        pair("perm_sighting", JsonValue::Bool(false)),
    ]);
    let info = ServerInfo::decode(&v).unwrap();
    assert_eq!(info.version, "2.4.135");
    assert!(info.perm_sync());
    assert!(!info.perm_sighting());
    assert_eq!(ServerInfo::fetch_path(), "servers/getVersion.json");
    assert!(matches!(
        ServerInfo::decode(&JsonValue::Null),
        Err(MispError::MalformedValue { .. })
    ));
}

#[test]
fn repeated_object_keys_first_member_wins() {
    let fields = vec![
        pair("id", text("1")),
        pair("id", text("2")),
    ];
    assert_eq!(obj_lookup(&fields, "id"), Some(&text("1")));
    assert_eq!(decode_u64_json(obj_lookup(&fields, "id").unwrap()).unwrap(), 1);
    let empty: Vec<(String, JsonValue)> = vec![];
    assert_eq!(obj_lookup(&empty, "id"), None);
}

#[test]
fn identifier_wire_forms() {
    let u = parse_uuid("ABCD1234-0000-0000-0000-000000000001").unwrap();
    assert_eq!(
        GenericEventIdentifier::from_global_id(u).to_url_id(),
        "abcd1234-0000-0000-0000-000000000001"
    );
    assert_eq!(GenericEventIdentifier::from_local_id(1188).to_url_id(), "1188");
    assert_eq!(
        GenericOrganizationIdentifier::from_name("CIRCL").to_url_id(),
        "CIRCL"
    );
    assert_eq!(GenericOrganizationIdentifier::from_local_id(7).to_url_id(), "7");
    assert_eq!(
        GenericOrganizationIdentifier::from_global_id(u).to_url_id(),
        "abcd1234-0000-0000-0000-000000000001"
    );
}
