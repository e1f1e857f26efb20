//! The scalar codec on concrete values: numbers-in-strings, epoch
//! timestamps, calendar dates, UUID texts, and the closed enumerations
//! with their fallback variants.

use rs_misp::codec::{
    decode_i64, decode_timestamp, decode_u16, decode_u64, encode_i64, encode_timestamp,
    encode_u64, Timestamp,
};
use rs_misp::date::{format_date, parse_date, Date};
use rs_misp::json::JsonValue;
use rs_misp::model::analysis::{decode_analysis_json, encode_analysis_json, Analysis};
use rs_misp::model::distribution::{
    decode_distribution_json, encode_distribution_json, Distribution,
};
use rs_misp::model::threat_level::{
    decode_threat_level_json, encode_threat_level_json, ThreatLevel,
};
use rs_misp::uid::{parse_uuid, Uuid};
use rs_misp::MispError;

fn text(s: &str) -> JsonValue {
    JsonValue::Text(s.to_string())
}

fn rendered(v: JsonValue) -> String {
    match v {
        JsonValue::Text(s) => s,
        other => panic!("expected a JSON string, got {:?}", other),
    }
}

// ---------------------------------------------------------------------------
// Number-in-string.
// ---------------------------------------------------------------------------
#[test]
fn number_round_trip_concrete() {
    for n in [0u64, 1, 9, 10, 1188, 65535, 65536, u64::MAX] {
        let s = encode_u64(n);
        assert_eq!(decode_u64(&s).unwrap(), n);
    }
    assert_eq!(encode_u64(0), "0");
    assert_eq!(encode_u64(1188), "1188");
    assert_eq!(encode_u64(u64::MAX), "18446744073709551615");
}

#[test]
fn number_decode_rejects_bad_text() {
    for bad in ["", "x", "12a", "+1", "-1", " 1", "18446744073709551616"] {
        match decode_u64(bad) {
            Err(MispError::MalformedValue { text, .. }) => assert_eq!(text, bad),
            other => panic!("expected MalformedValue for {:?}, got {:?}", bad, other),
        }
    }
    assert_eq!(decode_u64("007").unwrap(), 7);
}

#[test]
fn number_decode_rejects_wrong_width() {
    assert_eq!(decode_u16("65535").unwrap(), 65535);
    assert!(matches!(
        decode_u16("65536"),
        Err(MispError::MalformedValue { .. })
    ));
}

#[test]
fn number_decode_rejects_non_string_json() {
    assert!(matches!(
        rs_misp::codec::decode_u64_json(&JsonValue::Num(5)),
        Err(MispError::MalformedValue { .. })
    ));
    assert!(matches!(
        rs_misp::codec::decode_u64_json(&JsonValue::Null),
        Err(MispError::MalformedValue { .. })
    ));
    assert_eq!(rs_misp::codec::decode_u64_json(&text("42")).unwrap(), 42);
}

// ---------------------------------------------------------------------------
// Epoch timestamps.
// ---------------------------------------------------------------------------
#[test]
fn timestamp_round_trip_concrete() {
    for secs in [0i64, 1, -1, 1585000000, i64::MAX, i64::MIN] {
        let t = Timestamp(secs);
        let s = encode_timestamp(t);
        assert_eq!(decode_timestamp(&s).unwrap(), t);
    }
    assert_eq!(encode_i64(-5), "-5");
    assert_eq!(decode_i64("-9223372036854775808").unwrap(), i64::MIN);
    assert_eq!(decode_i64("9223372036854775807").unwrap(), i64::MAX);
    assert!(matches!(
        decode_i64("9223372036854775808"),
        Err(MispError::MalformedValue { .. })
    ));
    assert!(matches!(decode_i64("-"), Err(MispError::MalformedValue { .. })));
}

// ---------------------------------------------------------------------------
// Calendar dates.
// ---------------------------------------------------------------------------
#[test]
fn date_round_trip_concrete() {
    let d = Date { year: 2020, month: 3, day: 15 };
    assert_eq!(format_date(d), "2020-03-15");
    assert_eq!(parse_date("2020-03-15").unwrap(), d);
    assert_eq!(
        parse_date("0001-01-01").unwrap(),
        Date { year: 1, month: 1, day: 1 }
    );
    assert_eq!(format_date(Date { year: 1, month: 1, day: 1 }), "0001-01-01");
}

#[test]
fn date_decode_observes_the_calendar() {
    assert_eq!(
        parse_date("2020-02-29").unwrap(),
        Date { year: 2020, month: 2, day: 29 }
    );
    for bad in [
        "2019-02-29",
        "1900-02-29",
        "2020-04-31",
        "2020-00-10",
        "2020-13-01",
        "2020-01-00",
        "2020-1-01",
        "20-01-01",
        "2020/01/01",
        "2020-01-015",
        "",
    ] {
        match parse_date(bad) {
            Err(MispError::MalformedValue { text, .. }) => assert_eq!(text, bad),
            other => panic!("expected MalformedValue for {:?}, got {:?}", bad, other),
        }
    }
    assert_eq!(
        parse_date("2000-02-29").unwrap(),
        Date { year: 2000, month: 2, day: 29 }
    );
}

// ---------------------------------------------------------------------------
// UUID texts.
// ---------------------------------------------------------------------------
#[test]
fn uuid_text_round_trip_concrete() {
    let s = "abcd1234-0000-0000-0000-000000000001";
    let u = parse_uuid(s).unwrap();
    assert_eq!(u.to_hyphenated_lower(), s);
    let upper = parse_uuid("ABCD1234-0000-0000-0000-000000000001").unwrap();
    assert_eq!(upper, u);
    assert_eq!(
        parse_uuid("00000000-0000-0000-0000-000000000000").unwrap(),
        Uuid(0)
    );
    assert_eq!(
        parse_uuid("ffffffff-ffff-ffff-ffff-ffffffffffff").unwrap(),
        Uuid(u128::MAX)
    );
    for bad in [
        "",
        "abcd1234-0000-0000-0000-00000000001",
        "abcd1234-0000-0000-0000-0000000000012",
        "abcd1234000000000000000000000000001x",
        "abcd1234-0000-0000-0000-00000000000g",
    ] {
        assert!(matches!(parse_uuid(bad), Err(MispError::MalformedValue { .. })));
    }
}

// ---------------------------------------------------------------------------
// Analysis codes.
// ---------------------------------------------------------------------------
#[test]
fn json_to_analysis() {
    assert_eq!(Analysis::Initial, decode_analysis_json(&text("0")).unwrap());
    assert_eq!(Analysis::Ongoing, decode_analysis_json(&text("1")).unwrap());
    assert_eq!(Analysis::Complete, decode_analysis_json(&text("2")).unwrap());
    assert_eq!(Analysis::Custom(666), decode_analysis_json(&text("666")).unwrap());
}

#[test]
fn analysis_to_json() {
    assert_eq!("0", rendered(encode_analysis_json(&Analysis::Initial)));
    assert_eq!("1", rendered(encode_analysis_json(&Analysis::Ongoing)));
    assert_eq!("2", rendered(encode_analysis_json(&Analysis::Complete)));
    assert_eq!("666", rendered(encode_analysis_json(&Analysis::Custom(666))));
}

// ---------------------------------------------------------------------------
// Distribution codes.
// ---------------------------------------------------------------------------
#[test]
fn value_to_distribution() {
    assert_eq!(
        Distribution::YourOrganizationOnly,
        decode_distribution_json(&text("0")).unwrap()
    );
    assert_eq!(
        Distribution::ThisCommunityOnly,
        decode_distribution_json(&text("1")).unwrap()
    );
    assert_eq!(
        Distribution::ConnectedCommunities,
        decode_distribution_json(&text("2")).unwrap()
    );
    assert_eq!(
        Distribution::AllCommunities,
        decode_distribution_json(&text("3")).unwrap()
    );
    assert_eq!(
        Distribution::SharingGroup,
        decode_distribution_json(&text("4")).unwrap()
    );
}

#[test]
fn distribution_to_value() {
    assert_eq!(
        "0",
        rendered(encode_distribution_json(&Distribution::YourOrganizationOnly))
    );
    assert_eq!(
        "1",
        rendered(encode_distribution_json(&Distribution::ThisCommunityOnly))
    );
    assert_eq!(
        "2",
        rendered(encode_distribution_json(&Distribution::ConnectedCommunities))
    );
    assert_eq!(
        "3",
        rendered(encode_distribution_json(&Distribution::AllCommunities))
    );
    assert_eq!(
        "4",
        rendered(encode_distribution_json(&Distribution::SharingGroup))
    );
}

#[test]
fn distribution_value_to_thread_level() {
    assert_eq!(
        Distribution::YourOrganizationOnly,
        decode_distribution_json(&text("0")).unwrap()
    );
    assert_eq!(
        Distribution::ThisCommunityOnly,
        decode_distribution_json(&text("1")).unwrap()
    );
    assert_eq!(
        Distribution::ConnectedCommunities,
        decode_distribution_json(&text("2")).unwrap()
    );
    assert_eq!(
        Distribution::AllCommunities,
        decode_distribution_json(&text("3")).unwrap()
    );
    assert_eq!(
        Distribution::SharingGroup,
        decode_distribution_json(&text("4")).unwrap()
    );
}

#[test]
fn distribution_thread_level_to_value() {
    assert_eq!(
        "0",
        rendered(encode_distribution_json(&Distribution::YourOrganizationOnly))
    );
    assert_eq!(
        "1",
        rendered(encode_distribution_json(&Distribution::ThisCommunityOnly))
    );
    assert_eq!(
        "2",
        rendered(encode_distribution_json(&Distribution::ConnectedCommunities))
    );
    assert_eq!(
        "3",
        rendered(encode_distribution_json(&Distribution::AllCommunities))
    );
    assert_eq!(
        "4",
        rendered(encode_distribution_json(&Distribution::SharingGroup))
    );
}

#[test]
fn distribution_fallback_preserves_unknown_codes() {
    assert_eq!(
        Distribution::Unsupported(9),
        decode_distribution_json(&text("9")).unwrap()
    );
    assert_eq!(
        "9",
        rendered(encode_distribution_json(&Distribution::Unsupported(9)))
    );
    assert!(matches!(
        decode_distribution_json(&text("5x")),
        Err(MispError::MalformedValue { .. })
    ));
}

// ---------------------------------------------------------------------------
// Threat level codes.
// ---------------------------------------------------------------------------
#[test]
fn json_to_thread_level() {
    assert_eq!(ThreatLevel::High, decode_threat_level_json(&text("1")).unwrap());
    assert_eq!(ThreatLevel::Medium, decode_threat_level_json(&text("2")).unwrap());
    assert_eq!(ThreatLevel::Low, decode_threat_level_json(&text("3")).unwrap());
    assert_eq!(ThreatLevel::Undefined, decode_threat_level_json(&text("4")).unwrap());
    assert_eq!(
        ThreatLevel::Custom(666),
        decode_threat_level_json(&text("666")).unwrap()
    );
}

#[test]
fn thread_level_to_json() {
    assert_eq!("1", rendered(encode_threat_level_json(&ThreatLevel::High)));
    assert_eq!("2", rendered(encode_threat_level_json(&ThreatLevel::Medium)));
    assert_eq!("3", rendered(encode_threat_level_json(&ThreatLevel::Low)));
    assert_eq!("4", rendered(encode_threat_level_json(&ThreatLevel::Undefined)));
    assert_eq!("666", rendered(encode_threat_level_json(&ThreatLevel::Custom(666))));
}

#[test]
fn threat_level_value_to_thread_level() {
    assert_eq!(ThreatLevel::High, decode_threat_level_json(&text("1")).unwrap());
    assert_eq!(ThreatLevel::Medium, decode_threat_level_json(&text("2")).unwrap());
    assert_eq!(ThreatLevel::Low, decode_threat_level_json(&text("3")).unwrap());
    assert_eq!(ThreatLevel::Undefined, decode_threat_level_json(&text("4")).unwrap());
    assert_eq!(
        ThreatLevel::Custom(666),
        decode_threat_level_json(&text("666")).unwrap()
    );
}

#[test]
fn threat_level_thread_level_to_value() {
    assert_eq!("1", rendered(encode_threat_level_json(&ThreatLevel::High)));
    assert_eq!("2", rendered(encode_threat_level_json(&ThreatLevel::Medium)));
    assert_eq!("3", rendered(encode_threat_level_json(&ThreatLevel::Low)));
    assert_eq!("4", rendered(encode_threat_level_json(&ThreatLevel::Undefined)));
    assert_eq!("666", rendered(encode_threat_level_json(&ThreatLevel::Custom(666))));
}

#[test]
fn from_code_conversions() {
    assert_eq!(Analysis::from(2u16), Analysis::Complete);
    assert_eq!(Analysis::from(7u16), Analysis::Custom(7));
    assert_eq!(Analysis::Custom(7).code(), 7);
    assert_eq!(Distribution::from(4u16), Distribution::SharingGroup);
    assert_eq!(Distribution::from(9u16).code(), 9);
    assert_eq!(ThreatLevel::from(1u64), ThreatLevel::High);
    assert_eq!(ThreatLevel::from(666u64), ThreatLevel::Custom(666));
    assert_eq!(ThreatLevel::Custom(666).code(), 666);
}
