//! Normalizer behaviour on concrete fragments.

use orphy::json::Json;
use orphy::mail::{MailClient, NormalizeError};

fn client() -> MailClient {
    MailClient::new("k".to_string())
}

fn obj(fields: Vec<(&str, Json)>) -> Json {
    Json::Obj(fields.into_iter().map(|(k, v)| (k.to_string(), v)).collect())
}

fn s(text: &str) -> Json {
    Json::Str(text.to_string())
}

#[test]
fn absent_when_no_recognized_key() {
    let c = client();
    let j = obj(vec![("unrelated", s("x")), ("answer", Json::Num("42".to_string()))]);
    assert_eq!(c.letter_from_data(&j), Ok(None));
}

#[test]
fn absent_on_non_object_fragment() {
    let c = client();
    assert_eq!(c.letter_from_data(&s("just text")), Ok(None));
    assert_eq!(c.letter_from_data(&Json::Null), Ok(None));
    assert_eq!(c.letter_from_data(&Json::Arr(vec![])), Ok(None));
}

#[test]
fn single_attribute_sets_only_that_attribute() {
    let c = client();
    let j = obj(vec![("title", s("Hi"))]);
    let l = c.letter_from_data(&j).unwrap().unwrap();
    assert_eq!(l.title, Some("Hi".to_string()));
    assert_eq!(l.id, None);
    assert_eq!(l.letter_type, None);
    assert_eq!(l.letter_subtype, None);
    assert_eq!(l.tracking_number, None);
    assert_eq!(l.tracking_link, None);
    assert_eq!(l.public_url, None);
    assert_eq!(l.status, None);
    assert_eq!(l.tags, None);
    assert_eq!(l.created_at, None);
    assert_eq!(l.updated_at, None);
    assert_eq!(l.events, None);
    assert_eq!(l.path, None);
}

#[test]
fn normalize_twice_yields_equal_results() {
    let c = client();
    let j = obj(vec![
        ("id", s("a1")),
        ("title", s("Hi")),
        ("tags", Json::Arr(vec![s("one"), Json::Num("2".to_string())])),
    ]);
    let first = c.letter_from_data(&j);
    let second = c.letter_from_data(&j);
    assert_eq!(first, second);
}

#[test]
fn mismatched_shapes_count_as_absent() {
    let c = client();
    // A recognized key of the wrong shape is absence, never an error.
    let j = obj(vec![("title", Json::Num("7".to_string())), ("tags", s("not-an-array")), (
        "id",
        s("a1"),
    )]);
    let l = c.letter_from_data(&j).unwrap().unwrap();
    assert_eq!(l.id, Some("a1".to_string()));
    assert_eq!(l.title, None);
    assert_eq!(l.tags, None);
}

#[test]
fn timestamp_is_parsed_to_epoch_milliseconds() {
    let c = client();
    let j = obj(vec![("created_at", s("2024-01-02T03:04:05Z"))]);
    let l = c.letter_from_data(&j).unwrap().unwrap();
    assert_eq!(l.created_at, Some(1_704_164_645_000));
    assert_eq!(l.updated_at, None);
}

#[test]
fn fractional_and_offset_timestamps() {
    let c = client();
    let j = obj(vec![
        ("created_at", s("2024-01-02T03:04:05.500Z")),
        ("updated_at", s("2024-01-02T04:04:05+01:00")),
    ]);
    let l = c.letter_from_data(&j).unwrap().unwrap();
    assert_eq!(l.created_at, Some(1_704_164_645_500));
    assert_eq!(l.updated_at, Some(1_704_164_645_000));
}

#[test]
fn malformed_timestamp_is_a_hard_error() {
    let c = client();
    let j = obj(vec![("title", s("Hi")), ("created_at", s("yesterday-ish"))]);
    assert_eq!(c.letter_from_data(&j), Err(NormalizeError::MalformedTimestamp));
    let j2 = obj(vec![("updated_at", s("2024-13-40T99:99:99Z"))]);
    assert_eq!(c.letter_from_data(&j2), Err(NormalizeError::MalformedTimestamp));
}

#[test]
fn malformed_event_timestamp_is_a_hard_error() {
    let c = client();
    let j = obj(vec![("events", Json::Arr(vec![obj(vec![("happened_at", s("bad"))])]))]);
    assert_eq!(c.letter_from_data(&j), Err(NormalizeError::MalformedTimestamp));
}

#[test]
fn empty_event_is_still_an_event() {
    let c = client();
    // Unlike top-level records, an all-empty event is kept.
    let j = obj(vec![("events", Json::Arr(vec![obj(vec![])]))]);
    let l = c.letter_from_data(&j).unwrap().unwrap();
    let events = l.events.unwrap();
    assert_eq!(events.len(), 1);
    assert_eq!(events[0].happened_at, None);
    assert_eq!(events[0].source, None);
    assert_eq!(events[0].facility, None);
    assert_eq!(events[0].description, None);
    assert_eq!(events[0].location, None);
}

#[test]
fn event_fields_are_extracted() {
    let c = client();
    let ev = obj(vec![
        ("happened_at", s("1970-01-01T00:00:01Z")),
        ("source", s("src")),
        ("facility", s("fac")),
        ("description", s("desc")),
        ("location", s("loc")),
    ]);
    let j = obj(vec![("events", Json::Arr(vec![ev]))]);
    let l = c.letter_from_data(&j).unwrap().unwrap();
    let events = l.events.unwrap();
    assert_eq!(events.len(), 1);
    assert_eq!(events[0].happened_at, Some(1000));
    assert_eq!(events[0].source, Some("src".to_string()));
    assert_eq!(events[0].facility, Some("fac".to_string()));
    assert_eq!(events[0].description, Some("desc".to_string()));
    assert_eq!(events[0].location, Some("loc".to_string()));
}

#[test]
fn tags_keep_order_and_duplicates_as_serialized_text() {
    let c = client();
    let j = obj(vec![("tags", Json::Arr(vec![
        s("a"),
        Json::Num("1".to_string()),
        Json::Bool(true),
        Json::Null,
        s("a"),
        obj(vec![("x", Json::Num("1".to_string()))]),
        Json::Arr(vec![Json::Num("2".to_string())]),
    ]))]);
    let l = c.letter_from_data(&j).unwrap().unwrap();
    assert_eq!(
        l.tags,
        Some(vec![
            "\"a\"".to_string(),
            "1".to_string(),
            "true".to_string(),
            "null".to_string(),
            "\"a\"".to_string(),
            "{\"x\":1}".to_string(),
            "[2]".to_string(),
        ])
    );
}

#[test]
fn every_string_attribute_is_extracted() {
    let c = client();
    let j = obj(vec![
        ("id", s("a1")),
        ("title", s("t")),
        ("type", s("letter")),
        ("subtype", s("postcard")),
        ("tracking_number", s("TN1")),
        ("tracking_link", s("http://t")),
        ("public_url", s("http://p")),
        ("status", s("sent")),
        ("path", s("/api/public/v1/letters/a1")),
    ]);
    let l = c.letter_from_data(&j).unwrap().unwrap();
    assert_eq!(l.id, Some("a1".to_string()));
    assert_eq!(l.title, Some("t".to_string()));
    assert_eq!(l.letter_type, Some("letter".to_string()));
    assert_eq!(l.letter_subtype, Some("postcard".to_string()));
    assert_eq!(l.tracking_number, Some("TN1".to_string()));
    assert_eq!(l.tracking_link, Some("http://t".to_string()));
    assert_eq!(l.public_url, Some("http://p".to_string()));
    assert_eq!(l.status, Some("sent".to_string()));
    assert_eq!(l.path, Some("/api/public/v1/letters/a1".to_string()));
}

#[test]
fn duplicate_keys_first_binding_wins() {
    let c = client();
    let j = Json::Obj(vec![
        ("title".to_string(), s("first")),
        ("title".to_string(), s("second")),
    ]);
    let l = c.letter_from_data(&j).unwrap().unwrap();
    assert_eq!(l.title, Some("first".to_string()));
}
