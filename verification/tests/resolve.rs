//! Collection resolution, identifier lookup and account identity on
//! concrete response bodies.

use orphy::mail::{
    collection_path, envelope_key, Config, Letter, MailClient, MailType, ScanOutcome,
};

fn client() -> MailClient {
    MailClient::new("k".to_string())
}

#[test]
fn letters_envelope_yields_one_item() {
    // Envelope `{"letters":[{"id":"a1","title":"Hi"}]}` with the Letter
    // kind yields exactly one record with only those two attributes.
    let c = client();
    let body = "{\"letters\":[{\"id\":\"a1\",\"title\":\"Hi\"}]}";
    let items = c.mail_from_body(body, Some(MailType::Letter)).unwrap().unwrap();
    assert_eq!(items.len(), 1);
    assert_eq!(items[0].id, Some("a1".to_string()));
    assert_eq!(items[0].title, Some("Hi".to_string()));
    assert_eq!(items[0].letter_type, None);
    assert_eq!(items[0].status, None);
    assert_eq!(items[0].tags, None);
    assert_eq!(items[0].events, None);
    assert_eq!(items[0].path, None);
    assert_eq!(items[0].created_at, None);
}

#[test]
fn empty_collection_is_not_absence() {
    let c = client();
    let r = c.mail_from_body("{\"mail\":[]}", None).unwrap();
    assert_eq!(r, Some(vec![]));
}

#[test]
fn missing_envelope_key_is_absence() {
    let c = client();
    let r = c.mail_from_body("{\"oops\":true}", None).unwrap();
    assert_eq!(r, None);
}

#[test]
fn non_array_envelope_value_is_absence() {
    let c = client();
    let r = c.mail_from_body("{\"mail\":{\"id\":\"a\"}}", None).unwrap();
    assert_eq!(r, None);
}

#[test]
fn non_json_body_is_absence() {
    let c = client();
    assert_eq!(c.mail_from_body("<html>server error</html>", None).unwrap(), None);
}

#[test]
fn list_reads_only_its_own_envelope_key() {
    // Other collections in the same response are ignored.
    let c = client();
    let body = "{\"mail\":[{\"id\":\"m1\"}],\"packages\":[{\"id\":\"p1\"}],\"letters\":[{\"id\":\"a1\"}]}";
    let items = c.mail_from_body(body, Some(MailType::Letter)).unwrap().unwrap();
    assert_eq!(items.len(), 1);
    assert_eq!(items[0].id, Some("a1".to_string()));
    let items = c.mail_from_body(body, None).unwrap().unwrap();
    assert_eq!(items.len(), 1);
    assert_eq!(items[0].id, Some("m1".to_string()));
}

#[test]
fn attribute_free_elements_are_discarded() {
    let c = client();
    let body = "{\"mail\":[{\"nope\":1},{\"id\":\"a\"},{},{\"id\":\"b\"}]}";
    let items = c.mail_from_body(body, None).unwrap().unwrap();
    assert_eq!(items.len(), 2);
    assert_eq!(items[0].id, Some("a".to_string()));
    assert_eq!(items[1].id, Some("b".to_string()));
}

#[test]
fn collection_and_envelope_names_per_kind() {
    assert_eq!(collection_path(None), "mail");
    assert_eq!(collection_path(Some(MailType::Letter)), "letters");
    assert_eq!(collection_path(Some(MailType::Package)), "packages");
    assert_eq!(collection_path(Some(MailType::Legacy)), "lsv");
    assert_eq!(envelope_key(None), "mail");
    assert_eq!(envelope_key(Some(MailType::Letter)), "letters");
    assert_eq!(envelope_key(Some(MailType::Package)), "packages");
    assert_eq!(envelope_key(Some(MailType::Legacy)), "legacy_shipment_viewer_records");
}

#[test]
fn scan_without_match_is_not_found() {
    let c = client();
    let body = "{\"mail\":[{\"id\":\"a\"},{\"id\":\"b\"}]}";
    let items = c.mail_from_body(body, None).unwrap().unwrap();
    assert_eq!(orphy::mail::find_by_id(&items, "zz"), ScanOutcome::NotFound);
}

#[test]
fn scan_match_without_path_is_distinct() {
    let c = client();
    let body = "{\"mail\":[{\"id\":\"a\"},{\"id\":\"b\"}]}";
    let items = c.mail_from_body(body, None).unwrap().unwrap();
    assert_eq!(orphy::mail::find_by_id(&items, "b"), ScanOutcome::FoundWithoutPath);
}

#[test]
fn scan_first_match_decides() {
    let c = client();
    let body = "{\"mail\":[{\"id\":\"a\"},{\"id\":\"a\",\"path\":\"/p\"}]}";
    let items = c.mail_from_body(body, None).unwrap().unwrap();
    // The first matching record has no path; a later one is not consulted.
    assert_eq!(orphy::mail::find_by_id(&items, "a"), ScanOutcome::FoundWithoutPath);
}

#[test]
fn detail_reads_first_object_key_in_priority_order() {
    let c = client();
    let l = c
        .detail_from_body("{\"letter\":{\"id\":\"l\"},\"package\":{\"id\":\"p\"}}")
        .unwrap()
        .unwrap();
    assert_eq!(l.id, Some("l".to_string()));
    // A key holding a non-object is passed over even though it exists.
    let l = c
        .detail_from_body("{\"letter\":\"oops\",\"package\":{\"id\":\"p\"}}")
        .unwrap()
        .unwrap();
    assert_eq!(l.id, Some("p".to_string()));
    let l = c
        .detail_from_body(
            "{\"letter\":7,\"package\":[],\"legacy_shipment_viewer_record\":{\"id\":\"z\"}}",
        )
        .unwrap()
        .unwrap();
    assert_eq!(l.id, Some("z".to_string()));
}

#[test]
fn detail_without_object_key_is_absence() {
    let c = client();
    assert_eq!(c.detail_from_body("{\"letter\":\"oops\"}").unwrap(), None);
    assert_eq!(c.detail_from_body("{}").unwrap(), None);
    assert_eq!(c.detail_from_body("not json").unwrap(), None);
}

#[test]
fn get_by_identifier_scenario() {
    // Summary listing carries "x1" with a retrieval path; the detail
    // response under its path yields the full record.
    let c = client();
    let summary = "{\"mail\":[{\"id\":\"x1\",\"path\":\"/api/public/v1/letters/x1\"}]}";
    let items = c.mail_from_body(summary, None).unwrap().unwrap();
    let path = match orphy::mail::find_by_id(&items, "x1") {
        ScanOutcome::Found(p) => p,
        other => panic!("expected a path, got {:?}", other),
    };
    assert_eq!(path, "/api/public/v1/letters/x1");
    let url = c.detail_url(&path);
    assert_eq!(url, "https://mail.hackclub.com//api/public/v1/letters/x1");
    let detail = "{\"letter\":{\"id\":\"x1\",\"status\":\"delivered\"}}";
    let l = c.detail_from_body(detail).unwrap().unwrap();
    assert_eq!(l.id, Some("x1".to_string()));
    assert_eq!(l.status, Some("delivered".to_string()));
    assert_eq!(l.title, None);
    assert_eq!(l.path, None);
}

#[test]
fn urls_keep_the_double_slash_layout() {
    let c = client();
    assert_eq!(c.me_url(), "https://mail.hackclub.com//api/public/v1//me");
    assert_eq!(c.collection_url(None), "https://mail.hackclub.com//api/public/v1//mail");
    assert_eq!(
        c.collection_url(Some(MailType::Legacy)),
        "https://mail.hackclub.com//api/public/v1//lsv"
    );
}

#[test]
fn user_id_is_the_serialized_node() {
    let c = client();
    assert_eq!(c.user_id_from_body("{\"user\":{\"id\":\"abc\"}}"), Some("\"abc\"".to_string()));
    assert_eq!(c.user_id_from_body("{\"user\":{\"id\":7}}"), Some("7".to_string()));
    assert_eq!(c.user_id_from_body("{\"user\":{}}"), Some("null".to_string()));
    assert_eq!(c.user_id_from_body("{}"), Some("null".to_string()));
    assert_eq!(c.user_id_from_body("not json"), None);
}

#[test]
fn malformed_timestamp_in_listing_is_an_error() {
    let c = client();
    let body = "{\"mail\":[{\"id\":\"a\",\"created_at\":\"nope\"}]}";
    assert_eq!(c.mail_from_body(body, None), Err(orphy::mail::NormalizeError::MalformedTimestamp));
}

#[test]
fn defaults() {
    let cfg = Config::default();
    assert_eq!(cfg.api_key, "");
    let c = MailClient::default();
    assert_eq!(c.auth_token, "");
    assert_eq!(c.base, "https://mail.hackclub.com");
    assert_eq!(c.api_path, "/api/public/v1/");
    let built = MailClient::new("secret".to_string());
    assert_eq!(built.auth_token, "secret");
    assert_eq!(built.base, c.base);
    assert_eq!(built.api_path, c.api_path);
    let l = Letter::default();
    assert_eq!(l, Letter {
        id: None,
        title: None,
        letter_type: None,
        letter_subtype: None,
        tracking_number: None,
        tracking_link: None,
        public_url: None,
        status: None,
        tags: None,
        created_at: None,
        updated_at: None,
        events: None,
        path: None,
    });
}
