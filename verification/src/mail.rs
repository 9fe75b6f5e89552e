//! The unified mail entity and the logic that builds it from upstream
//! responses.
//!
//! Every endpoint returns loosely-typed JSON, so every attribute of a
//! record is optional.  A record is considered to exist only when at
//! least one recognized attribute was present in the source fragment;
//! an all-empty fragment is absence, not a zero-value record.

use vstd::prelude::*;
use vstd::seq_lib::assert_seqs_equal;
use crate::json::{
    Json, obj_get, str_field, arr_field, text_of, get_field, get_str_field, get_arr_field, render,
};
use crate::timestamp::{parsed_timestamp, parse_timestamp};
use crate::decode::{parse_json, parsed_json};
use crate::strutil::str_eq;

verus! {

/// Category of a mail record: an ordinary letter, a package, or a
/// record from the legacy shipment viewer.
#[derive(Clone, Copy, PartialEq, Eq, Structural, Debug)]
pub enum MailType {
    Legacy,
    Letter,
    Package,
}

/// Persisted client configuration: the service credential.
pub struct Config {
    pub api_key: String,
}

impl Default for Config {
    /// An unconfigured client: the credential is empty, and every
    /// operation must be refused until one is stored.
    fn default() -> (c: Self)
        ensures
            c.api_key@ == Seq::<char>::empty(),
    {
        Config { api_key: String::new() }
    }
}

/// A single tracked occurrence associated with a mail record.  Unlike
/// top-level records, an event is kept even when every field is absent.
#[derive(Debug, PartialEq)]
pub struct Event {
    pub happened_at: Option<i64>,
    pub source: Option<String>,
    pub facility: Option<String>,
    pub description: Option<String>,
    pub location: Option<String>,
}

/// The mathematical value of an [`Event`]: each string as a character
/// sequence, the timestamp as milliseconds since the Unix epoch.
#[verifier::ext_equal]
pub struct EventView {
    pub happened_at: Option<i64>,
    pub source: Option<Seq<char>>,
    pub facility: Option<Seq<char>>,
    pub description: Option<Seq<char>>,
    pub location: Option<Seq<char>>,
}

impl DeepView for Event {
    type V = EventView;

    open spec fn deep_view(&self) -> EventView {
        EventView {
            happened_at: self.happened_at,
            source: self.source.deep_view(),
            facility: self.facility.deep_view(),
            description: self.description.deep_view(),
            location: self.location.deep_view(),
        }
    }
}

impl Default for Event {
    /// An event with every field absent.
    fn default() -> (e: Self)
        ensures
            e.happened_at is None,
            e.source is None,
            e.facility is None,
            e.description is None,
            e.location is None,
    {
        Event { happened_at: None, source: None, facility: None, description: None, location: None }
    }
}

/// The unified entity for any letter, package, or legacy record.  No
/// endpoint guarantees any field, so every attribute is optional.
#[derive(Debug, PartialEq)]
pub struct Letter {
    pub id: Option<String>,
    pub title: Option<String>,
    pub letter_type: Option<String>,
    pub letter_subtype: Option<String>,
    pub tracking_number: Option<String>,
    pub tracking_link: Option<String>,
    pub public_url: Option<String>,
    pub status: Option<String>,
    pub tags: Option<Vec<String>>,
    pub created_at: Option<i64>,
    pub updated_at: Option<i64>,
    pub events: Option<Vec<Event>>,
    pub path: Option<String>,
}

/// The mathematical value of a [`Letter`].
#[verifier::ext_equal]
pub struct LetterView {
    pub id: Option<Seq<char>>,
    pub title: Option<Seq<char>>,
    pub letter_type: Option<Seq<char>>,
    pub letter_subtype: Option<Seq<char>>,
    pub tracking_number: Option<Seq<char>>,
    pub tracking_link: Option<Seq<char>>,
    pub public_url: Option<Seq<char>>,
    pub status: Option<Seq<char>>,
    pub tags: Option<Seq<Seq<char>>>,
    pub created_at: Option<i64>,
    pub updated_at: Option<i64>,
    pub events: Option<Seq<EventView>>,
    pub path: Option<Seq<char>>,
}

impl DeepView for Letter {
    type V = LetterView;

    open spec fn deep_view(&self) -> LetterView {
        LetterView {
            id: self.id.deep_view(),
            title: self.title.deep_view(),
            letter_type: self.letter_type.deep_view(),
            letter_subtype: self.letter_subtype.deep_view(),
            tracking_number: self.tracking_number.deep_view(),
            tracking_link: self.tracking_link.deep_view(),
            public_url: self.public_url.deep_view(),
            status: self.status.deep_view(),
            tags: self.tags.deep_view(),
            created_at: self.created_at,
            updated_at: self.updated_at,
            events: self.events.deep_view(),
            path: self.path.deep_view(),
        }
    }
}

impl Default for Letter {
    /// A record with every attribute absent.
    fn default() -> (l: Self)
        ensures
            l.id is None,
            l.title is None,
            l.letter_type is None,
            l.letter_subtype is None,
            l.tracking_number is None,
            l.tracking_link is None,
            l.public_url is None,
            l.status is None,
            l.tags is None,
            l.created_at is None,
            l.updated_at is None,
            l.events is None,
            l.path is None,
    {
        Letter {
            id: None,
            title: None,
            letter_type: None,
            letter_subtype: None,
            tracking_number: None,
            tracking_link: None,
            public_url: None,
            status: None,
            tags: None,
            created_at: None,
            updated_at: None,
            events: None,
            path: None,
        }
    }
}

/// Why normalization failed.  Every attribute degrades to absence on a
/// shape mismatch; a timestamp string that does not parse is the one
/// hard error.
#[derive(Clone, Copy, PartialEq, Eq, Structural, Debug)]
pub enum NormalizeError {
    MalformedTimestamp,
}

/// The client's fixed connection data.  The HTTP transport itself lives
/// outside this crate; these fields say where requests go and which
/// credential accompanies them.
pub struct MailClient {
    pub auth_token: String,
    pub base: String,
    pub api_path: String,
}

impl Default for MailClient {
    /// A client for the public service host, with no credential.
    fn default() -> (c: Self)
        ensures
            c.auth_token@ == Seq::<char>::empty(),
            c.base@ == "https://mail.hackclub.com"@,
            c.api_path@ == "/api/public/v1/"@,
    {
        MailClient {
            auth_token: String::new(),
            base: "https://mail.hackclub.com".to_owned(),
            api_path: "/api/public/v1/".to_owned(),
        }
    }
}

impl MailClient {
    /// A client for the public service host using the given credential.
    pub fn new(auth_token: String) -> (c: Self)
        ensures
            c.auth_token@ == auth_token@,
            c.base@ == "https://mail.hackclub.com"@,
            c.api_path@ == "/api/public/v1/"@,
    {
        MailClient {
            auth_token,
            base: "https://mail.hackclub.com".to_owned(),
            api_path: "/api/public/v1/".to_owned(),
        }
    }

    /// The URL of the account-identity endpoint.
    pub fn me_url(&self) -> (r: String)
        ensures
            r@ == self.base@ + "/"@ + self.api_path@ + "/me"@,
    {
        let mut u = self.base.clone();
        u.append("/");
        u.append(self.api_path.as_str());
        u.append("/me");
        u
    }

    /// The URL of the collection endpoint for the given kind.
    pub fn collection_url(&self, mail_type: Option<MailType>) -> (r: String)
        ensures
            r@ == self.base@ + "/"@ + self.api_path@ + "/"@ + collection_path_spec(mail_type),
    {
        let mut u = self.base.clone();
        u.append("/");
        u.append(self.api_path.as_str());
        u.append("/");
        u.append(collection_path(mail_type));
        u
    }

    /// The URL for a server-provided retrieval path.  The path is the
    /// sole handle for fetching detail: it is never synthesized from an
    /// identifier, because the path scheme differs by kind.
    pub fn detail_url(&self, path: &str) -> (r: String)
        ensures
            r@ == self.base@ + "/"@ + path@,
    {
        let mut u = self.base.clone();
        u.append("/");
        u.append(path);
        u
    }
}

/// The upstream collection fetched for a request of the given kind;
/// `None` requests the combined listing.
pub open spec fn collection_path_spec(mail_type: Option<MailType>) -> Seq<char> {
    match mail_type {
        Some(MailType::Legacy) => "lsv"@,
        Some(MailType::Package) => "packages"@,
        Some(MailType::Letter) => "letters"@,
        None => "mail"@,
    }
}

/// Maps a requested kind to the collection segment of the endpoint path.
pub fn collection_path(mail_type: Option<MailType>) -> (r: &'static str)
    ensures
        r@ == collection_path_spec(mail_type),
{
    match mail_type {
        Some(MailType::Legacy) => "lsv",
        Some(MailType::Package) => "packages",
        Some(MailType::Letter) => "letters",
        None => "mail",
    }
}

/// The key under which a collection response wraps its array, per kind.
pub open spec fn envelope_key_spec(mail_type: Option<MailType>) -> Seq<char> {
    match mail_type {
        Some(MailType::Legacy) => "legacy_shipment_viewer_records"@,
        Some(MailType::Package) => "packages"@,
        Some(MailType::Letter) => "letters"@,
        None => "mail"@,
    }
}

/// Maps a requested kind to the envelope key its response uses.
pub fn envelope_key(mail_type: Option<MailType>) -> (r: &'static str)
    ensures
        r@ == envelope_key_spec(mail_type),
{
    match mail_type {
        Some(MailType::Legacy) => "legacy_shipment_viewer_records",
        Some(MailType::Package) => "packages",
        Some(MailType::Letter) => "letters",
        None => "mail",
    }
}

// ---------------------------------------------------------------------------
// Normalization: from a decoded fragment to a unified record
// ---------------------------------------------------------------------------

/// The timestamp an optional string field carries: absent when the
/// field is, otherwise whatever the text parses to.
pub open spec fn ts_of(o: Option<Seq<char>>) -> Option<i64> {
    match o {
        Some(s) => parsed_timestamp(s),
        None => None,
    }
}

/// Whether an optional timestamp field is present but malformed: the
/// one condition normalization treats as a hard error.
pub open spec fn ts_bad(o: Option<Seq<char>>) -> bool {
    match o {
        Some(s) => parsed_timestamp(s) is None,
        None => false,
    }
}

/// Whether normalizing one event fragment fails.
pub open spec fn event_fails(e: Json) -> bool {
    ts_bad(str_field(e, "happened_at"@))
}

/// The event an event fragment normalizes to.
pub open spec fn spec_event(e: Json) -> EventView {
    EventView {
        happened_at: ts_of(str_field(e, "happened_at"@)),
        source: str_field(e, "source"@),
        facility: str_field(e, "facility"@),
        description: str_field(e, "description"@),
        location: str_field(e, "location"@),
    }
}

/// The events of a fragment sequence, in order.
pub open spec fn events_of(es: Seq<Json>) -> Seq<EventView> {
    es.map_values(|e: Json| spec_event(e))
}

/// The serialized texts of a tag value sequence, in order.
pub open spec fn texts_of(ts: Seq<Json>) -> Seq<Seq<char>> {
    ts.map_values(|t: Json| text_of(t))
}

/// Whether normalizing a record fragment fails: some timestamp of the
/// record, or of one of its events, is present but malformed.
pub open spec fn normalize_fails(j: Json) -> bool {
    ||| ts_bad(str_field(j, "created_at"@))
    ||| ts_bad(str_field(j, "updated_at"@))
    ||| match arr_field(j, "events"@) {
        Some(es) => exists|i: int| 0 <= i < es.len() && event_fails(es[i]),
        None => false,
    }
}

/// Whether at least one recognized attribute is present in a fragment:
/// the existence test for a record.
pub open spec fn observed(j: Json) -> bool {
    ||| str_field(j, "id"@) is Some
    ||| str_field(j, "title"@) is Some
    ||| str_field(j, "created_at"@) is Some
    ||| str_field(j, "updated_at"@) is Some
    ||| str_field(j, "public_url"@) is Some
    ||| str_field(j, "type"@) is Some
    ||| str_field(j, "subtype"@) is Some
    ||| str_field(j, "status"@) is Some
    ||| str_field(j, "path"@) is Some
    ||| arr_field(j, "tags"@) is Some
    ||| str_field(j, "tracking_number"@) is Some
    ||| str_field(j, "tracking_link"@) is Some
    ||| arr_field(j, "events"@) is Some
}

/// The record a fragment normalizes to, attribute by attribute, when
/// normalization does not fail.
pub open spec fn spec_item(j: Json) -> LetterView {
    LetterView {
        id: str_field(j, "id"@),
        title: str_field(j, "title"@),
        letter_type: str_field(j, "type"@),
        letter_subtype: str_field(j, "subtype"@),
        tracking_number: str_field(j, "tracking_number"@),
        tracking_link: str_field(j, "tracking_link"@),
        public_url: str_field(j, "public_url"@),
        status: str_field(j, "status"@),
        tags: match arr_field(j, "tags"@) {
            Some(ts) => Some(texts_of(ts)),
            None => None,
        },
        created_at: ts_of(str_field(j, "created_at"@)),
        updated_at: ts_of(str_field(j, "updated_at"@)),
        events: match arr_field(j, "events"@) {
            Some(es) => Some(events_of(es)),
            None => None,
        },
        path: str_field(j, "path"@),
    }
}

/// What normalizing a fragment yields: a hard error exactly on a
/// malformed timestamp, absence when no recognized attribute is
/// present, and otherwise the record of [`spec_item`].
pub open spec fn spec_normalize(j: Json) -> Result<Option<LetterView>, NormalizeError> {
    if normalize_fails(j) {
        Err(NormalizeError::MalformedTimestamp)
    } else if observed(j) {
        Ok(Some(spec_item(j)))
    } else {
        Ok(None)
    }
}

impl MailClient {
    /// Normalizes one event fragment.  Every field but the timestamp
    /// degrades to absence on any shape mismatch; an event with all
    /// fields absent is still an event.
    pub fn event_from_data(&self, event: &Json) -> (r: Result<Event, NormalizeError>)
        ensures
            r is Err <==> event_fails(*event),
            r matches Ok(ev) ==> ev.deep_view() == spec_event(*event),
    {
        let happened_at: Option<i64> = match get_str_field(event, "happened_at") {
            Some(s) => match parse_timestamp(s.as_str()) {
                Some(t) => Some(t),
                None => {
                    return Err(NormalizeError::MalformedTimestamp);
                },
            },
            None => None,
        };
        let ev = Event {
            happened_at,
            source: get_str_field(event, "source"),
            facility: get_str_field(event, "facility"),
            description: get_str_field(event, "description"),
            location: get_str_field(event, "location"),
        };
        proof {
            assert(ev.deep_view() =~= spec_event(*event));
        }
        Ok(ev)
    }

    /// Normalizes one record fragment.  Absence is returned when no
    /// recognized attribute is present; a present but malformed
    /// timestamp, on the record or on any of its events, is the one
    /// hard error.
    pub fn letter_from_data(&self, letter: &Json) -> (r: Result<Option<Letter>, NormalizeError>)
        ensures
            match r {
                Ok(o) => spec_normalize(*letter) == Ok::<Option<LetterView>, NormalizeError>(
                    o.deep_view(),
                ),
                Err(e) => spec_normalize(*letter) == Err::<Option<LetterView>, NormalizeError>(e),
            },
    {
        let id = get_str_field(letter, "id");
        let title = get_str_field(letter, "title");
        let created_at: Option<i64> = match get_str_field(letter, "created_at") {
            Some(s) => match parse_timestamp(s.as_str()) {
                Some(t) => Some(t),
                None => {
                    return Err(NormalizeError::MalformedTimestamp);
                },
            },
            None => None,
        };
        let updated_at: Option<i64> = match get_str_field(letter, "updated_at") {
            Some(s) => match parse_timestamp(s.as_str()) {
                Some(t) => Some(t),
                None => {
                    return Err(NormalizeError::MalformedTimestamp);
                },
            },
            None => None,
        };
        let public_url = get_str_field(letter, "public_url");
        let letter_type = get_str_field(letter, "type");
        let letter_subtype = get_str_field(letter, "subtype");
        let status = get_str_field(letter, "status");
        let path = get_str_field(letter, "path");
        let tags: Option<Vec<String>> = match get_arr_field(letter, "tags") {
            Some(ts) => Some(render_all(ts)),
            None => None,
        };
        let tracking_number = get_str_field(letter, "tracking_number");
        let tracking_link = get_str_field(letter, "tracking_link");
        let events: Option<Vec<Event>> = match get_arr_field(letter, "events") {
            Some(es) => match self.events_from_data(es) {
                Ok(evs) => Some(evs),
                Err(e) => {
                    return Err(e);
                },
            },
            None => None,
        };
        let letter_exists = id.is_some() || title.is_some() || created_at.is_some()
            || updated_at.is_some() || public_url.is_some() || letter_type.is_some()
            || letter_subtype.is_some() || status.is_some() || path.is_some() || tags.is_some()
            || tracking_number.is_some() || tracking_link.is_some() || events.is_some();
        proof {
            assert(!normalize_fails(*letter));
            assert(letter_exists == observed(*letter));
        }
        if letter_exists {
            let l = Letter {
                id,
                title,
                letter_type,
                letter_subtype,
                tracking_number,
                tracking_link,
                public_url,
                status,
                tags,
                created_at,
                updated_at,
                events,
                path,
            };
            proof {
                assert(l.deep_view() =~= spec_item(*letter));
            }
            Ok(Some(l))
        } else {
            Ok(None)
        }
    }

    /// Normalizes every event fragment of an array, in order, stopping
    /// at the first malformed timestamp.
    fn events_from_data(&self, es: &Vec<Json>) -> (r: Result<Vec<Event>, NormalizeError>)
        ensures
            r is Err <==> exists|i: int| 0 <= i < es@.len() && event_fails(es@[i]),
            r matches Ok(evs) ==> evs.deep_view() == events_of(es@),
    {
        let n = es.len();
        let mut out: Vec<Event> = Vec::new();
        let mut i: usize = 0;
        proof {
            assert(out.deep_view() =~= events_of(es@.take(0)));
        }
        while i < n
            invariant
                n == es@.len(),
                i <= n,
                forall|k: int| 0 <= k < i ==> !event_fails(es@[k]),
                out.deep_view() == events_of(es@.take(i as int)),
            decreases n - i,
        {
            let ghost pre = out.deep_view();
            match self.event_from_data(&es[i]) {
                Ok(ev) => {
                    out.push(ev);
                },
                Err(e) => {
                    return Err(e);
                },
            }
            proof {
                assert(pre.len() == i as int);
                assert_seqs_equal!(out.deep_view() == events_of(es@.take(i as int + 1)), k => {
                    assert(es@.take(i as int + 1)[k] == es@[k]);
                    assert(events_of(es@.take(i as int + 1))[k] == spec_event(es@[k]));
                    if k < i as int {
                        assert(out.deep_view()[k] == pre[k]);
                        assert(pre[k] == events_of(es@.take(i as int))[k]);
                        assert(events_of(es@.take(i as int))[k] == spec_event(es@.take(i as int)[k]));
                        assert(es@.take(i as int)[k] == es@[k]);
                    } else {
                        assert(out.deep_view()[k] == spec_event(es@[i as int]));
                    }
                });
            }
            i += 1;
        }
        proof {
            assert(es@.take(n as int) =~= es@);
        }
        Ok(out)
    }
}

/// Renders every element of a tag array to its serialized text, in
/// order.
fn render_all(ts: &Vec<Json>) -> (r: Vec<String>)
    ensures
        r.deep_view() == texts_of(ts@),
{
    let n = ts.len();
    let mut out: Vec<String> = Vec::new();
    let mut i: usize = 0;
    proof {
        assert(out.deep_view() =~= texts_of(ts@.take(0)));
    }
    while i < n
        invariant
            n == ts@.len(),
            i <= n,
            out.deep_view() == texts_of(ts@.take(i as int)),
        decreases n - i,
    {
        let ghost pre = out.deep_view();
        out.push(render(&ts[i]));
        proof {
            assert(pre.len() == i as int);
            assert_seqs_equal!(out.deep_view() == texts_of(ts@.take(i as int + 1)), k => {
                assert(ts@.take(i as int + 1)[k] == ts@[k]);
                assert(texts_of(ts@.take(i as int + 1))[k] == text_of(ts@[k]));
                if k < i as int {
                    assert(out.deep_view()[k] == pre[k]);
                    assert(pre[k] == texts_of(ts@.take(i as int))[k]);
                    assert(texts_of(ts@.take(i as int))[k] == text_of(ts@.take(i as int)[k]));
                    assert(ts@.take(i as int)[k] == ts@[k]);
                } else {
                    assert(out.deep_view()[k] == text_of(ts@[i as int]));
                }
            });
        }
        i += 1;
    }
    proof {
        assert(ts@.take(n as int) =~= ts@);
    }
    out
}

// ---------------------------------------------------------------------------
// Collection resolution: from a response body to records
// ---------------------------------------------------------------------------

/// The records kept from a fragment sequence: each fragment normalized,
/// in order, with the fragments that hold no recognized attribute
/// discarded.
pub open spec fn kept_items(es: Seq<Json>) -> Seq<LetterView>
    decreases es.len(),
{
    if es.len() == 0 {
        Seq::empty()
    } else {
        kept_items(es.drop_last()) + (match spec_normalize(es.last()) {
            Ok(Some(v)) => seq![v],
            _ => Seq::empty(),
        })
    }
}

/// What reading a collection envelope yields for a kind: absence when
/// the envelope key is missing or not an array (the response is
/// unusable, which is distinct from an empty collection), an error when
/// any element fails to normalize, and otherwise the kept records.
pub open spec fn spec_letters(j: Json, mail_type: Option<MailType>) -> Result<
    Option<Seq<LetterView>>,
    NormalizeError,
> {
    match arr_field(j, envelope_key_spec(mail_type)) {
        None => Ok(None),
        Some(es) => if exists|i: int| 0 <= i < es.len() && normalize_fails(es[i]) {
            Err(NormalizeError::MalformedTimestamp)
        } else {
            Ok(Some(kept_items(es)))
        },
    }
}

/// What a whole listing response body yields: a body that is not JSON
/// degrades to absence, anything else goes by [`spec_letters`].
pub open spec fn spec_mail_from_body(body: Seq<char>, mail_type: Option<MailType>) -> Result<
    Option<Seq<LetterView>>,
    NormalizeError,
> {
    match parsed_json(body) {
        None => Ok(None),
        Some(j) => spec_letters(j, mail_type),
    }
}

/// Whether an optional JSON value is present and an object.
pub open spec fn is_obj(o: Option<Json>) -> bool {
    o matches Some(j) && j is Obj
}

/// The fragment a detail response carries: whichever of the three
/// per-kind keys holds an object, tried in this fixed priority order; a
/// key holding a non-object value is passed over.
pub open spec fn detail_pick(j: Json) -> Option<Json> {
    if is_obj(obj_get(j, "letter"@)) {
        obj_get(j, "letter"@)
    } else if is_obj(obj_get(j, "package"@)) {
        obj_get(j, "package"@)
    } else if is_obj(obj_get(j, "legacy_shipment_viewer_record"@)) {
        obj_get(j, "legacy_shipment_viewer_record"@)
    } else {
        None
    }
}

/// What a detail response tree yields: absence when no per-kind key
/// holds an object, otherwise the normalization of the picked fragment.
pub open spec fn spec_detail(j: Json) -> Result<Option<LetterView>, NormalizeError> {
    match detail_pick(j) {
        None => Ok(None),
        Some(frag) => spec_normalize(frag),
    }
}

/// What a whole detail response body yields.
pub open spec fn spec_detail_from_body(body: Seq<char>) -> Result<
    Option<LetterView>,
    NormalizeError,
> {
    match parsed_json(body) {
        None => Ok(None),
        Some(j) => spec_detail(j),
    }
}

impl MailClient {
    /// Reads the collection for a kind out of a decoded envelope: the
    /// array under that kind's envelope key, every element normalized
    /// in order, elements holding no recognized attribute discarded.
    /// Other keys in the envelope are ignored.  Absence means the key
    /// was missing or not an array, which callers must keep distinct
    /// from an empty collection.
    pub fn letters_from_envelope(&self, data: &Json, mail_type: Option<MailType>) -> (r: Result<
        Option<Vec<Letter>>,
        NormalizeError,
    >)
        ensures
            match r {
                Ok(o) => spec_letters(*data, mail_type) == Ok::<
                    Option<Seq<LetterView>>,
                    NormalizeError,
                >(o.deep_view()),
                Err(e) => spec_letters(*data, mail_type) == Err::<
                    Option<Seq<LetterView>>,
                    NormalizeError,
                >(e),
            },
    {
        match get_arr_field(data, envelope_key(mail_type)) {
            None => Ok(None),
            Some(es) => {
                let n = es.len();
                let mut out: Vec<Letter> = Vec::new();
                let mut i: usize = 0;
                proof {
                    assert(out.deep_view() =~= kept_items(es@.take(0)));
                }
                while i < n
                    invariant
                        n == es@.len(),
                        i <= n,
                        arr_field(*data, envelope_key_spec(mail_type)) == Some(es@),
                        forall|k: int| 0 <= k < i ==> !normalize_fails(es@[k]),
                        out.deep_view() == kept_items(es@.take(i as int)),
                    decreases n - i,
                {
                    let ghost pre = out.deep_view();
                    match self.letter_from_data(&es[i]) {
                        Ok(Some(l)) => {
                            out.push(l);
                        },
                        Ok(None) => {},
                        Err(e) => {
                            return Err(e);
                        },
                    }
                    proof {
                        assert(es@.take(i as int + 1).drop_last() =~= es@.take(i as int));
                        assert(es@.take(i as int + 1).last() == es@[i as int]);
                        match spec_normalize(es@[i as int]) {
                            Ok(Some(v)) => {
                                assert_seqs_equal!(out.deep_view() == pre + seq![v], k => {
                                    if k < pre.len() {
                                        assert(out.deep_view()[k] == pre[k]);
                                    } else {
                                        assert(out.deep_view()[k] == v);
                                    }
                                });
                            },
                            _ => {
                                assert(out.deep_view() == pre);
                            },
                        }
                        assert(out.deep_view() =~= kept_items(es@.take(i as int + 1)));
                    }
                    i += 1;
                }
                proof {
                    assert(es@.take(n as int) =~= es@);
                }
                Ok(Some(out))
            },
        }
    }

    /// Reads a listing response body for a kind: a body that is not
    /// JSON yields absence rather than an error, anything else goes by
    /// [`Self::letters_from_envelope`].
    pub fn mail_from_body(&self, body: &str, mail_type: Option<MailType>) -> (r: Result<
        Option<Vec<Letter>>,
        NormalizeError,
    >)
        ensures
            match r {
                Ok(o) => spec_mail_from_body(body@, mail_type) == Ok::<
                    Option<Seq<LetterView>>,
                    NormalizeError,
                >(o.deep_view()),
                Err(e) => spec_mail_from_body(body@, mail_type) == Err::<
                    Option<Seq<LetterView>>,
                    NormalizeError,
                >(e),
            },
    {
        match parse_json(body) {
            None => Ok(None),
            Some(data) => self.letters_from_envelope(&data, mail_type),
        }
    }

    /// Picks the detail fragment out of a decoded detail response:
    /// the first of the `letter`, `package`,
    /// `legacy_shipment_viewer_record` keys whose value is an object,
    /// in that fixed order; a key holding anything else is passed over.
    fn pick_detail<'a>(&self, data: &'a Json) -> (r: Option<&'a Json>)
        ensures
            r matches Some(f) ==> detail_pick(*data) == Some(*f),
            r is None ==> detail_pick(*data) is None,
    {
        match get_field(data, "letter") {
            Some(v) => {
                if let Json::Obj(_) = v {
                    return Some(v);
                }
            },
            None => {},
        }
        match get_field(data, "package") {
            Some(v) => {
                if let Json::Obj(_) = v {
                    return Some(v);
                }
            },
            None => {},
        }
        match get_field(data, "legacy_shipment_viewer_record") {
            Some(v) => {
                if let Json::Obj(_) = v {
                    return Some(v);
                }
            },
            None => {},
        }
        None
    }

    /// Reads a detail response body: absence when the body is not JSON
    /// or no per-kind key holds an object, otherwise the normalization
    /// of the picked fragment (which may itself be absent, when the
    /// object holds no recognized attribute).
    pub fn detail_from_body(&self, body: &str) -> (r: Result<Option<Letter>, NormalizeError>)
        ensures
            match r {
                Ok(o) => spec_detail_from_body(body@) == Ok::<
                    Option<LetterView>,
                    NormalizeError,
                >(o.deep_view()),
                Err(e) => spec_detail_from_body(body@) == Err::<Option<LetterView>, NormalizeError>(
                    e,
                ),
            },
    {
        match parse_json(body) {
            None => Ok(None),
            Some(data) => match self.pick_detail(&data) {
                None => Ok(None),
                Some(frag) => self.letter_from_data(frag),
            },
        }
    }
}

// ---------------------------------------------------------------------------
// Identifier resolution: scanning a summary listing
// ---------------------------------------------------------------------------

/// The outcome of scanning a summary listing for an identifier.  A
/// match without a retrieval path is kept distinct from no match at
/// all, and both are distinct from transport or decode failures, which
/// never reach this type.
#[derive(Debug, PartialEq)]
pub enum ScanOutcome {
    /// The first record whose identifier matched carries this
    /// retrieval path.
    Found(String),
    /// The first record whose identifier matched carries no retrieval
    /// path, so its detail cannot be fetched.
    FoundWithoutPath,
    /// No record's identifier matched.
    NotFound,
}

/// The mathematical value of a [`ScanOutcome`].
#[verifier::ext_equal]
pub enum ScanView {
    Found(Seq<char>),
    FoundWithoutPath,
    NotFound,
}

impl DeepView for ScanOutcome {
    type V = ScanView;

    open spec fn deep_view(&self) -> ScanView {
        match self {
            ScanOutcome::Found(p) => ScanView::Found(p@),
            ScanOutcome::FoundWithoutPath => ScanView::FoundWithoutPath,
            ScanOutcome::NotFound => ScanView::NotFound,
        }
    }
}

/// What scanning a listing for an identifier yields: the first record
/// whose identifier equals `id` decides the outcome; records without an
/// identifier never match.
pub open spec fn scan_spec(items: Seq<LetterView>, id: Seq<char>) -> ScanView
    decreases items.len(),
{
    if items.len() == 0 {
        ScanView::NotFound
    } else if items[0].id == Some(id) {
        match items[0].path {
            Some(p) => ScanView::Found(p),
            None => ScanView::FoundWithoutPath,
        }
    } else {
        scan_spec(items.drop_first(), id)
    }
}

/// Scans a summary listing for the record with the given identifier,
/// in listing order, and reports its retrieval path.
pub fn find_by_id(items: &Vec<Letter>, id: &str) -> (r: ScanOutcome)
    ensures
        r.deep_view() == scan_spec(items.deep_view(), id@),
{
    let n = items.len();
    let mut i: usize = 0;
    proof {
        assert(items.deep_view().skip(0) =~= items.deep_view());
    }
    while i < n
        invariant
            n == items@.len(),
            i <= n,
            items.deep_view().len() == n,
            scan_spec(items.deep_view(), id@) == scan_spec(
                items.deep_view().skip(i as int),
                id@,
            ),
        decreases n - i,
    {
        proof {
            assert(items.deep_view().skip(i as int)[0] == items.deep_view()[i as int]);
            assert(items.deep_view()[i as int] == items@[i as int].deep_view());
        }
        let item = &items[i];
        let mut matched = false;
        match &item.id {
            Some(s) => {
                if str_eq(s.as_str(), id) {
                    matched = true;
                }
            },
            None => {},
        }
        if matched {
            match &item.path {
                Some(p) => {
                    return ScanOutcome::Found(p.clone());
                },
                None => {
                    return ScanOutcome::FoundWithoutPath;
                },
            }
        }
        proof {
            assert(items.deep_view().skip(i as int).drop_first() =~= items.deep_view().skip(
                i as int + 1,
            ));
        }
        i += 1;
    }
    proof {
        assert(items.deep_view().skip(n as int) =~= Seq::<LetterView>::empty());
    }
    ScanOutcome::NotFound
}

// ---------------------------------------------------------------------------
// Account identity
// ---------------------------------------------------------------------------

/// The node a `/me` response carries under `user.id`, with any missing
/// or mis-shaped step degrading to `null`.
pub open spec fn user_id_node(j: Json) -> Json {
    match obj_get(j, "user"@) {
        Some(u) => match obj_get(u, "id"@) {
            Some(v) => v,
            None => Json::Null,
        },
        None => Json::Null,
    }
}

/// What reading an account-identity response body yields: absence when
/// the body is not JSON, otherwise the serialized text of the `user.id`
/// node.
pub open spec fn spec_user_id(body: Seq<char>) -> Option<Seq<char>> {
    match parsed_json(body) {
        None => None,
        Some(j) => Some(text_of(user_id_node(j))),
    }
}

impl MailClient {
    /// Reads the service-assigned account identifier out of a `/me`
    /// response body.
    pub fn user_id_from_body(&self, body: &str) -> (r: Option<String>)
        ensures
            r.deep_view() == spec_user_id(body@),
    {
        match parse_json(body) {
            None => None,
            Some(data) => match get_field(&data, "user") {
                Some(u) => match get_field(u, "id") {
                    Some(v) => Some(render(v)),
                    None => Some(render(&Json::Null)),
                },
                None => Some(render(&Json::Null)),
            },
        }
    }
}

} // verus!
