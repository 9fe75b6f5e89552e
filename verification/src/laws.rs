//! The general laws of the normalizer and resolver, stated over the
//! same spec functions the executable contracts use.

use vstd::prelude::*;
use crate::json::{Json, obj_get, str_field, arr_field};
use crate::mail::{
    MailType, LetterView, NormalizeError, ScanView, envelope_key_spec, spec_normalize, spec_item,
    spec_letters, scan_spec, detail_pick, is_obj, observed, normalize_fails,
};

verus! {

/// Whether a key is one of the attribute keys the normalizer reads.
pub open spec fn recognized_key(k: Seq<char>) -> bool {
    ||| k == "id"@
    ||| k == "title"@
    ||| k == "created_at"@
    ||| k == "updated_at"@
    ||| k == "public_url"@
    ||| k == "type"@
    ||| k == "subtype"@
    ||| k == "status"@
    ||| k == "path"@
    ||| k == "tags"@
    ||| k == "tracking_number"@
    ||| k == "tracking_link"@
    ||| k == "events"@
}

/// A fragment holding none of the recognized attribute keys normalizes
/// to absence: no attribute observed means the record does not exist,
/// and nothing else in the fragment can make normalization fail.
pub proof fn lemma_unrecognized_absent(j: Json)
    requires
        forall|k: Seq<char>| recognized_key(k) ==> #[trigger] obj_get(j, k) is None,
    ensures
        spec_normalize(j) == Ok::<Option<LetterView>, NormalizeError>(None),
{
    assert(obj_get(j, "id"@) is None);
    assert(obj_get(j, "title"@) is None);
    assert(obj_get(j, "created_at"@) is None);
    assert(obj_get(j, "updated_at"@) is None);
    assert(obj_get(j, "public_url"@) is None);
    assert(obj_get(j, "type"@) is None);
    assert(obj_get(j, "subtype"@) is None);
    assert(obj_get(j, "status"@) is None);
    assert(obj_get(j, "path"@) is None);
    assert(obj_get(j, "tags"@) is None);
    assert(obj_get(j, "tracking_number"@) is None);
    assert(obj_get(j, "tracking_link"@) is None);
    assert(obj_get(j, "events"@) is None);
    assert(!observed(j));
    assert(!normalize_fails(j));
}

/// One of the plain string attributes of a record.
#[derive(Clone, Copy, PartialEq, Eq, Structural, Debug)]
pub enum StrAttr {
    Id,
    Title,
    LetterType,
    LetterSubtype,
    TrackingNumber,
    TrackingLink,
    PublicUrl,
    Status,
    Path,
}

/// The attribute key a string attribute is read from.
pub open spec fn str_attr_key(a: StrAttr) -> Seq<char> {
    match a {
        StrAttr::Id => "id"@,
        StrAttr::Title => "title"@,
        StrAttr::LetterType => "type"@,
        StrAttr::LetterSubtype => "subtype"@,
        StrAttr::TrackingNumber => "tracking_number"@,
        StrAttr::TrackingLink => "tracking_link"@,
        StrAttr::PublicUrl => "public_url"@,
        StrAttr::Status => "status"@,
        StrAttr::Path => "path"@,
    }
}

/// The value a string attribute has in a normalized record.
pub open spec fn item_str_attr(m: LetterView, a: StrAttr) -> Option<Seq<char>> {
    match a {
        StrAttr::Id => m.id,
        StrAttr::Title => m.title,
        StrAttr::LetterType => m.letter_type,
        StrAttr::LetterSubtype => m.letter_subtype,
        StrAttr::TrackingNumber => m.tracking_number,
        StrAttr::TrackingLink => m.tracking_link,
        StrAttr::PublicUrl => m.public_url,
        StrAttr::Status => m.status,
        StrAttr::Path => m.path,
    }
}

/// A fragment with exactly one recognized string attribute normalizes
/// to a record with exactly that attribute set: the one attribute
/// carries its extracted value, every other attribute is unset.
pub proof fn lemma_single_string_attribute(j: Json, a: StrAttr)
    requires
        str_field(j, str_attr_key(a)) is Some,
        forall|b: StrAttr| b != a ==> #[trigger] str_field(j, str_attr_key(b)) is None,
        str_field(j, "created_at"@) is None,
        str_field(j, "updated_at"@) is None,
        arr_field(j, "tags"@) is None,
        arr_field(j, "events"@) is None,
    ensures
        spec_normalize(j) == Ok::<Option<LetterView>, NormalizeError>(Some(spec_item(j))),
        item_str_attr(spec_item(j), a) == str_field(j, str_attr_key(a)),
        forall|b: StrAttr| b != a ==> #[trigger] item_str_attr(spec_item(j), b) is None,
        spec_item(j).tags is None,
        spec_item(j).events is None,
        spec_item(j).created_at is None,
        spec_item(j).updated_at is None,
{
    assert(!normalize_fails(j));
    match a {
        StrAttr::Id => assert(str_field(j, "id"@) is Some),
        StrAttr::Title => assert(str_field(j, "title"@) is Some),
        StrAttr::LetterType => assert(str_field(j, "type"@) is Some),
        StrAttr::LetterSubtype => assert(str_field(j, "subtype"@) is Some),
        StrAttr::TrackingNumber => assert(str_field(j, "tracking_number"@) is Some),
        StrAttr::TrackingLink => assert(str_field(j, "tracking_link"@) is Some),
        StrAttr::PublicUrl => assert(str_field(j, "public_url"@) is Some),
        StrAttr::Status => assert(str_field(j, "status"@) is Some),
        StrAttr::Path => assert(str_field(j, "path"@) is Some),
    }
    assert(observed(j));
    assert forall|b: StrAttr| b != a implies #[trigger] item_str_attr(spec_item(j), b)
        is None by {
        assert(str_field(j, str_attr_key(b)) is None);
    }
}

/// Reading a collection envelope for a kind depends on that kind's
/// envelope key alone: two envelopes agreeing under it yield the same
/// result, whatever other keys either of them carries.
pub proof fn lemma_list_reads_only_its_key(j1: Json, j2: Json, mail_type: Option<MailType>)
    requires
        obj_get(j1, envelope_key_spec(mail_type)) == obj_get(j2, envelope_key_spec(mail_type)),
    ensures
        spec_letters(j1, mail_type) == spec_letters(j2, mail_type),
{
    assert(arr_field(j1, envelope_key_spec(mail_type)) == arr_field(
        j2,
        envelope_key_spec(mail_type),
    ));
}

/// Normalization is a pure function of its fragment: normalizing equal
/// fragments, as often as one likes, yields equal results.
pub proof fn lemma_normalize_deterministic(j1: Json, j2: Json)
    requires
        j1 == j2,
    ensures
        spec_normalize(j1) == spec_normalize(j2),
{
}

/// A summary scan that completes without a match yields "not found":
/// when no record's identifier equals the one sought, the outcome is
/// `NotFound`, not an error.
pub proof fn lemma_scan_no_match(items: Seq<LetterView>, id: Seq<char>)
    requires
        forall|i: int| 0 <= i < items.len() ==> #[trigger] items[i].id != Some(id),
    ensures
        scan_spec(items, id) == ScanView::NotFound,
    decreases items.len(),
{
    if items.len() > 0 {
        assert(items[0].id != Some(id));
        assert forall|i: int| 0 <= i < items.drop_first().len() implies #[trigger] items
            .drop_first()[i].id != Some(id) by {
            assert(items.drop_first()[i] == items[i + 1]);
        }
        lemma_scan_no_match(items.drop_first(), id);
    }
}

/// A detail response is read from whichever of the three per-kind keys
/// holds an object, tried in the fixed order `letter`, `package`,
/// `legacy_shipment_viewer_record`; a key holding a non-object value is
/// passed over as if absent, and when none holds an object the result
/// is absent.
pub proof fn lemma_detail_priority(j: Json)
    ensures
        is_obj(obj_get(j, "letter"@)) ==> detail_pick(j) == obj_get(j, "letter"@),
        !is_obj(obj_get(j, "letter"@)) && is_obj(obj_get(j, "package"@)) ==> detail_pick(j)
            == obj_get(j, "package"@),
        !is_obj(obj_get(j, "letter"@)) && !is_obj(obj_get(j, "package"@)) && is_obj(
            obj_get(j, "legacy_shipment_viewer_record"@),
        ) ==> detail_pick(j) == obj_get(j, "legacy_shipment_viewer_record"@),
        !is_obj(obj_get(j, "letter"@)) && !is_obj(obj_get(j, "package"@)) && !is_obj(
            obj_get(j, "legacy_shipment_viewer_record"@),
        ) ==> detail_pick(j) is None,
{
}

} // verus!
