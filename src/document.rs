use vstd::prelude::*;
use mongodb::bson::{Bson, Document};

verus! {

#[verifier::external_type_specification]
#[verifier::external_body]
pub struct ExBson(Bson);

#[verifier::external_type_specification]
#[verifier::external_body]
pub struct ExDocument(Document);

/// The key-value pairs that a document holds.
pub uninterp spec fn fields_of(d: Document) -> Map<Seq<char>, Bson>;

/// What `Bson::as_str` gives: the text of a string value.
pub uninterp spec fn bson_text(b: Bson) -> Option<Seq<char>>;

/// What `Bson::as_object_id` gives: the bytes of an object id value.
pub uninterp spec fn bson_object_id(b: Bson) -> Option<Seq<u8>>;

/// What `Bson::as_document` gives, read as the nested document's fields.
pub uninterp spec fn bson_fields(b: Bson) -> Option<Map<Seq<char>, Bson>>;

/// The text stored under `key`, if the key is there and holds a string.
pub open spec fn text_at(m: Map<Seq<char>, Bson>, key: Seq<char>) -> Option<Seq<char>> {
    if m.contains_key(key) {
        bson_text(m[key])
    } else {
        None
    }
}

/// Relies on `Document::new`: a document with no fields.
#[verifier::external_body]
pub(crate) fn new_document() -> (r: Document)
    ensures
        fields_of(r).dom().is_empty(),
{
    Document::new()
}

/// Relies on `Document::insert`: the key now maps to the value, any earlier
/// value under it is replaced, and the other fields stay.
#[verifier::external_body]
pub(crate) fn put_field(d: &mut Document, key: &str, v: Bson)
    ensures
        fields_of(*final(d)) == fields_of(*old(d)).insert(key@, v),
{
    d.insert(key, v);
}

/// Relies on `Document::get`: the value under the key, if any.
#[verifier::external_body]
pub(crate) fn get_field(d: &Document, key: &str) -> (r: Option<Bson>)
    ensures
        r is Some <==> fields_of(*d).contains_key(key@),
        r matches Some(v) ==> v == fields_of(*d)[key@],
{
    d.get(key).cloned()
}

/// Relies on the `Bson::String` variant, which `Bson::as_str` reads back.
#[verifier::external_body]
pub(crate) fn text_value(s: String) -> (r: Bson)
    ensures
        bson_text(r) == Some(s@),
        bson_object_id(r) is None,
{
    Bson::String(s)
}

/// Relies on the derived `Clone` impl of `Bson`: an equal value.
pub assume_specification[ <Bson as Clone>::clone ](b: &Bson) -> (r: Bson)
    ensures
        r == *b,
;

/// Relies on `Bson::as_str`.
#[verifier::external_body]
pub(crate) fn as_text(b: &Bson) -> (r: Option<String>)
    ensures
        r is Some <==> bson_text(*b) is Some,
        r matches Some(s) ==> bson_text(*b) == Some(s@),
{
    b.as_str().map(|s| s.to_string())
}

/// Relies on the `Bson::ObjectId` variant, which `Bson::as_object_id` reads back.
#[verifier::external_body]
pub(crate) fn object_id_value(bytes: [u8; 12]) -> (r: Bson)
    ensures
        bson_object_id(r) == Some(bytes@),
        bson_text(r) is None,
{
    Bson::ObjectId(mongodb::bson::oid::ObjectId::from_bytes(bytes))
}

/// Relies on `Bson::as_object_id` and `ObjectId::bytes`.
#[verifier::external_body]
pub(crate) fn as_object_id(b: &Bson) -> (r: Option<[u8; 12]>)
    ensures
        r is Some <==> bson_object_id(*b) is Some,
        r matches Some(bytes) ==> bson_object_id(*b) == Some(bytes@),
{
    b.as_object_id().map(|o| o.bytes())
}

} // verus!

verus! {

/// The text under `key`, where the document holds a string there.
pub fn text_field(d: &Document, key: &str) -> (r: Option<String>)
    ensures
        r is Some <==> text_at(fields_of(*d), key@) is Some,
        r matches Some(s) ==> text_at(fields_of(*d), key@) == Some(s@),
{
    match get_field(d, key) {
        Some(b) => as_text(&b),
        None => None,
    }
}

/// Reads the optional identifier under `key`: `Ok(None)` where the key is
/// absent, `Err(())` where it holds something other than an object id.
pub fn id_field(d: &Document, key: &str) -> (r: Result<Option<[u8; 12]>, ()>)
    ensures
        r == Ok::<Option<[u8; 12]>, ()>(None) <==> !fields_of(*d).contains_key(key@),
        r is Err <==> fields_of(*d).contains_key(key@) && bson_object_id(fields_of(*d)[key@]) is None,
        r matches Ok(Some(b)) ==> fields_of(*d).contains_key(key@) && bson_object_id(
            fields_of(*d)[key@],
        ) == Some(b@),
{
    match get_field(d, key) {
        None => Ok(None),
        Some(b) => match as_object_id(&b) {
            Some(bytes) => Ok(Some(bytes)),
            None => Err(()),
        },
    }
}

} // verus!

verus! {

/// Relies on the `Bson::Document` variant: a nested document is neither a
/// string nor an object id.
#[verifier::external_body]
pub(crate) fn document_value(d: Document) -> (r: Bson)
    ensures
        bson_fields(r) == Some(fields_of(d)),
        bson_text(r) is None,
        bson_object_id(r) is None,
{
    Bson::Document(d)
}

} // verus!
