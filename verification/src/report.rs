//! The JSON report of OCR results: an array with one object a picture, which
//! maps the picture's AVIF file name to the text read from it.

use vstd::prelude::*;

verus! {

#[verifier::external_type_specification]
#[verifier::external_body]
pub struct ExJsonValue(json::JsonValue);

#[verifier::external_type_specification]
#[verifier::external_body]
pub struct ExJsonError(json::Error);

/// What a value of the `json` crate holds, as far as the report reads it.
pub enum JsonShape {
    /// A string (`JsonValue::String` or `JsonValue::Short`).
    Str(Seq<char>),
    /// An object: its entries in the order that the object keeps.
    Object(Seq<(Seq<char>, JsonShape)>),
    /// An array: its items in order.
    Array(Seq<JsonShape>),
    /// Null, a number or a boolean.
    Other,
}

/// Names what a `json::JsonValue` holds.
pub uninterp spec fn json_shape(v: json::JsonValue) -> JsonShape;

/// `entries` with `key` bound to `value`: the entry with that key takes the
/// new value in its place, or a new entry goes at the end.
pub open spec fn object_insert(
    entries: Seq<(Seq<char>, JsonShape)>,
    key: Seq<char>,
    value: JsonShape,
) -> Seq<(Seq<char>, JsonShape)> {
    if exists|i: int| 0 <= i < entries.len() && #[trigger] entries[i].0 == key {
        let i = choose|i: int| 0 <= i < entries.len() && #[trigger] entries[i].0 == key;
        entries.update(i, (key, value))
    } else {
        entries.push((key, value))
    }
}

/// Calls `json::JsonValue::new_array`, which gives an empty array.
#[verifier::external_body]
fn json_new_array() -> (v: json::JsonValue)
    ensures
        json_shape(v) == JsonShape::Array(Seq::empty()),
{
    json::JsonValue::new_array()
}

/// Calls `json::JsonValue::new_object`, which gives an empty object.
#[verifier::external_body]
fn json_new_object() -> (v: json::JsonValue)
    ensures
        json_shape(v) == JsonShape::Object(Seq::empty()),
{
    json::JsonValue::new_object()
}

/// Calls `json::JsonValue::insert` with a `String` value. As its source
/// shows, an object binds `key` to the string (replacing the value of an
/// entry with that key, else adding an entry at the end) and the call
/// succeeds; any other value stays as it was and the call fails.
#[verifier::external_body]
fn json_insert(obj: &mut json::JsonValue, key: &str, value: String) -> (res: Result<(), json::Error>)
    ensures
        match json_shape(*old(obj)) {
            JsonShape::Object(entries) => {
                &&& res is Ok
                &&& json_shape(*final(obj)) == JsonShape::Object(object_insert(entries, key@, JsonShape::Str(value@)))
            },
            _ => res is Err && *final(obj) == *old(obj),
        },
{
    obj.insert(key, value)
}

/// Calls `json::JsonValue::push`. As its source shows, an array gets `item`
/// at its end and the call succeeds; any other value stays as it was and the
/// call fails.
#[verifier::external_body]
fn json_push(arr: &mut json::JsonValue, item: json::JsonValue) -> (res: Result<(), json::Error>)
    ensures
        match json_shape(*old(arr)) {
            JsonShape::Array(items) => {
                &&& res is Ok
                &&& json_shape(*final(arr)) == JsonShape::Array(items.push(json_shape(item)))
            },
            _ => res is Err && *final(arr) == *old(arr),
        },
{
    arr.push(item)
}

/// The report's entry for one picture: an object that maps its file name to
/// its text.
pub open spec fn report_entry(name: Seq<char>, text: Seq<char>) -> JsonShape {
    JsonShape::Object(seq![(name, JsonShape::Str(text))])
}

/// The report's items for `(file name, text)` pairs, in their order.
pub open spec fn report_items(entries: Seq<(String, String)>) -> Seq<JsonShape> {
    Seq::new(entries.len(), |i: int| report_entry(entries[i].0@, entries[i].1@))
}

/// Builds the OCR report: an array with, for each `(file name, text)` pair
/// in order, an object that maps the name to the text.
pub fn ocr_report(entries: &Vec<(String, String)>) -> (report: json::JsonValue)
    ensures
        json_shape(report) == JsonShape::Array(report_items(entries@)),
        json_shape(report) matches JsonShape::Array(items) && items.len() == entries.len()
            && forall|i: int| 0 <= i < entries.len() ==> #[trigger] items[i]
                == JsonShape::Object(seq![(entries@[i].0@, JsonShape::Str(entries@[i].1@))]),
{
    let mut report = json_new_array();
    let mut i: usize = 0;
    assert(report_items(entries@.take(0)) =~= Seq::<JsonShape>::empty());
    while i < entries.len()
        invariant
            i <= entries.len(),
            json_shape(report) == JsonShape::Array(report_items(entries@.take(i as int))),
        decreases entries.len() - i,
    {
        let mut item = json_new_object();
        let _ = json_insert(&mut item, entries[i].0.as_str(), entries[i].1.clone());
        assert(object_insert(Seq::empty(), entries@[i as int].0@, JsonShape::Str(entries@[i as int].1@))
            == seq![(entries@[i as int].0@, JsonShape::Str(entries@[i as int].1@))]);
        let _ = json_push(&mut report, item);
        assert(report_items(entries@.take(i + 1)) =~= report_items(entries@.take(i as int)).push(
            report_entry(entries@[i as int].0@, entries@[i as int].1@),
        ));
        i = i + 1;
    }
    assert(entries@.take(entries.len() as int) =~= entries@);
    report
}

/// The report has exactly one item for each `(file name, text)` pair, in
/// the pairs' order, and item `i` is the object that maps name `i` to text
/// `i`, whatever the text (an empty one too).
pub proof fn law_report_one_object_per_picture(entries: Seq<(String, String)>, report: json::JsonValue)
    requires
        json_shape(report) == JsonShape::Array(report_items(entries)),
    ensures
        json_shape(report) matches JsonShape::Array(items) && items.len() == entries.len()
            && forall|i: int| 0 <= i < entries.len() ==> #[trigger] items[i]
                == JsonShape::Object(seq![(entries[i].0@, JsonShape::Str(entries[i].1@))]),
{
}

} // verus!
