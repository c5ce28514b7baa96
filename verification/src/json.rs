//! JSON documents: what a `serde_json::Value` holds, how one is put together, read and printed.
use crate::text::chars;
use vstd::prelude::*;

verus! {

/// What a JSON value holds. A number that is not an unsigned 64-bit integer is kept as its text;
/// an object is kept as its fields in order.
#[verifier::ext_equal]
pub enum Json {
    Null,
    Bool(bool),
    Unsigned(u64),
    OtherNumber(Seq<char>),
    Text(Seq<char>),
    List(Seq<Json>),
    Object(Seq<(Seq<char>, Json)>),
}

/// `serde_json::Value`, a JSON document.
#[verifier::external_type_specification]
#[verifier::external_body]
pub struct ExValue(serde_json::Value);

/// What `value` holds. The map behind an object keeps its fields in the order of insertion, and no
/// key twice.
pub uninterp spec fn json_of(value: serde_json::Value) -> Json;

/// The text that `serde_json::to_string_pretty` prints for a document.
pub uninterp spec fn pretty_text(json: Json) -> Option<Seq<char>>;

/// The value of the first field named `key`.
pub open spec fn lookup(fields: Seq<(Seq<char>, Json)>, key: Seq<char>) -> Option<Json>
    decreases fields.len(),
{
    if fields.len() == 0 {
        None
    } else if fields[0].0 == key {
        Some(fields[0].1)
    } else {
        lookup(fields.drop_first(), key)
    }
}

/// The field `key` of an object; no other value has one.
pub open spec fn field_of(json: Json, key: Seq<char>) -> Option<Json> {
    match json {
        Json::Object(fields) => lookup(fields, key),
        _ => None,
    }
}

/// The text of a field that holds one.
pub open spec fn text_field(json: Json, key: Seq<char>) -> Option<Seq<char>> {
    match field_of(json, key) {
        Some(Json::Text(t)) => Some(t),
        _ => None,
    }
}

/// The number of a field that holds an unsigned one.
pub open spec fn unsigned_field(json: Json, key: Seq<char>) -> Option<u64> {
    match field_of(json, key) {
        Some(Json::Unsigned(n)) => Some(n),
        _ => None,
    }
}

/// What a list of values holds.
pub open spec fn list_view(items: Seq<serde_json::Value>) -> Seq<Json> {
    items.map_values(|v: serde_json::Value| json_of(v))
}

/// What a list of fields holds.
pub open spec fn fields_view(fields: Seq<(String, serde_json::Value)>) -> Seq<(Seq<char>, Json)> {
    fields.map_values(|f: (String, serde_json::Value)| (f.0@, json_of(f.1)))
}

/// Whether no key occurs twice.
pub open spec fn distinct_keys(fields: Seq<(Seq<char>, Json)>) -> bool {
    forall|i: int, j: int|
        0 <= i < j < fields.len() ==> (#[trigger] fields[i]).0 != (#[trigger] fields[j]).0
}

/// A list of texts as a JSON list.
pub open spec fn text_list(texts: Seq<Seq<char>>) -> Json {
    Json::List(texts.map_values(|t: Seq<char>| Json::Text(t)))
}

/// An object's field is found by its whole name, wherever it stands: the first of that name, and
/// none where no field has it.
pub proof fn law_field_is_found_by_name(fields: Seq<(Seq<char>, Json)>, key: Seq<char>)
    ensures
        forall|i: int|
            0 <= i < fields.len() && (#[trigger] fields[i]).0 == key && (forall|j: int|
                0 <= j < i ==> (#[trigger] fields[j]).0 != key) ==> field_of(
                Json::Object(fields),
                key,
            ) == Some(fields[i].1),
        (forall|i: int| 0 <= i < fields.len() ==> (#[trigger] fields[i]).0 != key) ==> field_of(
            Json::Object(fields),
            key,
        ) is None,
    decreases fields.len(),
{
    if fields.len() > 0 {
        let rest = fields.drop_first();
        law_field_is_found_by_name(rest, key);
        assert forall|i: int|
            0 <= i < fields.len() && (#[trigger] fields[i]).0 == key && (forall|j: int|
                0 <= j < i ==> (#[trigger] fields[j]).0 != key) implies lookup(fields, key) == Some(
            fields[i].1,
        ) by {
            if i > 0 {
                assert(fields[0].0 != key);
                assert(rest[i - 1] == fields[i]);
                assert forall|j: int| 0 <= j < i - 1 implies (#[trigger] rest[j]).0 != key by {
                    assert(rest[j] == fields[j + 1]);
                }
            }
        }
        if forall|i: int| 0 <= i < fields.len() ==> (#[trigger] fields[i]).0 != key {
            assert(fields[0].0 != key);
            assert forall|i: int| 0 <= i < rest.len() implies (#[trigger] rest[i]).0 != key by {
                assert(rest[i] == fields[i + 1]);
            }
        }
    }
}

/// A text is read from a field that holds a text, whole; a number from one that holds an unsigned
/// number. No other value than an object has fields.
pub proof fn law_field_is_read_by_kind(document: Json, key: Seq<char>)
    ensures
        field_of(document, key) matches Some(Json::Text(t)) ==> text_field(document, key) == Some(t),
        text_field(document, key) is Some ==> field_of(document, key) matches Some(Json::Text(_)),
        field_of(document, key) matches Some(Json::Unsigned(n)) ==> unsigned_field(document, key)
            == Some(n),
        unsigned_field(document, key) is Some ==> field_of(document, key) matches Some(
            Json::Unsigned(_),
        ),
        !(document is Object) ==> field_of(document, key) is None,
{
}

/// A list of texts holds every text, in order.
pub proof fn law_text_list_holds_all(texts: Seq<Seq<char>>)
    ensures
        text_list(texts) matches Json::List(items) && items.len() == texts.len() && forall|i: int|
            0 <= i < texts.len() ==> #[trigger] items[i] == Json::Text(texts[i]),
{
}

/// `serde_json::Value::from(&str)`: a string value with the same characters.
#[verifier::external_body]
pub(crate) fn text_value(text: &str) -> (value: serde_json::Value)
    ensures
        json_of(value) == Json::Text(text@),
{
    serde_json::Value::from(text)
}

/// `serde_json::Value::from(bool)`: that truth value.
#[verifier::external_body]
pub(crate) fn bool_value(b: bool) -> (value: serde_json::Value)
    ensures
        json_of(value) == Json::Bool(b),
{
    serde_json::Value::from(b)
}

/// `serde_json::Value::from(u64)`: that number.
#[verifier::external_body]
pub(crate) fn number_value(n: u64) -> (value: serde_json::Value)
    ensures
        json_of(value) == Json::Unsigned(n),
{
    serde_json::Value::from(n)
}

/// `serde_json::Value::Array`: a list of those values, in that order.
#[verifier::external_body]
pub(crate) fn list_value(items: Vec<serde_json::Value>) -> (value: serde_json::Value)
    ensures
        json_of(value) == Json::List(list_view(items@)),
{
    serde_json::Value::Array(items)
}

/// `serde_json::Map` collected from an iterator: an object with those fields, in that order. A key
/// that came twice would be kept once, so none may.
#[verifier::external_body]
pub(crate) fn object_value(fields: Vec<(String, serde_json::Value)>) -> (value: serde_json::Value)
    requires
        distinct_keys(fields_view(fields@)),
    ensures
        json_of(value) == Json::Object(fields_view(fields@)),
{
    serde_json::Value::Object(fields.into_iter().collect())
}

/// `serde_json::Value::get` with a string: the field of that name, where the value is an object
/// that has it.
#[verifier::external_body]
fn get<'a>(value: &'a serde_json::Value, key: &str) -> (r: Option<&'a serde_json::Value>)
    ensures
        (match r {
            Some(v) => field_of(json_of(*value), key@) == Some(json_of(*v)),
            None => field_of(json_of(*value), key@) is None,
        }),
{
    value.get(key)
}

/// `serde_json::Value::as_str`: the text, where the value is one.
#[verifier::external_body]
fn as_text(value: &serde_json::Value) -> (r: Option<&str>)
    ensures
        (match r {
            Some(t) => json_of(*value) == Json::Text(t@),
            None => !(json_of(*value) is Text),
        }),
{
    value.as_str()
}

/// `serde_json::Value::as_u64`: the number, where the value is an unsigned 64-bit integer.
#[verifier::external_body]
fn as_unsigned(value: &serde_json::Value) -> (r: Option<u64>)
    ensures
        (match r {
            Some(n) => json_of(*value) == Json::Unsigned(n),
            None => !(json_of(*value) is Unsigned),
        }),
{
    value.as_u64()
}

/// `serde_json::to_string_pretty`: the printed document, which depends on nothing but what the
/// value holds. Printing a value into memory does not fail, and an object is printed between
/// braces.
#[verifier::external_body]
pub(crate) fn to_pretty(value: &serde_json::Value) -> (r: Option<String>)
    ensures
        chars::string_option(r) == pretty_text(json_of(*value)),
        r is Some,
        json_of(*value) is Object ==> r->0@.len() >= 2 && r->0@.first() == '{' && r->0@.last() == '}',
{
    serde_json::to_string_pretty(value).ok()
}

/// The text of the field `key`, where `value` is an object with a text there.
pub fn text_argument<'a>(value: &'a serde_json::Value, key: &str) -> (r: Option<&'a str>)
    ensures
        chars::str_option(r) == text_field(json_of(*value), key@),
{
    match get(value, key) {
        Some(found) => as_text(found),
        None => None,
    }
}

/// The number of the field `key`, where `value` is an object with an unsigned number there.
pub fn unsigned_argument(value: &serde_json::Value, key: &str) -> (r: Option<u64>)
    ensures
        r == unsigned_field(json_of(*value), key@),
{
    match get(value, key) {
        Some(found) => as_unsigned(found),
        None => None,
    }
}

/// The field `key` with the value `value`.
pub(crate) fn field(key: &str, value: serde_json::Value) -> (r: (String, serde_json::Value))
    ensures
        r.0@ == key@,
        json_of(r.1) == json_of(value),
{
    (key.to_string(), value)
}

/// A list of texts.
pub(crate) fn texts_value(texts: &Vec<String>) -> (value: serde_json::Value)
    ensures
        json_of(value) == text_list(chars::string_list(texts@)),
{
    let mut items: Vec<serde_json::Value> = Vec::new();
    let mut i: usize = 0;
    while i < texts.len()
        invariant
            i <= texts.len(),
            items.len() == i,
            forall|j: int| 0 <= j < i ==> json_of(#[trigger] items@[j]) == Json::Text(texts@[j]@),
        decreases texts.len() - i,
    {
        items.push(text_value(texts[i].as_str()));
        i = i + 1;
    }
    let value = list_value(items);
    assert(list_view(items@) =~= chars::string_list(texts@).map_values(
        |t: Seq<char>| Json::Text(t),
    ));
    value
}

} // verus!
