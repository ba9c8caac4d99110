use vstd::prelude::*;

verus! {

/// A JSON document as a mathematical value.
///
/// A number that the parser holds as an integer is `Integer`; every other
/// number (one written with a fraction or an exponent, or one too large for
/// 64 bits) is `Real`, whose value the library never reads.
pub enum JsonModel {
    Null,
    Bool(bool),
    Integer(int),
    Real,
    Text(Seq<char>),
    List(Seq<JsonModel>),
    Record(Map<Seq<char>, JsonModel>),
}

/// `serde_json::Value`, a parsed JSON document. Nothing is known of a value
/// but what the functions below say of it.
#[verifier::external_type_specification]
#[verifier::external_body]
pub struct ExValue(serde_json::Value);

/// `serde_json::Error`, the parser's refusal of a text. It is carried from
/// `parse` to `error_text` and not looked into.
#[verifier::external_type_specification]
#[verifier::external_body]
pub struct ExJsonError(serde_json::Error);

/// The document that a `serde_json::Value` holds.
pub uninterp spec fn json_of(value: serde_json::Value) -> JsonModel;

/// The document that `serde_json` reads from a text, or `None` where it
/// refuses the text.
pub uninterp spec fn parsed_json(bytes: Seq<u8>) -> Option<JsonModel>;

/// `serde_json::from_slice` at the type `serde_json::Value`: reads one JSON
/// document from the whole of `bytes`. Trusted: the call succeeds exactly on
/// the texts that `parsed_json` accepts, and the value it returns holds the
/// document that `parsed_json` names.
#[verifier::external_body]
pub(crate) fn parse(bytes: &[u8]) -> (r: Result<serde_json::Value, serde_json::Error>)
    ensures
        r is Ok ==> parsed_json(bytes@) == Some(json_of(r->Ok_0)),
        r is Err ==> parsed_json(bytes@) is None,
{
    serde_json::from_slice::<serde_json::Value>(bytes)
}

/// `serde_json::Error`'s `Display`, through `to_string`: the parser's own
/// account of why it refused a text. Trusted, with nothing claimed of the words.
#[verifier::external_body]
pub(crate) fn error_text(error: &serde_json::Error) -> (text: String) {
    error.to_string()
}

/// `serde_json::Value::as_array`: the elements of an array, in their order, and
/// `None` for every other value.
pub assume_specification<'a>[ serde_json::Value::as_array ](value: &'a serde_json::Value) -> (r:
    Option<&'a Vec<serde_json::Value>>)
    ensures
        r is Some <==> json_of(*value) is List,
        r is Some ==> r->Some_0@.len() == json_of(*value)->List_0.len(),
        r is Some ==> forall|i: int|
            0 <= i < r->Some_0@.len() ==> #[trigger] json_of(r->Some_0@[i]) == json_of(
                *value,
            )->List_0[i],
;

/// `serde_json::Value::is_object`: whether the value is an object.
pub assume_specification[ serde_json::Value::is_object ](value: &serde_json::Value) -> (r: bool)
    ensures
        r == (json_of(*value) is Record),
;

/// `serde_json::Value::is_null`: whether the value is `null`.
pub assume_specification[ serde_json::Value::is_null ](value: &serde_json::Value) -> (r: bool)
    ensures
        r == (json_of(*value) is Null),
;

/// `serde_json::Value::as_str`: the characters of a string, and `None` for
/// every other value.
pub assume_specification<'a>[ serde_json::Value::as_str ](value: &'a serde_json::Value) -> (r:
    Option<&'a str>)
    ensures
        r is Some <==> json_of(*value) is Text,
        r is Some ==> r->Some_0@ == json_of(*value)->Text_0,
;

/// `serde_json::Value::as_i64`: the number where the value is an integer that
/// fits in an `i64`, and `None` for every other value.
pub assume_specification[ serde_json::Value::as_i64 ](value: &serde_json::Value) -> (r: Option<i64>)
    ensures
        r is Some <==> (json_of(*value) is Integer && i64::MIN <= json_of(*value)->Integer_0
            <= i64::MAX),
        r is Some ==> r->Some_0 == json_of(*value)->Integer_0,
;

/// `serde_json::Value::get` with a string index: what an object holds under
/// `key`, and `None` where the value is no object or the object lacks the key.
#[verifier::external_body]
pub(crate) fn member<'a>(value: &'a serde_json::Value, key: &str) -> (r: Option<
    &'a serde_json::Value,
>)
    ensures
        r is Some <==> (json_of(*value) is Record && json_of(*value)->Record_0.dom().contains(
            key@,
        )),
        r is Some ==> json_of(*r->Some_0) == json_of(*value)->Record_0[key@],
{
    value.get(key)
}

} // verus!
