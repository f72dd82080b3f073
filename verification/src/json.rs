//! Reading decoded JSON values.
//!
//! Tokenizing JSON is delegated to `serde_json`; a `serde_json::Value` is
//! opaque here. This module declares that type, names what each of its
//! accessors returns — every one a deterministic function of the value
//! alone — wraps the accessors the decoders call, and provides the checked
//! field readers the response decoders are built from. Among them is the
//! numeric-coercion rule of this library: a field may arrive either as a
//! JSON number or as a JSON string holding decimal text.

use vstd::prelude::*;
use crate::decimal::Decimal;
use crate::decimal::is_decimal_text;

verus! {

/// Why a response body was rejected.
#[derive(Clone, Copy, Debug, PartialEq, Eq, Structural)]
pub enum DecodeError {
    /// The body is not well-formed JSON.
    Syntax,
    /// The JSON shape is wrong: a missing field, or a value of the wrong
    /// kind where no numeric coercion applies.
    Shape,
    /// A numeric field holds neither a number nor a string with decimal text.
    Number,
}

#[verifier::external_type_specification]
#[verifier::external_body]
pub struct ExValue(serde_json::Value);

/// The document `serde_json::from_str` yields for `s`: `None` exactly when
/// the text is not well-formed JSON.
pub uninterp spec fn doc_of(s: Seq<char>) -> Option<serde_json::Value>;

/// The value `serde_json::Value::get` yields for a string key: set exactly
/// when `v` is an object holding `key`.
pub uninterp spec fn field_of(v: serde_json::Value, key: Seq<char>) -> Option<serde_json::Value>;

/// The characters `serde_json::Value::as_str` yields: set exactly when `v`
/// is a JSON string.
pub uninterp spec fn str_of(v: serde_json::Value) -> Option<Seq<char>>;

/// The integer `serde_json::Value::as_u64` yields: set exactly when `v` is
/// a JSON number that is an unsigned integer within `u64`.
pub uninterp spec fn u64_of(v: serde_json::Value) -> Option<u64>;

/// Whether `serde_json::Value::is_null` holds of `v`.
pub uninterp spec fn is_null_of(v: serde_json::Value) -> bool;

/// The text a JSON number of `v` prints as: set exactly when `v` is a
/// number.
pub uninterp spec fn number_text_of(v: serde_json::Value) -> Option<Seq<char>>;

/// The elements of `v`: set exactly when `v` is a JSON array.
pub uninterp spec fn array_of(v: serde_json::Value) -> Option<Seq<serde_json::Value>>;

/// The key/value entries of `v`: set exactly when `v` is a JSON object.
pub uninterp spec fn object_entries_of(v: serde_json::Value) -> Option<
    Seq<(Seq<char>, serde_json::Value)>,
>;

/// Relies on serde_json::from_str: parses a JSON document, `None` when the
/// text is not well-formed JSON.
#[verifier::external_body]
fn json_parse(s: &str) -> (r: Option<serde_json::Value>)
    ensures
        r is Some <==> doc_of(s@) is Some,
        r is Some ==> r->0 == doc_of(s@)->0,
{
    serde_json::from_str(s).ok()
}

/// Relies on serde_json::Value::get (by key): the value of that key when
/// this is an object holding it, `None` otherwise.
#[verifier::external_body]
fn json_get<'a>(v: &'a serde_json::Value, key: &str) -> (r: Option<&'a serde_json::Value>)
    ensures
        r is Some <==> field_of(*v, key@) is Some,
        r is Some ==> *r->0 == field_of(*v, key@)->0,
{
    v.get(key)
}

/// Relies on serde_json::Value::as_str: the characters of a JSON string,
/// `None` for every other kind of value.
#[verifier::external_body]
fn json_str(v: &serde_json::Value) -> (r: Option<&str>)
    ensures
        r is Some <==> str_of(*v) is Some,
        r is Some ==> r->0@ == str_of(*v)->0,
{
    v.as_str()
}

/// Relies on serde_json::Value::as_u64: the value of a JSON number that is
/// an unsigned integer within `u64`, `None` otherwise.
#[verifier::external_body]
fn json_u64(v: &serde_json::Value) -> (r: Option<u64>)
    ensures
        r == u64_of(*v),
{
    v.as_u64()
}

/// Relies on serde_json::Value::is_null.
#[verifier::external_body]
fn json_is_null(v: &serde_json::Value) -> (r: bool)
    ensures
        r == is_null_of(*v),
{
    v.is_null()
}

/// Relies on serde_json::Number's display: a JSON number prints as JSON
/// number text (an optional sign, digits, an optional point with digits,
/// an optional exponent — a number held by serde_json is always finite),
/// which the decimal grammar accepts. `None` for every value that is not a
/// number.
#[verifier::external_body]
fn json_number_text(v: &serde_json::Value) -> (r: Option<String>)
    ensures
        r is Some <==> number_text_of(*v) is Some,
        r is Some ==> r->0@ == number_text_of(*v)->0,
        r is Some ==> is_decimal_text(r->0@),
{
    match v {
        serde_json::Value::Number(n) => Some(n.to_string()),
        _ => None,
    }
}

/// Relies on the `Array` variant of serde_json::Value: the elements of a
/// JSON array, `None` for every other kind of value.
#[verifier::external_body]
fn json_array<'a>(v: &'a serde_json::Value) -> (r: Option<&'a Vec<serde_json::Value>>)
    ensures
        r is Some <==> array_of(*v) is Some,
        r is Some ==> r->0@ == array_of(*v)->0,
{
    match v {
        serde_json::Value::Array(a) => Some(a),
        _ => None,
    }
}

/// Relies on the `Object` variant of serde_json::Value and
/// serde_json::Map::iter: the entries of a JSON object, whose keys are
/// unique. `None` for every other kind of value.
#[verifier::external_body]
fn json_object_entries(v: &serde_json::Value) -> (r: Option<Vec<(String, serde_json::Value)>>)
    ensures
        r is Some <==> object_entries_of(*v) is Some,
        r is Some ==> r->0@.len() == object_entries_of(*v)->0.len(),
        r is Some ==> forall|i: int|
            0 <= i < r->0@.len() ==> (#[trigger] r->0@[i]).0@ == object_entries_of(*v)->0[i].0
                && r->0@[i].1 == object_entries_of(*v)->0[i].1,
        r is Some ==> forall|i: int, j: int|
            0 <= i < j < r->0@.len() ==> r->0@[i].0@ != r->0@[j].0@,
{
    match v {
        serde_json::Value::Object(m) => Some(
            m.iter().map(|(k, val)| (k.clone(), val.clone())).collect(),
        ),
        _ => None,
    }
}

/// The string characters of the field `key` of `v`, when `v` holds that
/// field as a JSON string.
pub open spec fn spec_field_str(v: serde_json::Value, key: Seq<char>) -> Option<Seq<char>> {
    match field_of(v, key) {
        Some(f) => str_of(f),
        None => None,
    }
}

/// The integer of the field `key` of `v`, when `v` holds that field as an
/// unsigned JSON number.
pub open spec fn spec_field_u64(v: serde_json::Value, key: Seq<char>) -> Option<u64> {
    match field_of(v, key) {
        Some(f) => u64_of(f),
        None => None,
    }
}

/// The text the numeric-coercion rule reads from one value: the characters
/// of a JSON string, else a number's text, else nothing.
pub open spec fn spec_coerced_text(v: serde_json::Value) -> Option<Seq<char>> {
    match str_of(v) {
        Some(t) => Some(t),
        None => number_text_of(v),
    }
}

/// The coercible text of the field `key` of `v`.
pub open spec fn spec_field_coerced(v: serde_json::Value, key: Seq<char>) -> Option<Seq<char>> {
    match field_of(v, key) {
        Some(f) => spec_coerced_text(f),
        None => None,
    }
}

/// The number text of the field `key` of `v`, when `v` holds that field as
/// a JSON number.
pub open spec fn spec_field_number_text(v: serde_json::Value, key: Seq<char>) -> Option<
    Seq<char>,
> {
    match field_of(v, key) {
        Some(f) => number_text_of(f),
        None => None,
    }
}

/// The elements of the field `key` of `v`, when `v` holds that field as a
/// JSON array.
pub open spec fn spec_field_array(v: serde_json::Value, key: Seq<char>) -> Option<
    Seq<serde_json::Value>,
> {
    match field_of(v, key) {
        Some(f) => array_of(f),
        None => None,
    }
}

/// The entries of the field `key` of `v`, when `v` holds that field as a
/// JSON object.
pub open spec fn spec_field_entries(v: serde_json::Value, key: Seq<char>) -> Option<
    Seq<(Seq<char>, serde_json::Value)>,
> {
    match field_of(v, key) {
        Some(f) => object_entries_of(f),
        None => None,
    }
}

/// Every entry's value is a JSON string.
pub open spec fn spec_string_entries_ok(es: Seq<(Seq<char>, serde_json::Value)>) -> bool {
    forall|i: int| 0 <= i < es.len() ==> #[trigger] str_of(es[i].1) is Some
}

/// The optional string field `key` of `v` decodes: it is missing, null, or
/// a JSON string.
pub open spec fn spec_opt_field_str_ok(v: serde_json::Value, key: Seq<char>) -> bool {
    match field_of(v, key) {
        Some(f) => is_null_of(f) || str_of(f) is Some,
        None => true,
    }
}

/// What the optional string field `key` of `v` decodes to: nothing when
/// missing or null, else the string's characters.
pub open spec fn spec_opt_field_str(v: serde_json::Value, key: Seq<char>) -> Option<Seq<char>> {
    match field_of(v, key) {
        Some(f) => if is_null_of(f) {
            None
        } else {
            str_of(f)
        },
        None => None,
    }
}

/// Parses `body` as one JSON document: the document exactly when the text
/// is well-formed JSON, the syntax error exactly when it is not.
pub fn parse_document(body: &str) -> (r: Result<serde_json::Value, DecodeError>)
    ensures
        r is Ok <==> doc_of(body@) is Some,
        r is Ok ==> r->Ok_0 == doc_of(body@)->0,
        r is Err ==> r->Err_0 == DecodeError::Syntax,
{
    match json_parse(body) {
        Some(v) => Ok(v),
        None => Err(DecodeError::Syntax),
    }
}

/// Reads the field `key` of `v`, whatever its kind: the field exactly when
/// it is present.
pub fn get_field<'a>(v: &'a serde_json::Value, key: &str) -> (r: Result<
    &'a serde_json::Value,
    DecodeError,
>)
    ensures
        r is Ok <==> field_of(*v, key@) is Some,
        r is Ok ==> *r->Ok_0 == field_of(*v, key@)->0,
        r is Err ==> r->Err_0 == DecodeError::Shape,
{
    match json_get(v, key) {
        Some(f) => Ok(f),
        None => Err(DecodeError::Shape),
    }
}

/// Reads the string field `key` of `v`: its characters exactly when the
/// field is present and a JSON string.
pub fn get_string(v: &serde_json::Value, key: &str) -> (r: Result<String, DecodeError>)
    ensures
        r is Ok <==> spec_field_str(*v, key@) is Some,
        r is Ok ==> r->Ok_0@ == spec_field_str(*v, key@)->0,
        r is Err ==> r->Err_0 == DecodeError::Shape,
{
    match json_get(v, key) {
        Some(f) => match json_str(f) {
            Some(s) => Ok(s.to_owned()),
            None => Err(DecodeError::Shape),
        },
        None => Err(DecodeError::Shape),
    }
}

/// Reads the optional string field `key` of `v`: `None` when the field is
/// missing or null, its characters when it is a JSON string, an error when
/// it is anything else.
pub fn get_opt_string(v: &serde_json::Value, key: &str) -> (r: Result<
    Option<String>,
    DecodeError,
>)
    ensures
        r is Ok <==> spec_opt_field_str_ok(*v, key@),
        r is Ok ==> (r->Ok_0 is Some <==> spec_opt_field_str(*v, key@) is Some),
        r is Ok && r->Ok_0 is Some ==> r->Ok_0->0@ == spec_opt_field_str(*v, key@)->0,
        r is Err ==> r->Err_0 == DecodeError::Shape,
{
    match json_get(v, key) {
        Some(f) => {
            if json_is_null(f) {
                Ok(None)
            } else {
                match json_str(f) {
                    Some(s) => Ok(Some(s.to_owned())),
                    None => Err(DecodeError::Shape),
                }
            }
        },
        None => Ok(None),
    }
}

/// Reads the unsigned-integer field `key` of `v`: its value exactly when
/// the field is present and an unsigned JSON number within `u64`.
pub fn get_u64(v: &serde_json::Value, key: &str) -> (r: Result<u64, DecodeError>)
    ensures
        r is Ok <==> spec_field_u64(*v, key@) is Some,
        r is Ok ==> r->Ok_0 == spec_field_u64(*v, key@)->0,
        r is Err ==> r->Err_0 == DecodeError::Shape,
{
    match json_get(v, key) {
        Some(f) => match json_u64(f) {
            Some(n) => Ok(n),
            None => Err(DecodeError::Shape),
        },
        None => Err(DecodeError::Shape),
    }
}

/// The numeric-coercion rule on one value: a JSON string is accepted
/// exactly when its characters are decimal text; a JSON number is always
/// accepted, through its number text; every other kind of value is
/// refused. The accepted text is kept verbatim.
pub fn coerce_decimal(v: &serde_json::Value) -> (r: Result<Decimal, DecodeError>)
    ensures
        r is Ok <==> (spec_coerced_text(*v) matches Some(t) && is_decimal_text(t)),
        r is Ok ==> r->Ok_0@ == spec_coerced_text(*v)->0 && r->Ok_0.wf(),
        r is Err ==> r->Err_0 == DecodeError::Number,
{
    match json_str(v) {
        Some(s) => match Decimal::from_text(s) {
            Some(d) => Ok(d),
            None => Err(DecodeError::Number),
        },
        None => match json_number_text(v) {
            Some(t) => match Decimal::new(t) {
                Some(d) => Ok(d),
                None => Err(DecodeError::Number),
            },
            None => Err(DecodeError::Number),
        },
    }
}

/// Reads the field `key` of `v` under the numeric-coercion rule: the field
/// must be present and hold a number or decimal-text string.
pub fn get_decimal_coerced(v: &serde_json::Value, key: &str) -> (r: Result<Decimal, DecodeError>)
    ensures
        r is Ok <==> (spec_field_coerced(*v, key@) matches Some(t) && is_decimal_text(t)),
        r is Ok ==> r->Ok_0@ == spec_field_coerced(*v, key@)->0 && r->Ok_0.wf(),
        r is Err ==> r->Err_0 == DecodeError::Shape || r->Err_0 == DecodeError::Number,
{
    match json_get(v, key) {
        Some(f) => coerce_decimal(f),
        None => Err(DecodeError::Shape),
    }
}

/// Reads the field `key` of `v` as a plain JSON number (no string
/// coercion), kept as its number text.
pub fn get_decimal_number(v: &serde_json::Value, key: &str) -> (r: Result<Decimal, DecodeError>)
    ensures
        r is Ok <==> spec_field_number_text(*v, key@) is Some,
        r is Ok ==> r->Ok_0@ == spec_field_number_text(*v, key@)->0 && r->Ok_0.wf(),
        r is Err ==> r->Err_0 == DecodeError::Shape,
{
    match json_get(v, key) {
        Some(f) => match json_number_text(f) {
            Some(t) => match Decimal::new(t) {
                Some(d) => Ok(d),
                None => Err(DecodeError::Shape),
            },
            None => Err(DecodeError::Shape),
        },
        None => Err(DecodeError::Shape),
    }
}

/// Reads the array field `key` of `v`: its elements exactly when the field
/// is present and a JSON array.
pub fn get_array<'a>(v: &'a serde_json::Value, key: &str) -> (r: Result<
    &'a Vec<serde_json::Value>,
    DecodeError,
>)
    ensures
        r is Ok <==> spec_field_array(*v, key@) is Some,
        r is Ok ==> r->Ok_0@ == spec_field_array(*v, key@)->0,
        r is Err ==> r->Err_0 == DecodeError::Shape,
{
    match json_get(v, key) {
        Some(f) => match json_array(f) {
            Some(a) => Ok(a),
            None => Err(DecodeError::Shape),
        },
        None => Err(DecodeError::Shape),
    }
}

/// Reads the document `v` itself as a JSON array: its elements exactly when
/// it is one.
pub fn root_array<'a>(v: &'a serde_json::Value) -> (r: Result<
    &'a Vec<serde_json::Value>,
    DecodeError,
>)
    ensures
        r is Ok <==> array_of(*v) is Some,
        r is Ok ==> r->Ok_0@ == array_of(*v)->0,
        r is Err ==> r->Err_0 == DecodeError::Shape,
{
    match json_array(v) {
        Some(a) => Ok(a),
        None => Err(DecodeError::Shape),
    }
}

/// Reads the object field `key` of `v` as a list of string-to-string
/// entries: it decodes exactly when the field is present, an object, and
/// every entry's value is a JSON string; the entries keep the object's
/// order and their keys are unique.
pub fn get_string_map(v: &serde_json::Value, key: &str) -> (r: Result<
    Vec<(String, String)>,
    DecodeError,
>)
    ensures
        r is Ok <==> (spec_field_entries(*v, key@) matches Some(es) && spec_string_entries_ok(
            es,
        )),
        r is Ok ==> r->Ok_0@.len() == spec_field_entries(*v, key@)->0.len(),
        r is Ok ==> forall|i: int|
            0 <= i < r->Ok_0@.len() ==> (#[trigger] r->Ok_0@[i]).0@ == spec_field_entries(
                *v,
                key@,
            )->0[i].0 && r->Ok_0@[i].1@ == str_of(spec_field_entries(*v, key@)->0[i].1)->0,
        r is Ok ==> forall|i: int, j: int|
            0 <= i < j < r->Ok_0@.len() ==> r->Ok_0@[i].0@ != r->Ok_0@[j].0@,
        r is Err ==> r->Err_0 == DecodeError::Shape,
{
    let entries = match json_get(v, key) {
        Some(f) => match json_object_entries(f) {
            Some(e) => e,
            None => {
                return Err(DecodeError::Shape);
            },
        },
        None => {
            return Err(DecodeError::Shape);
        },
    };
    let ghost es = spec_field_entries(*v, key@)->0;
    let ghost entries_snap = entries@;
    let mut out: Vec<(String, String)> = Vec::new();
    let mut i: usize = 0;
    while i < entries.len()
        invariant
            spec_field_entries(*v, key@) == Some(es),
            entries@ == entries_snap,
            entries@.len() == es.len(),
            forall|m: int|
                0 <= m < entries@.len() ==> (#[trigger] entries@[m]).0@ == es[m].0
                    && entries@[m].1 == es[m].1,
            forall|m: int, n: int|
                0 <= m < n < entries@.len() ==> entries@[m].0@ != entries@[n].0@,
            0 <= i <= entries@.len(),
            out@.len() == i,
            forall|m: int|
                0 <= m < i ==> (#[trigger] out@[m]).0@ == es[m].0 && out@[m].1@ == str_of(
                    es[m].1,
                )->0 && str_of(es[m].1) is Some,
        decreases entries@.len() - i,
    {
        let (k, val) = &entries[i];
        match json_str(val) {
            Some(s) => {
                out.push((k.clone(), s.to_owned()));
            },
            None => {
                proof {
                    assert(str_of(es[i as int].1) is None);
                    assert(!spec_string_entries_ok(es));
                }
                return Err(DecodeError::Shape);
            },
        }
        i += 1;
    }
    proof {
        assert forall|m: int| 0 <= m < es.len() implies #[trigger] str_of(es[m].1) is Some by {
            assert(out@[m].0@ == es[m].0);
        }
        assert forall|m: int, n: int| 0 <= m < n < out@.len() implies out@[m].0@
            != out@[n].0@ by {
            assert(entries@[m].0@ == es[m].0);
            assert(entries@[n].0@ == es[n].0);
            assert(out@[m].0@ == es[m].0);
            assert(out@[n].0@ == es[n].0);
        }
    }
    Ok(out)
}

} // verus!
