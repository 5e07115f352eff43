use vstd::prelude::*;
use crate::format::FileFormat;
use crate::record::{Foo, FooView};

verus! {

/// The record, if any, that `text` denotes as a JSON object with the optional
/// keys `name` (array of strings) and `id` (unsigned integer); unknown keys
/// are ignored, a `null` value counts as absent.
pub uninterp spec fn json_record_of(text: Seq<char>) -> Option<FooView>;

/// The record, if any, that `text` denotes as a YAML mapping with the same
/// optional keys as the JSON form.
pub uninterp spec fn yaml_record_of(text: Seq<char>) -> Option<FooView>;

/// The record, if any, that `text` denotes as a TOML table with the same
/// optional keys as the JSON form.
pub uninterp spec fn toml_record_of(text: Seq<char>) -> Option<FooView>;

/// The text that a byte sequence decodes to as UTF-8, with every invalid
/// sequence replaced rather than rejected.
pub uninterp spec fn lossy_decoded(bytes: Seq<u8>) -> Seq<char>;

/// Relies on `String::from_utf8_lossy`: the result is a pure function of the
/// bytes; invalid UTF-8 is replaced with the replacement character.
#[verifier::external_body]
pub(crate) fn utf8_lossy(bytes: &Vec<u8>) -> (r: String)
    ensures
        r@ == lossy_decoded(bytes@),
{
    String::from_utf8_lossy(bytes).into_owned()
}

/// Relies on `serde_json::from_str::<serde_json::Value>` and the `Value`
/// accessors `as_object`, `get`, `is_null`, `as_u64`, `as_array` and `as_str`:
/// the parse of the text depends on the text alone.
#[verifier::external_body]
pub(crate) fn decode_json(text: &str) -> (r: Option<Foo>)
    ensures
        r is Some <==> json_record_of(text@) is Some,
        r is Some ==> r->0@ == json_record_of(text@)->0,
{
    let v: serde_json::Value = match serde_json::from_str(text) { Ok(v) => v, Err(_) => return None };
    let m = v.as_object()?;
    let id = match m.get("id") {
        None => None, Some(x) if x.is_null() => None, Some(x) => Some(x.as_u64()?),
    };
    let name = match m.get("name") {
        None => None, Some(x) if x.is_null() => None,
        Some(x) => Some(x.as_array()?.iter().map(|e| e.as_str().map(String::from)).collect::<Option<Vec<String>>>()?),
    };
    Some(Foo { name, id })
}

/// Relies on `serde_yaml::from_str::<serde_yaml::Value>` and the `Value`
/// accessors `as_mapping`, `get`, `is_null`, `as_u64`, `as_sequence` and
/// `as_str`: the parse of the text depends on the text alone.
#[verifier::external_body]
pub(crate) fn decode_yaml(text: &str) -> (r: Option<Foo>)
    ensures
        r is Some <==> yaml_record_of(text@) is Some,
        r is Some ==> r->0@ == yaml_record_of(text@)->0,
{
    let v: serde_yaml::Value = match serde_yaml::from_str(text) { Ok(v) => v, Err(_) => return None };
    let m = v.as_mapping()?;
    let id = match m.get("id") {
        None => None, Some(x) if x.is_null() => None, Some(x) => Some(x.as_u64()?),
    };
    let name = match m.get("name") {
        None => None, Some(x) if x.is_null() => None,
        Some(x) => Some(x.as_sequence()?.iter().map(|e| e.as_str().map(String::from)).collect::<Option<Vec<String>>>()?),
    };
    Some(Foo { name, id })
}

/// Relies on `toml::from_str::<toml::Value>` and the `Value` accessors
/// `as_table`, `get`, `as_integer`, `as_array` and `as_str`: the parse of the
/// text depends on the text alone.
#[verifier::external_body]
pub(crate) fn decode_toml(text: &str) -> (r: Option<Foo>)
    ensures
        r is Some <==> toml_record_of(text@) is Some,
        r is Some ==> r->0@ == toml_record_of(text@)->0,
{
    let v: toml::Value = match toml::from_str(text) { Ok(v) => v, Err(_) => return None };
    let m = v.as_table()?;
    let id = match m.get("id") {
        None => None, Some(x) => Some(u64::try_from(x.as_integer()?).ok()?),
    };
    let name = match m.get("name") {
        None => None,
        Some(x) => Some(x.as_array()?.iter().map(|e| e.as_str().map(String::from)).collect::<Option<Vec<String>>>()?),
    };
    Some(Foo { name, id })
}

/// What decoding `text` in format `f` yields.
pub open spec fn spec_decode(f: FileFormat, text: Seq<char>) -> Option<FooView> {
    match f {
        FileFormat::Json => json_record_of(text),
        FileFormat::Yaml => yaml_record_of(text),
        FileFormat::Toml => toml_record_of(text),
    }
}

/// Decode `text` in the given format.
pub fn decode_as(f: FileFormat, text: &str) -> (r: Option<Foo>)
    ensures
        r is Some <==> spec_decode(f, text@) is Some,
        r is Some ==> r->0@ == spec_decode(f, text@)->0,
{
    match f {
        FileFormat::Json => decode_json(text),
        FileFormat::Yaml => decode_yaml(text),
        FileFormat::Toml => decode_toml(text),
    }
}

} // verus!
