//! TOML documents as plain values: what the manifest and the container
//! override configuration are read through.
use vstd::prelude::*;

verus! {

#[verifier::external_type_specification]
#[verifier::external_body]
pub struct ExTomlValue(toml::Value);

/// A TOML value. Floats and datetimes, which nothing here reads, are `Other`.
#[derive(Debug)]
pub enum TomlValue {
    Str(String),
    Integer(i64),
    Boolean(bool),
    Array(Vec<TomlValue>),
    Table(Vec<(String, TomlValue)>),
    Other,
}

/// The top-level table that `toml` parses from a text, if it is valid TOML.
pub uninterp spec fn toml_document(text: Seq<char>) -> Option<Vec<(String, TomlValue)>>;

/// Relies on nothing but `toml::Value`'s variants: moves each into the
/// matching `TomlValue`.
#[verifier::external_body]
fn value_from_toml(v: toml::Value) -> TomlValue {
    match v {
        toml::Value::String(s) => TomlValue::Str(s),
        toml::Value::Integer(i) => TomlValue::Integer(i),
        toml::Value::Boolean(b) => TomlValue::Boolean(b),
        toml::Value::Array(a) => TomlValue::Array(a.into_iter().map(value_from_toml).collect()),
        toml::Value::Table(t) => {
            let mut entries = Vec::new();
            for (k, x) in t {
                entries.push((k, value_from_toml(x)));
            }
            TomlValue::Table(entries)
        },
        _ => TomlValue::Other,
    }
}

/// Relies on `toml::Table`'s `FromStr`: parses a document, or reports why not.
#[verifier::external_body]
pub(crate) fn parse_toml(text: &str) -> (r: Result<Vec<(String, TomlValue)>, String>)
    ensures
        r is Ok <==> toml_document(text@) is Some,
        r matches Ok(t) ==> toml_document(text@) == Some(t),
{
    match text.parse::<toml::Table>() {
        Ok(t) => {
            let mut entries = Vec::new();
            for (k, x) in t {
                entries.push((k, value_from_toml(x)));
            }
            Ok(entries)
        },
        Err(e) => Err(e.to_string()),
    }
}

/// The value of the first entry under `key`.
pub open spec fn lookup(entries: Seq<(String, TomlValue)>, key: Seq<char>) -> Option<TomlValue>
    decreases entries.len(),
{
    if entries.len() == 0 {
        None
    } else if entries[0].0@ == key {
        Some(entries[0].1)
    } else {
        lookup(entries.drop_first(), key)
    }
}

/// The value under `key` when `v` is a table.
pub open spec fn field(v: TomlValue, key: Seq<char>) -> Option<TomlValue> {
    match v {
        TomlValue::Table(t) => lookup(t@, key),
        _ => None,
    }
}

/// Finds the value under `key`.
pub fn lookup_key<'a>(entries: &'a Vec<(String, TomlValue)>, key: &str) -> (r: Option<&'a TomlValue>)
    ensures
        match r {
            Some(v) => lookup(entries@, key@) == Some(*v),
            None => lookup(entries@, key@) is None,
        },
{
    let wanted = String::from_str(key);
    let mut i: usize = 0;
    assert(entries@.skip(0) == entries@);
    while i < entries.len()
        invariant
            i <= entries@.len(),
            wanted@ == key@,
            lookup(entries@, key@) == lookup(entries@.skip(i as int), key@),
        decreases entries@.len() - i,
    {
        assert(entries@.skip(i as int).drop_first() == entries@.skip(i + 1));
        assert(entries@.skip(i as int)[0] == entries@[i as int]);
        if entries[i].0 == wanted {
            return Some(&entries[i].1);
        }
        i += 1;
    }
    None
}

/// Finds the value under `key` when `v` is a table.
pub fn field_of<'a>(v: &'a TomlValue, key: &str) -> (r: Option<&'a TomlValue>)
    ensures
        match r {
            Some(x) => field(*v, key@) == Some(*x),
            None => field(*v, key@) is None,
        },
{
    match v {
        TomlValue::Table(t) => lookup_key(t, key),
        _ => None,
    }
}

} // verus!
