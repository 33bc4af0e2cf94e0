//! The tables and values of the `toml` crate, as far as the cache uses
//! them. Everything here is trusted: the contracts say what the crate's
//! source shows, and nothing proves them.

use vstd::prelude::*;

verus! {

/// A TOML value. Nothing is known of it but what the names below say.
#[verifier::external_type_specification]
#[verifier::external_body]
pub struct ExValue(toml::Value);

/// A TOML table: `toml::Table` is this map from `String` to `toml::Value`.
#[verifier::external_type_specification]
#[verifier::external_body]
#[verifier::reject_recursive_types(K)]
#[verifier::reject_recursive_types(V)]
pub struct ExMap<K, V>(toml::map::Map<K, V>);

/// The error of the TOML parser.
#[verifier::external_type_specification]
#[verifier::external_body]
pub struct ExDeError(toml::de::Error);

/// What a table holds: its values by key.
pub uninterp spec fn table_entries(t: toml::Table) -> Map<Seq<char>, toml::Value>;

/// The text of a value that is a string.
pub uninterp spec fn value_text(v: toml::Value) -> Option<Seq<char>>;

/// The entries of a value that is a table.
pub uninterp spec fn value_table(v: toml::Value) -> Option<Map<Seq<char>, toml::Value>>;

/// The value that is the table with the given entries.
pub uninterp spec fn table_value(entries: Map<Seq<char>, toml::Value>) -> toml::Value;

/// The TOML document that holds the given entries, where there is one.
pub uninterp spec fn toml_document(entries: Map<Seq<char>, toml::Value>) -> Option<Seq<char>>;

/// The entries of the table that a TOML document describes, where the text
/// is such a document.
pub uninterp spec fn toml_parsed(text: Seq<char>) -> Option<Map<Seq<char>, toml::Value>>;

/// No entries at all.
pub open spec fn no_entries() -> Map<Seq<char>, toml::Value> {
    Map::empty()
}

/// `toml::Table::new`: a table without entries.
#[verifier::external_body]
pub(crate) fn table_new() -> (t: toml::Table)
    ensures
        table_entries(t) == no_entries(),
{
    toml::Table::new()
}

/// `toml::map::Map::get`, with the value copied: the value stored under
/// `key`, if there is one.
#[verifier::external_body]
pub(crate) fn table_get(t: &toml::Table, key: &str) -> (r: Option<toml::Value>)
    ensures
        match r {
            Some(v) => table_entries(*t).contains_key(key@) && table_entries(*t)[key@] == v,
            None => !table_entries(*t).contains_key(key@),
        },
{
    t.get(key).cloned()
}

/// `toml::map::Map::contains_key`.
#[verifier::external_body]
pub(crate) fn table_contains(t: &toml::Table, key: &str) -> (r: bool)
    ensures
        r == table_entries(*t).contains_key(key@),
{
    t.contains_key(key)
}

/// `toml::map::Map::insert`: the value stands under the key afterwards,
/// in place of what stood there; the other entries stay.
#[verifier::external_body]
pub(crate) fn table_insert(t: &mut toml::Table, key: String, value: toml::Value)
    ensures
        table_entries(*final(t)) == table_entries(*old(t)).insert(key@, value),
{
    t.insert(key, value);
}

/// `toml::map::Map::remove`: nothing stands under the key afterwards, the
/// other entries stay, and the value that stood under the key is returned.
#[verifier::external_body]
pub(crate) fn table_remove(t: &mut toml::Table, key: &str) -> (r: Option<toml::Value>)
    ensures
        table_entries(*final(t)) == table_entries(*old(t)).remove(key@),
        match r {
            Some(v) => table_entries(*old(t)).contains_key(key@) && table_entries(*old(t))[key@]
                == v,
            None => !table_entries(*old(t)).contains_key(key@),
        },
{
    t.remove(key)
}

/// `Clone` of `toml::map::Map`: a table with the same entries.
#[verifier::external_body]
pub(crate) fn table_copy(t: &toml::Table) -> (r: toml::Table)
    ensures
        table_entries(r) == table_entries(*t),
{
    t.clone()
}

/// The variant `toml::Value::Table`: the value that is the table with the
/// entries of the given table, the same value for the same entries, and no
/// string.
#[verifier::external_body]
pub(crate) fn value_of_table(t: toml::Table) -> (v: toml::Value)
    ensures
        v == table_value(table_entries(t)),
        value_table(v) == Some(table_entries(t)),
        value_text(v) is None,
{
    toml::Value::Table(t)
}

/// `toml::Value::as_table`, with the table copied.
#[verifier::external_body]
pub(crate) fn value_as_table(v: &toml::Value) -> (r: Option<toml::Table>)
    ensures
        match r {
            Some(t) => value_table(*v) == Some(table_entries(t)),
            None => value_table(*v) is None,
        },
{
    v.as_table().cloned()
}

/// The variant `toml::Value::String`: a value that is the given string and
/// no table.
#[verifier::external_body]
pub(crate) fn value_of_text(s: String) -> (v: toml::Value)
    ensures
        value_text(v) == Some(s@),
        value_table(v) is None,
{
    toml::Value::String(s)
}

/// `toml::Value::as_str`, with the string copied.
#[verifier::external_body]
pub(crate) fn value_as_text(v: &toml::Value) -> (r: Option<String>)
    ensures
        match r {
            Some(s) => value_text(*v) == Some(s@),
            None => value_text(*v) is None,
        },
{
    v.as_str().map(String::from)
}

/// `toml::to_string` on a table: the document of its entries, where the
/// serializer gives one.
#[verifier::external_body]
pub(crate) fn table_to_text(t: &toml::Table) -> (r: Option<String>)
    ensures
        match r {
            Some(s) => toml_document(table_entries(*t)) == Some(s@),
            None => toml_document(table_entries(*t)) is None,
        },
{
    toml::to_string(t).ok()
}

/// `toml::Table::from_str`: the table that the text describes, or the
/// parser's error where it describes none.
#[verifier::external_body]
pub(crate) fn table_from_text(text: &str) -> (r: Result<toml::Table, toml::de::Error>)
    ensures
        match r {
            Ok(t) => toml_parsed(text@) == Some(table_entries(t)),
            Err(_) => toml_parsed(text@) is None,
        },
{
    <toml::Table as std::str::FromStr>::from_str(text)
}

} // verus!
