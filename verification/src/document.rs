//! Parsed TOML documents: the tables and values of the `toml` crate, and
//! what the library takes to be known of them.

use vstd::prelude::*;

verus! {

/// Trusted: `toml::map::Map`, the map of keys to values that the `toml`
/// crate uses for tables. Nothing is known of a table but through
/// [`table_model`].
#[verifier::external_type_specification]
#[verifier::external_body]
#[verifier::reject_recursive_types(K)]
#[verifier::reject_recursive_types(V)]
pub struct ExTable<K, V>(toml::map::Map<K, V>);

/// Trusted: `toml::Value`, a value of a document. Nothing is known of a
/// value but through [`value_model`].
#[verifier::external_type_specification]
#[verifier::external_body]
pub struct ExValue(toml::Value);

/// Trusted: `toml::de::Error`, the error of a text that is not valid TOML.
/// It is carried through and nothing is known of it.
#[verifier::external_type_specification]
#[verifier::external_body]
pub struct ExSyntaxError(toml::de::Error);

/// What a TOML value holds, as far as a package definition reads it.
pub ghost enum Node {
    /// A string.
    Text(Seq<char>),
    /// An array, with what each element holds.
    List(Seq<Node>),
    /// A table, with what the value of each key holds.
    Section(Map<Seq<char>, Node>),
    /// An integer, a float, a boolean or a date.
    Other,
}

/// What the `toml` crate makes of a text: the document's top-level table, or
/// `None` where the text is not valid TOML. Left uninterpreted;
/// [`parse_table`] computes it.
pub uninterp spec fn toml_parse(text: Seq<char>) -> Option<Map<Seq<char>, Node>>;

/// What a table of the `toml` crate holds: for each of its keys, what the
/// value holds. Left uninterpreted; [`table_get`] reads it.
pub uninterp spec fn table_model(table: toml::Table) -> Map<Seq<char>, Node>;

/// What a value of the `toml` crate holds. Left uninterpreted;
/// [`value_as_str`], [`value_as_array`] and [`value_as_table`] read it.
pub uninterp spec fn value_model(value: toml::Value) -> Node;

/// What the elements of an array of values hold.
pub open spec fn values_model(values: Seq<toml::Value>) -> Seq<Node> {
    Seq::new(values.len(), |i: int| value_model(values[i]))
}

/// Trusted: calls `toml::from_str` for a `toml::Table`, which parses the
/// text and returns the top-level table of the document, or an error where
/// the text is not valid TOML. The contract only names what is returned.
#[verifier::external_body]
pub(crate) fn parse_table(text: &str) -> (result: Result<toml::Table, toml::de::Error>)
    ensures
        match result {
            Ok(table) => toml_parse(text@) == Some(table_model(table)),
            Err(_) => toml_parse(text@) is None,
        },
{
    toml::from_str::<toml::Table>(text)
}

/// Trusted: calls `Display` of `toml::de::Error` through `to_string`.
/// Nothing is claimed of the text.
#[verifier::external_body]
pub(crate) fn syntax_error_text(error: &toml::de::Error) -> (text: String) {
    error.to_string()
}

/// Trusted: calls `toml::map::Map::get`, which returns the value stored
/// under `key`, or `None` where the table has no such key.
#[verifier::external_body]
pub(crate) fn table_get<'a>(table: &'a toml::Table, key: &str) -> (value: Option<&'a toml::Value>)
    ensures
        match value {
            Some(v) => table_model(*table).get(key@) == Some(value_model(*v)),
            None => !table_model(*table).contains_key(key@),
        },
{
    table.get(key)
}

/// Trusted: calls `toml::Value::as_str`, which returns the string of a
/// `Value::String` and `None` for every other variant.
#[verifier::external_body]
pub(crate) fn value_as_str<'a>(value: &'a toml::Value) -> (text: Option<&'a str>)
    ensures
        match text {
            Some(s) => value_model(*value) == Node::Text(s@),
            None => !(value_model(*value) is Text),
        },
{
    value.as_str()
}

/// Trusted: calls `toml::Value::as_array`, which returns the elements of a
/// `Value::Array` and `None` for every other variant.
#[verifier::external_body]
pub(crate) fn value_as_array<'a>(value: &'a toml::Value) -> (items: Option<&'a Vec<toml::Value>>)
    ensures
        match items {
            Some(values) => value_model(*value) == Node::List(values_model(values@)),
            None => !(value_model(*value) is List),
        },
{
    value.as_array()
}

/// Trusted: calls `toml::Value::as_table`, which returns the table of a
/// `Value::Table` and `None` for every other variant.
#[verifier::external_body]
pub(crate) fn value_as_table<'a>(value: &'a toml::Value) -> (table: Option<&'a toml::Table>)
    ensures
        match table {
            Some(t) => value_model(*value) == Node::Section(table_model(*t)),
            None => !(value_model(*value) is Section),
        },
{
    value.as_table()
}

} // verus!
