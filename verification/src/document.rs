//! The TOML document model.
//!
//! The text of a profile is parsed by the `toml` crate. Its values stay in
//! `toml`'s own type; the verified code reads them through the few accessors
//! declared here, whose contracts are stated over [`Node`], the mathematical
//! content of a value. The parser's diagnostic stays in `toml`'s type too,
//! and stands in contracts as its message.

use vstd::prelude::*;

verus! {

/// `toml::Value`, a parsed TOML value. Its inside is hidden from the verifier:
/// all that is known of a value is its [`value_content`].
#[verifier::external_type_specification]
#[verifier::external_body]
pub struct ExValue(toml::Value);

/// `toml::de::Error`, the diagnostic that `toml` gives for a text it cannot
/// read. All that is known of one is its [`diagnostic`].
#[verifier::external_type_specification]
#[verifier::external_body]
pub struct ExSyntaxError(toml::de::Error);

/// What a TOML value holds, as far as a profile reads it.
pub enum Node {
    /// A string.
    Text(Seq<char>),
    /// A boolean.
    Flag(bool),
    /// An array, in the order of the text.
    List(Seq<Node>),
    /// A table: a section or an inline table, by key.
    Table(Map<Seq<char>, Node>),
    /// An integer, a float or a date-time: no field of a profile takes one.
    Other,
}

/// The content of a `toml::Value`.
pub uninterp spec fn value_content(value: toml::Value) -> Node;

/// The message of a diagnostic: what `toml::de::Error::message` gives for it.
pub uninterp spec fn diagnostic(error: toml::de::Error) -> Seq<char>;

/// What `toml` reads from a text: the document, or the message of its
/// diagnostic where the text is not well-formed TOML.
pub uninterp spec fn toml_document(text: Seq<char>) -> Result<Node, Seq<char>>;

/// The entry of a table under a key; `None` for a missing key and for a node
/// that is no table.
pub open spec fn lookup(node: Node, key: Seq<char>) -> Option<Node> {
    match node {
        Node::Table(entries) => if entries.contains_key(key) {
            Some(entries[key])
        } else {
            None
        },
        _ => None,
    }
}

/// The contents of the items of an array.
pub open spec fn contents(items: Seq<toml::Value>) -> Seq<Node> {
    Seq::new(items.len(), |i: int| value_content(items[i]))
}

/// `toml::Value::as_str`: the string of a value that is a string, `None` for
/// any other value.
pub assume_specification<'a>[ toml::Value::as_str ](value: &'a toml::Value) -> (r: Option<&'a str>)
    ensures
        match r {
            Some(text) => value_content(*value) == Node::Text(text@),
            None => !(value_content(*value) is Text),
        },
;

/// `toml::Value::as_bool`: the boolean of a value that is a boolean, `None`
/// for any other value.
pub assume_specification[ toml::Value::as_bool ](value: &toml::Value) -> (r: Option<bool>)
    ensures
        match r {
            Some(flag) => value_content(*value) == Node::Flag(flag),
            None => !(value_content(*value) is Flag),
        },
;

/// `toml::Value::as_array`: the items of a value that is an array, `None` for
/// any other value.
pub assume_specification<'a>[ toml::Value::as_array ](value: &'a toml::Value) -> (r: Option<&'a Vec<toml::Value>>)
    ensures
        match r {
            Some(items) => value_content(*value) == Node::List(contents(items@)),
            None => !(value_content(*value) is List),
        },
;

/// `toml::Value::is_table`: whether a value is a table.
pub assume_specification[ toml::Value::is_table ](value: &toml::Value) -> (r: bool)
    ensures
        r == (value_content(*value) is Table),
;

/// `toml::Value::get` with a string index: the value that a table holds under
/// `key`. A table without that key gives `None`, and so does a value that is
/// no table.
#[verifier::external_body]
pub(crate) fn entry<'a>(table: &'a toml::Value, key: &str) -> (r: Option<&'a toml::Value>)
    ensures
        match r {
            Some(value) => lookup(value_content(*table), key@) == Some(value_content(*value)),
            None => lookup(value_content(*table), key@) is None,
        },
{
    table.get(key)
}

/// `toml::from_str` at the type `toml::Table`: parses a whole document. The
/// result is the table of the document's top level, handed on as a value, or
/// the error that `toml` reports. The same text always parses alike, which is
/// all that [`toml_document`] says.
#[verifier::external_body]
pub(crate) fn parse_document(text: &str) -> (r: Result<toml::Value, toml::de::Error>)
    ensures
        match r {
            Ok(document) => toml_document(text@) == Ok::<Node, Seq<char>>(
                value_content(document),
            ) && value_content(document) is Table,
            Err(error) => toml_document(text@) == Err::<Node, Seq<char>>(diagnostic(error)),
        },
{
    match toml::from_str::<toml::Table>(text) {
        Ok(table) => Ok(toml::Value::Table(table)),
        Err(error) => Err(error),
    }
}

/// `serde::de::Error::custom` at the type `toml::de::Error`: a diagnostic
/// whose message is the given one.
#[verifier::external_body]
pub(crate) fn custom_error(message: &str) -> (r: toml::de::Error)
    ensures
        diagnostic(r) == message@,
{
    <toml::de::Error as serde::de::Error>::custom(message)
}

} // verus!
