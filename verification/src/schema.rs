//! Reading one field of a document against its declared type.
//!
//! A profile is made of sections, each a table of fields. A field is a
//! string, a boolean, an array of strings or an array of pairs of strings.
//! Booleans and arrays have a default, which stands in for a field that the
//! document leaves out; a string has none. A section that the document
//! leaves out is read as a section without fields.
//!
//! A field that cannot be read is a fault of the same kind as a text that is
//! not well-formed: a parse error, whose message names the field.

use vstd::prelude::*;
use crate::document::{contents, custom_error, entry, lookup, value_content, Node};
use crate::profile::{ProfileError, ProfileFault};

verus! {

/// The fault for a field without a default that the document leaves out.
pub open spec fn missing_field(path: Seq<char>) -> ProfileFault {
    ProfileFault::TomlParseError("missing field `"@ + path + "`"@)
}

/// The fault for a field, or a section, that holds a value of another type
/// than `expected`.
pub open spec fn invalid_type(path: Seq<char>, expected: Seq<char>) -> ProfileFault {
    ProfileFault::TomlParseError("invalid type for `"@ + path + "`: expected "@ + expected)
}

/// The fields of the section `name` of a document. A value under `name` that
/// is no table is a fault at `name`.
pub open spec fn section_fields(document: Node, name: Seq<char>) -> Result<
    Map<Seq<char>, Node>,
    ProfileFault,
> {
    match lookup(document, name) {
        None => Ok(Map::empty()),
        Some(Node::Table(fields)) => Ok(fields),
        Some(_) => Err(invalid_type(name, "a table"@)),
    }
}

/// The string under `key`. The field has no default: where it is absent the
/// fault says so. `path` is the field's full name, for the fault.
pub open spec fn required_text(
    fields: Map<Seq<char>, Node>,
    key: Seq<char>,
    path: Seq<char>,
) -> Result<Seq<char>, ProfileFault> {
    if !fields.contains_key(key) {
        Err(missing_field(path))
    } else {
        match fields[key] {
            Node::Text(text) => Ok(text),
            _ => Err(invalid_type(path, "a string"@)),
        }
    }
}

/// The boolean under `key`, `false` where the field is absent.
pub open spec fn flag_or_false(
    fields: Map<Seq<char>, Node>,
    key: Seq<char>,
    path: Seq<char>,
) -> Result<bool, ProfileFault> {
    if !fields.contains_key(key) {
        Ok(false)
    } else {
        match fields[key] {
            Node::Flag(flag) => Ok(flag),
            _ => Err(invalid_type(path, "a boolean"@)),
        }
    }
}

/// Every item is a string.
pub open spec fn all_texts(items: Seq<Node>) -> bool {
    forall|i: int| 0 <= i < items.len() ==> #[trigger] items[i] is Text
}

/// The strings of an array of strings, in order.
pub open spec fn texts_of(items: Seq<Node>) -> Seq<Seq<char>> {
    Seq::new(items.len(), |i: int| items[i]->Text_0)
}

/// The array of strings under `key`, empty where the field is absent.
pub open spec fn texts_or_empty(
    fields: Map<Seq<char>, Node>,
    key: Seq<char>,
    path: Seq<char>,
) -> Result<Seq<Seq<char>>, ProfileFault> {
    if !fields.contains_key(key) {
        Ok(Seq::empty())
    } else {
        match fields[key] {
            Node::List(items) if all_texts(items) => Ok(texts_of(items)),
            _ => Err(invalid_type(path, "an array of strings"@)),
        }
    }
}

/// The node is an array of exactly two strings.
pub open spec fn is_pair(node: Node) -> bool {
    &&& node matches Node::List(halves)
    &&& halves.len() == 2
    &&& halves[0] is Text
    &&& halves[1] is Text
}

/// The two strings of a pair.
pub open spec fn pair_of(node: Node) -> (Seq<char>, Seq<char>) {
    (node->List_0[0]->Text_0, node->List_0[1]->Text_0)
}

/// Every item is a pair of strings.
pub open spec fn all_pairs(items: Seq<Node>) -> bool {
    forall|i: int| 0 <= i < items.len() ==> #[trigger] is_pair(items[i])
}

/// The pairs of an array of pairs, in order.
pub open spec fn pairs_of(items: Seq<Node>) -> Seq<(Seq<char>, Seq<char>)> {
    Seq::new(items.len(), |i: int| pair_of(items[i]))
}

/// The array of pairs of strings under `key`, empty where the field is
/// absent.
pub open spec fn pairs_or_empty(
    fields: Map<Seq<char>, Node>,
    key: Seq<char>,
    path: Seq<char>,
) -> Result<Seq<(Seq<char>, Seq<char>)>, ProfileFault> {
    if !fields.contains_key(key) {
        Ok(Seq::empty())
    } else {
        match fields[key] {
            Node::List(items) if all_pairs(items) => Ok(pairs_of(items)),
            _ => Err(invalid_type(path, "an array of pairs of strings"@)),
        }
    }
}

/// The fields that a section in hand holds: those of its table, none where
/// the document has no such section.
pub open spec fn held(section: Option<&toml::Value>) -> Map<Seq<char>, Node> {
    match section {
        Some(table) => match value_content(*table) {
            Node::Table(fields) => fields,
            _ => Map::empty(),
        },
        None => Map::empty(),
    }
}

/// Makes the error for a field without a default that is left out.
fn missing_field_error(path: &str) -> (r: ProfileError)
    ensures
        r@ == missing_field(path@),
{
    let mut message = "missing field `".to_owned();
    message.append(path);
    message.append("`");
    ProfileError::TomlParseError(custom_error(message.as_str()))
}

/// Makes the error for a field of another type than `expected`.
fn invalid_type_error(path: &str, expected: &str) -> (r: ProfileError)
    ensures
        r@ == invalid_type(path@, expected@),
{
    let mut message = "invalid type for `".to_owned();
    message.append(path);
    message.append("`: expected ");
    message.append(expected);
    ProfileError::TomlParseError(custom_error(message.as_str()))
}

/// Finds the section `name` of a document.
pub(crate) fn section<'a>(document: &'a toml::Value, name: &str) -> (r: Result<
    Option<&'a toml::Value>,
    ProfileError,
>)
    ensures
        match r {
            Ok(found) => section_fields(value_content(*document), name@) == Ok::<
                Map<Seq<char>, Node>,
                ProfileFault,
            >(held(found)),
            Err(error) => section_fields(value_content(*document), name@) == Err::<
                Map<Seq<char>, Node>,
                ProfileFault,
            >(error@),
        },
{
    match entry(document, name) {
        None => Ok(None),
        Some(value) => {
            if value.is_table() {
                Ok(Some(value))
            } else {
                Err(invalid_type_error(name, "a table"))
            }
        },
    }
}

/// The value that a section holds under `key`.
fn field<'a>(section: Option<&'a toml::Value>, key: &str) -> (r: Option<&'a toml::Value>)
    ensures
        match r {
            Some(value) => held(section).contains_key(key@) && held(section)[key@]
                == value_content(*value),
            None => !held(section).contains_key(key@),
        },
{
    match section {
        None => None,
        Some(table) => entry(table, key),
    }
}

/// Reads a string that has no default.
pub(crate) fn read_text(section: Option<&toml::Value>, key: &str, path: &str) -> (r: Result<
    String,
    ProfileError,
>)
    ensures
        match r {
            Ok(text) => required_text(held(section), key@, path@) == Ok::<Seq<char>, ProfileFault>(
                text@,
            ),
            Err(error) => required_text(held(section), key@, path@) == Err::<
                Seq<char>,
                ProfileFault,
            >(error@),
        },
{
    match field(section, key) {
        None => Err(missing_field_error(path)),
        Some(value) => match value.as_str() {
            Some(text) => Ok(text.to_owned()),
            None => Err(invalid_type_error(path, "a string")),
        },
    }
}

/// Reads a boolean, `false` by default.
pub(crate) fn read_flag(section: Option<&toml::Value>, key: &str, path: &str) -> (r: Result<
    bool,
    ProfileError,
>)
    ensures
        match r {
            Ok(flag) => flag_or_false(held(section), key@, path@) == Ok::<bool, ProfileFault>(flag),
            Err(error) => flag_or_false(held(section), key@, path@) == Err::<bool, ProfileFault>(
                error@,
            ),
        },
{
    match field(section, key) {
        None => Ok(false),
        Some(value) => match value.as_bool() {
            Some(flag) => Ok(flag),
            None => Err(invalid_type_error(path, "a boolean")),
        },
    }
}

/// The strings of `items`, or `None` at the first item that is no string.
fn collect_texts(items: &Vec<toml::Value>) -> (r: Option<Vec<String>>)
    ensures
        match r {
            Some(texts) => all_texts(contents(items@)) && texts.deep_view() == texts_of(
                contents(items@),
            ),
            None => !all_texts(contents(items@)),
        },
{
    let mut texts: Vec<String> = Vec::new();
    let mut i: usize = 0;
    while i < items.len()
        invariant
            i <= items.len(),
            texts.len() == i,
            forall|j: int| 0 <= j < i ==> #[trigger] contents(items@)[j] == Node::Text(texts@[j]@),
        decreases items.len() - i,
    {
        match items[i].as_str() {
            Some(text) => texts.push(text.to_owned()),
            None => {
                assert(!(contents(items@)[i as int] is Text));
                return None;
            },
        }
        i += 1;
    }
    assert(texts.deep_view() =~= texts_of(contents(items@)));
    Some(texts)
}

/// Reads an array of strings, empty by default.
pub(crate) fn read_texts(section: Option<&toml::Value>, key: &str, path: &str) -> (r: Result<
    Vec<String>,
    ProfileError,
>)
    ensures
        match r {
            Ok(texts) => texts_or_empty(held(section), key@, path@) == Ok::<
                Seq<Seq<char>>,
                ProfileFault,
            >(texts.deep_view()),
            Err(error) => texts_or_empty(held(section), key@, path@) == Err::<
                Seq<Seq<char>>,
                ProfileFault,
            >(error@),
        },
{
    match field(section, key) {
        None => {
            let texts: Vec<String> = Vec::new();
            assert(texts.deep_view() =~= Seq::<Seq<char>>::empty());
            Ok(texts)
        },
        Some(value) => {
            if let Some(items) = value.as_array() {
                if let Some(texts) = collect_texts(items) {
                    return Ok(texts);
                }
            }
            Err(invalid_type_error(path, "an array of strings"))
        },
    }
}

/// The two strings of `item`, or `None` where it is no pair of strings.
fn read_pair(item: &toml::Value) -> (r: Option<(String, String)>)
    ensures
        match r {
            Some(pair) => is_pair(value_content(*item)) && pair.deep_view() == pair_of(
                value_content(*item),
            ),
            None => !is_pair(value_content(*item)),
        },
{
    match item.as_array() {
        None => None,
        Some(halves) => {
            if halves.len() != 2 {
                return None;
            }
            assert(contents(halves@)[0] == value_content(halves@[0]));
            assert(contents(halves@)[1] == value_content(halves@[1]));
            match (halves[0].as_str(), halves[1].as_str()) {
                (Some(first), Some(second)) => Some((first.to_owned(), second.to_owned())),
                _ => None,
            }
        },
    }
}

/// The pairs of `items`, or `None` at the first item that is no pair.
fn collect_pairs(items: &Vec<toml::Value>) -> (r: Option<Vec<(String, String)>>)
    ensures
        match r {
            Some(pairs) => all_pairs(contents(items@)) && pairs.deep_view() == pairs_of(
                contents(items@),
            ),
            None => !all_pairs(contents(items@)),
        },
{
    let mut pairs: Vec<(String, String)> = Vec::new();
    let mut i: usize = 0;
    while i < items.len()
        invariant
            i <= items.len(),
            pairs.len() == i,
            forall|j: int|
                0 <= j < i ==> #[trigger] is_pair(contents(items@)[j]) && pairs@[j].deep_view()
                    == pair_of(contents(items@)[j]),
        decreases items.len() - i,
    {
        match read_pair(&items[i]) {
            Some(pair) => pairs.push(pair),
            None => {
                assert(!is_pair(contents(items@)[i as int]));
                return None;
            },
        }
        i += 1;
    }
    assert forall|j: int| 0 <= j < items.len() implies #[trigger] pairs.deep_view()[j]
        == pairs_of(contents(items@))[j] by {
        assert(is_pair(contents(items@)[j]));
    }
    assert(pairs.deep_view() =~= pairs_of(contents(items@)));
    Some(pairs)
}

/// Reads an array of pairs of strings, empty by default.
pub(crate) fn read_pairs(section: Option<&toml::Value>, key: &str, path: &str) -> (r: Result<
    Vec<(String, String)>,
    ProfileError,
>)
    ensures
        match r {
            Ok(pairs) => pairs_or_empty(held(section), key@, path@) == Ok::<
                Seq<(Seq<char>, Seq<char>)>,
                ProfileFault,
            >(pairs.deep_view()),
            Err(error) => pairs_or_empty(held(section), key@, path@) == Err::<
                Seq<(Seq<char>, Seq<char>)>,
                ProfileFault,
            >(error@),
        },
{
    match field(section, key) {
        None => {
            let pairs: Vec<(String, String)> = Vec::new();
            assert(pairs.deep_view() =~= Seq::<(Seq<char>, Seq<char>)>::empty());
            Ok(pairs)
        },
        Some(value) => {
            if let Some(items) = value.as_array() {
                if let Some(pairs) = collect_pairs(items) {
                    return Ok(pairs);
                }
            }
            Err(invalid_type_error(path, "an array of pairs of strings"))
        },
    }
}

} // verus!
