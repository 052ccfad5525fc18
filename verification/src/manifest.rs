//! The workspace manifest: parsing its text and finding the member list.
//!
//! Parsing is done by the `toml` crate. Its values are opaque to the
//! verifier, so contracts speak of a [`Tree`], the mathematical shape of a
//! TOML value, and the few `toml` functions used here are given contracts
//! over that shape.

use vstd::prelude::*;
use crate::failure::Failure;

verus! {

/// The name of the manifest file, looked for in the current directory.
pub const MANIFEST_FILE: &'static str = "Cargo.toml";

/// The shape of a TOML value, as far as this library looks at it.
pub enum Tree {
    /// A string.
    Text(Seq<char>),
    /// An array, element by element.
    List(Seq<Tree>),
    /// A table, from key to value.
    Table(Map<Seq<char>, Tree>),
    /// An integer, float, boolean or datetime.
    Scalar,
}

/// `toml::Value`, a parsed TOML value. Nothing of its inside is visible
/// here; [`value_tree`] names its shape.
#[verifier::external_type_specification]
#[verifier::external_body]
pub struct ExValue(toml::Value);

/// `toml::map::Map`, of which `toml::Table` is the instance with string
/// keys and `toml::Value` values. [`table_entries`] names what a table
/// holds.
#[verifier::external_type_specification]
#[verifier::external_body]
#[verifier::reject_recursive_types(K)]
#[verifier::reject_recursive_types(V)]
pub struct ExMap<K, V>(toml::map::Map<K, V>);

/// `toml::de::Error`, what the parser reports for text that is not valid
/// TOML. [`error_text`] names the text it displays as.
#[verifier::external_type_specification]
#[verifier::external_body]
pub struct ExParseError(toml::de::Error);

/// The shape of a `toml::Value`.
pub uninterp spec fn value_tree(value: toml::Value) -> Tree;

/// The entries of a `toml::Table`, each value by its shape.
pub uninterp spec fn table_entries(table: toml::Table) -> Map<Seq<char>, Tree>;

/// The entries of the table that `text` parses to as a TOML document, or,
/// where `text` is not valid TOML, the text of the parser's error.
pub uninterp spec fn parsed_manifest(text: Seq<char>) -> Result<Map<Seq<char>, Tree>, Seq<char>>;

/// The text that a `toml::de::Error` displays as.
pub uninterp spec fn error_text(error: toml::de::Error) -> Seq<char>;

/// Calls `str::parse::<toml::Table>`, which is `toml::from_str`. Trusted:
/// the outcome depends on the text alone, so it is named by
/// [`parsed_manifest`], the table by its entries and the error by its text.
#[verifier::external_body]
fn parse_table(text: &str) -> (r: Result<toml::Table, toml::de::Error>)
    ensures
        match r {
            Ok(table) => parsed_manifest(text@) == Ok::<Map<Seq<char>, Tree>, Seq<char>>(
                table_entries(table),
            ),
            Err(error) => parsed_manifest(text@) == Err::<Map<Seq<char>, Tree>, Seq<char>>(
                error_text(error),
            ),
        },
{
    text.parse::<toml::Table>()
}

/// Calls `ToString::to_string` on a `toml::de::Error`. Trusted: the result
/// is the error's display text, named by [`error_text`].
#[verifier::external_body]
fn describe(error: &toml::de::Error) -> (text: String)
    ensures
        text@ == error_text(*error),
{
    error.to_string()
}

/// Calls `toml::map::Map::get` with a string key. Trusted: the value stored
/// under `key` is returned, and `None` exactly when the table has no such
/// key.
#[verifier::external_body]
fn table_get<'a>(table: &'a toml::Table, key: &str) -> (r: Option<&'a toml::Value>)
    ensures
        match r {
            Some(value) => table_entries(*table).contains_key(key@)
                && table_entries(*table)[key@] == value_tree(*value),
            None => !table_entries(*table).contains_key(key@),
        },
{
    table.get(key)
}

/// Calls `toml::Value::get` with a string index. Trusted: for a table that
/// holds `key` the value stored there is returned; for a table without it,
/// and for every value that is not a table, `None`.
#[verifier::external_body]
fn value_get<'a>(value: &'a toml::Value, key: &str) -> (r: Option<&'a toml::Value>)
    ensures
        match r {
            Some(entry) => value_tree(*value) matches Tree::Table(entries)
                && entries.contains_key(key@) && entries[key@] == value_tree(*entry),
            None => !(value_tree(*value) matches Tree::Table(entries) && entries.contains_key(
                key@,
            )),
        },
{
    value.get(key)
}

/// `toml::Value::as_array` returns the elements of an array and `None` for
/// every other value.
pub assume_specification[ toml::Value::as_array ](value: &toml::Value) -> (r: Option<
    &Vec<toml::Value>,
>)
    ensures
        match r {
            Some(items) => value_tree(*value) == Tree::List(
                items@.map_values(|item: toml::Value| value_tree(item)),
            ),
            None => !(value_tree(*value) is List),
        },
;

/// `toml::Value::as_str` returns the text of a string and `None` for every
/// other value.
pub assume_specification[ toml::Value::as_str ](value: &toml::Value) -> (r: Option<&str>)
    ensures
        match r {
            Some(text) => value_tree(*value) == Tree::Text(text@),
            None => !(value_tree(*value) is Text),
        },
;

/// The elements of `workspace.members` in a manifest with the given
/// top-level entries, or the failure that the lookup ends in.
pub open spec fn member_trees(root: Map<Seq<char>, Tree>) -> Result<Seq<Tree>, Failure> {
    if !root.contains_key("workspace"@) {
        Err(Failure::NoWorkspace)
    } else {
        match root["workspace"@] {
            Tree::Table(workspace) => if !workspace.contains_key("members"@) {
                Err(Failure::NoMembers)
            } else {
                match workspace["members"@] {
                    Tree::List(items) => Ok(items),
                    _ => Err(Failure::MembersNotArray),
                }
            },
            _ => Err(Failure::NoMembers),
        }
    }
}

/// The shapes of a vector of values, element by element.
pub open spec fn trees_of(values: Seq<toml::Value>) -> Seq<Tree> {
    values.map_values(|value: toml::Value| value_tree(value))
}

/// Finds the array under `workspace.members`.
pub fn member_values<'a>(table: &'a toml::Table) -> (r: Result<&'a Vec<toml::Value>, Failure>)
    ensures
        match r {
            Ok(values) => member_trees(table_entries(*table)) == Ok::<Seq<Tree>, Failure>(
                trees_of(values@),
            ),
            Err(failure) => member_trees(table_entries(*table)) == Err::<Seq<Tree>, Failure>(
                failure,
            ),
        },
{
    let workspace = match table_get(table, "workspace") {
        Some(workspace) => workspace,
        None => {
            return Err(Failure::NoWorkspace);
        },
    };
    let members = match value_get(workspace, "members") {
        Some(members) => members,
        None => {
            return Err(Failure::NoMembers);
        },
    };
    match members.as_array() {
        Some(values) => Ok(values),
        None => Err(Failure::MembersNotArray),
    }
}

/// The member name that an element of `members` gives: its text where it
/// is a string, nothing otherwise.
pub open spec fn member_name(tree: Tree) -> Option<Seq<char>> {
    match tree {
        Tree::Text(text) => Some(text),
        _ => None,
    }
}

/// The member names of a sequence of elements, one by one.
pub open spec fn names_of(trees: Seq<Tree>) -> Seq<Option<Seq<char>>> {
    trees.map_values(|tree: Tree| member_name(tree))
}

/// Reads each element of the member array as a string. An element that is
/// not a string gives `None` in its place.
pub fn member_names(values: &Vec<toml::Value>) -> (names: Vec<Option<String>>)
    ensures
        names.deep_view() == names_of(trees_of(values@)),
{
    let mut names: Vec<Option<String>> = Vec::new();
    let mut i: usize = 0;
    while i < values.len()
        invariant
            i <= values.len(),
            names.len() == i,
            forall|j: int|
                0 <= j < i ==> (#[trigger] names@[j]).deep_view() == member_name(
                    value_tree(values@[j]),
                ),
        decreases values.len() - i,
    {
        let name = match values[i].as_str() {
            Some(text) => Some(text.to_owned()),
            None => None,
        };
        names.push(name);
        i += 1;
    }
    assert(names.deep_view() =~= names_of(trees_of(values@)));
    names
}

/// What loading a manifest text gives: the top-level entries, or the
/// failure together with the parser's words.
pub open spec fn loaded(text: Seq<char>) -> Result<Map<Seq<char>, Tree>, (Failure, Seq<char>)> {
    match parsed_manifest(text) {
        Ok(entries) => Ok(entries),
        Err(complaint) => Err((Failure::Malformed, complaint)),
    }
}

/// Parses the text of a manifest. Text that is not valid TOML is a
/// `Malformed` failure, handed back with the parser's description of it.
pub fn load(text: &str) -> (r: Result<toml::Table, (Failure, String)>)
    ensures
        match r {
            Ok(table) => loaded(text@) == Ok::<Map<Seq<char>, Tree>, (Failure, Seq<char>)>(
                table_entries(table),
            ),
            Err((failure, complaint)) => loaded(text@) == Err::<
                Map<Seq<char>, Tree>,
                (Failure, Seq<char>),
            >((failure, complaint@)),
        },
{
    match parse_table(text) {
        Ok(table) => Ok(table),
        Err(error) => Err((Failure::Malformed, describe(&error))),
    }
}

} // verus!
