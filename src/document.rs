//! The structured documents (registry and manifest) as the `toml` crate holds
//! them. Each trusted function here makes one call into `toml`; the names
//! below say what a table holds, what a value reads as, and what parsing and
//! serializing give. `copy_sub_table` and `read_nested_text` are verified
//! functions built on those calls.
use vstd::prelude::*;
use vstd::string::StringExecFns;

verus! {

#[verifier::external_type_specification]
#[verifier::external_body]
#[verifier::reject_recursive_types(K)]
#[verifier::reject_recursive_types(V)]
pub struct ExTomlMap<K, V>(toml::map::Map<K, V>);

#[verifier::external_type_specification]
#[verifier::external_body]
pub struct ExTomlValue(toml::Value);

#[verifier::external_type_specification]
#[verifier::external_body]
pub struct ExTomlDeError(toml::de::Error);

#[verifier::external_type_specification]
#[verifier::external_body]
pub struct ExTomlSerError(toml::ser::Error);

/// A document, or one of its tables: string keys to values.
pub type Table = toml::map::Map<String, toml::Value>;

/// What a table holds: each key with its value.
pub uninterp spec fn entries(t: Table) -> Map<Seq<char>, toml::Value>;

/// The string a value holds, when it is a string.
pub uninterp spec fn text_of(v: toml::Value) -> Option<Seq<char>>;

/// The table a value holds, when it is a table.
pub uninterp spec fn table_of(v: toml::Value) -> Option<Table>;

/// Relies on `toml::map::Map::new`: a table with no entries.
#[verifier::external_body]
pub(crate) fn new_table() -> (r: Table)
    ensures
        entries(r).dom().is_empty(),
{
    toml::map::Map::new()
}

/// Relies on `toml::map::Map::get`: the value stored under `key`, if any.
#[verifier::external_body]
pub(crate) fn table_get<'a>(t: &'a Table, key: &str) -> (r: Option<&'a toml::Value>)
    ensures
        match r {
            Some(v) => entries(*t).contains_key(key@) && entries(*t)[key@] == *v,
            None => !entries(*t).contains_key(key@),
        },
{
    t.get(key)
}

/// Relies on `toml::map::Map::insert`: stores `v` under `key`, replacing what
/// was there.
#[verifier::external_body]
pub(crate) fn table_insert(t: &mut Table, key: String, v: toml::Value)
    ensures
        entries(*final(t)) == entries(*old(t)).insert(key@, v),
{
    t.insert(key, v);
}

/// Relies on `toml::map::Map::remove`: drops the entry under `key`, if any.
#[verifier::external_body]
pub(crate) fn table_remove(t: &mut Table, key: &str)
    ensures
        entries(*final(t)) == entries(*old(t)).remove(key@),
{
    t.remove(key);
}

/// Relies on `Clone` for `toml::map::Map`: a copy with the same entries.
#[verifier::external_body]
pub(crate) fn clone_table(t: &Table) -> (r: Table)
    ensures
        entries(r) == entries(*t),
{
    t.clone()
}

/// Relies on `toml::Value::as_str`: the string held by a string value.
#[verifier::external_body]
pub(crate) fn value_text<'a>(v: &'a toml::Value) -> (r: Option<&'a str>)
    ensures
        match r {
            Some(s) => text_of(*v) == Some(s@),
            None => text_of(*v) is None,
        },
{
    v.as_str()
}

/// Relies on `toml::Value::as_table`: the table held by a table value.
#[verifier::external_body]
pub(crate) fn value_table<'a>(v: &'a toml::Value) -> (r: Option<&'a Table>)
    ensures
        match r {
            Some(t) => table_of(*v) == Some(*t),
            None => table_of(*v) is None,
        },
{
    v.as_table()
}

/// Relies on the `toml::Value::Table` variant: a value holding `t`.
#[verifier::external_body]
pub(crate) fn table_value(t: Table) -> (r: toml::Value)
    ensures
        table_of(r) == Some(t),
{
    toml::Value::Table(t)
}

/// Relies on the `toml::Value::String` variant: a value holding `s`.
#[verifier::external_body]
pub(crate) fn text_value(s: String) -> (r: toml::Value)
    ensures
        text_of(r) == Some(s@),
{
    toml::Value::String(s)
}

/// Relies on `toml::map::Map::keys`: every key of the table, each once.
#[verifier::external_body]
pub(crate) fn table_keys(t: &Table) -> (r: Vec<String>)
    ensures
        forall|i: int| 0 <= i < r@.len() ==> entries(*t).contains_key(#[trigger] r@[i]@),
        forall|k: Seq<char>|
            #[trigger] entries(*t).contains_key(k) ==> exists|i: int|
                0 <= i < r@.len() && #[trigger] r@[i]@ == k,
        forall|i: int, j: int| 0 <= i < j < r@.len() ==> r@[i]@ != r@[j]@,
{
    t.keys().cloned().collect()
}

/// The document that `text` parses to, or `None` when it does not parse.
pub uninterp spec fn parsed(text: Seq<char>) -> Option<Table>;

/// The text that `doc` serializes to, or `None` when it cannot be serialized.
pub uninterp spec fn rendered(doc: Table) -> Option<Seq<char>>;

/// Relies on `toml::from_str`: parses a whole document; the outcome depends on
/// the text alone.
#[verifier::external_body]
pub(crate) fn parse_document(text: &str) -> (r: Result<Table, toml::de::Error>)
    ensures
        match r {
            Ok(t) => parsed(text@) == Some(t),
            Err(_) => parsed(text@) is None,
        },
{
    toml::from_str::<Table>(text)
}

/// Relies on `toml::to_string`: serializes a whole document; the outcome
/// depends on the document alone.
#[verifier::external_body]
pub(crate) fn render_document(doc: &Table) -> (r: Result<String, toml::ser::Error>)
    ensures
        match r {
            Ok(s) => rendered(*doc) == Some(s@),
            Err(_) => rendered(*doc) is None,
        },
{
    toml::to_string(doc)
}

/// The table stored under `key`, when `doc` holds one there.
pub open spec fn sub_table(doc: Table, key: Seq<char>) -> Option<Table> {
    if entries(doc).contains_key(key) {
        table_of(entries(doc)[key])
    } else {
        None
    }
}

/// Whether `key` can hold a table: it is free, or it already holds one.
pub open spec fn table_slot(doc: Table, key: Seq<char>) -> bool {
    !entries(doc).contains_key(key) || sub_table(doc, key) is Some
}

/// What the table under `key` holds; nothing when there is no table there.
pub open spec fn sub_entries(doc: Table, key: Seq<char>) -> Map<Seq<char>, toml::Value> {
    match sub_table(doc, key) {
        Some(t) => entries(t),
        None => Map::empty(),
    }
}

/// The string stored under `key` in the table under `class`, if any.
pub open spec fn nested_text(doc: Table, class: Seq<char>, key: Seq<char>) -> Option<Seq<char>> {
    if sub_entries(doc, class).contains_key(key) {
        text_of(sub_entries(doc, class)[key])
    } else {
        None
    }
}

/// A copy of the table under `key` (empty when `key` is free), or `Err` when
/// `key` holds something else.
pub(crate) fn copy_sub_table(doc: &Table, key: &str) -> (r: Result<Table, ()>)
    ensures
        r is Ok <==> table_slot(*doc, key@),
        r matches Ok(t) ==> entries(t) == sub_entries(*doc, key@),
{
    match table_get(doc, key) {
        Some(v) => match value_table(v) {
            Some(t) => Ok(clone_table(t)),
            None => Err(()),
        },
        None => Ok(new_table()),
    }
}

/// The string stored under `key` in the table under `class`, if any.
pub(crate) fn read_nested_text(doc: &Table, class: &str, key: &str) -> (r: Option<String>)
    ensures
        match r {
            Some(s) => nested_text(*doc, class@, key@) == Some(s@),
            None => nested_text(*doc, class@, key@) is None,
        },
{
    match table_get(doc, class) {
        Some(v) => match value_table(v) {
            Some(t) => match table_get(t, key) {
                Some(e) => match value_text(e) {
                    Some(s) => Some(String::from_str(s)),
                    None => None,
                },
                None => None,
            },
            None => None,
        },
        None => None,
    }
}

} // verus!
