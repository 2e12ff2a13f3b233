//! The override table of the build manifest.
//!
//! The manifest is a document whose `patch` table maps source locations to
//! tables of module bindings, each binding a record `{ path = local path }`.
//! The `patch` table is created on the first binding. Every change here is
//! made on the whole parsed document, which is then serialized as a whole:
//! comments and layout of the text that was read are not kept.
use vstd::prelude::*;
use vstd::string::StringExecFns;

use crate::document::{
    copy_sub_table, entries, new_table, parse_document, parsed, render_document, rendered, sub_entries, sub_table,
    table_get, table_insert, table_remove, table_of, table_slot, table_value, text_of, text_value, clone_table,
    value_table, Table,
};
use crate::error::OverrideError;

verus! {

/// The key of the override table.
pub open spec fn patch_key() -> Seq<char> {
    "patch"@
}

/// The key of the dependencies table.
pub open spec fn dependencies_key() -> Seq<char> {
    "dependencies"@
}

/// Whether `v` is the record `{ field = value }` and nothing more.
pub open spec fn is_record(v: toml::Value, field: Seq<char>, value: Seq<char>) -> bool {
    match table_of(v) {
        Some(t) => {
            &&& entries(t).dom() == set![field]
            &&& text_of(entries(t)[field]) == Some(value)
        },
        None => false,
    }
}

/// The override table: each source location with its table of bindings.
/// Empty when the manifest has none.
pub open spec fn overrides(doc: Table) -> Map<Seq<char>, toml::Value> {
    sub_entries(doc, patch_key())
}

/// The bindings recorded for `location`: module name to binding record.
pub open spec fn bindings(doc: Table, location: Seq<char>) -> Map<Seq<char>, toml::Value> {
    if overrides(doc).contains_key(location) {
        match table_of(overrides(doc)[location]) {
            Some(t) => entries(t),
            None => Map::empty(),
        }
    } else {
        Map::empty()
    }
}

/// Whether a binding for `location` can be added to `doc`: the override table
/// and the location's entry in it are each absent or a table.
pub open spec fn can_bind(doc: Table, location: Seq<char>) -> bool {
    &&& table_slot(doc, patch_key())
    &&& (sub_table(doc, patch_key()) matches Some(p) ==> table_slot(p, location))
}

/// `after` is `before` with `module` bound to `path` under `location`, and
/// nothing else changed.
pub open spec fn binding_added(
    before: Table,
    after: Table,
    location: Seq<char>,
    module: Seq<char>,
    path: Seq<char>,
) -> bool {
    &&& entries(after).remove(patch_key()) == entries(before).remove(patch_key())
    &&& sub_table(after, patch_key()) is Some
    &&& overrides(after).remove(location) == overrides(before).remove(location)
    &&& overrides(after).contains_key(location)
    &&& table_of(overrides(after)[location]) is Some
    &&& bindings(after, location).remove(module) == bindings(before, location).remove(module)
    &&& bindings(after, location).contains_key(module)
    &&& is_record(bindings(after, location)[module], "path"@, path)
}

/// `after` is `before` without the entry of `location` in the override table
/// (all of its bindings at once), and nothing else changed.
pub open spec fn binding_removed(before: Table, after: Table, location: Seq<char>) -> bool {
    &&& entries(after).remove(patch_key()) == entries(before).remove(patch_key())
    &&& sub_table(after, patch_key()) is Some
    &&& overrides(after) == overrides(before).remove(location)
}

/// `after` is `before` with the dependency `name` set to `{ git = location }`,
/// and nothing else changed.
pub open spec fn dependency_set(
    before: Table,
    after: Table,
    name: Seq<char>,
    location: Seq<char>,
) -> bool {
    &&& entries(after).remove(dependencies_key()) == entries(before).remove(dependencies_key())
    &&& sub_table(after, dependencies_key()) is Some
    &&& sub_entries(after, dependencies_key()).remove(name) == sub_entries(
        before,
        dependencies_key(),
    ).remove(name)
    &&& sub_entries(after, dependencies_key()).contains_key(name)
    &&& is_record(sub_entries(after, dependencies_key())[name], "git"@, location)
}

/// The record `{ field = value }`.
fn record(field: &str, value: &str) -> (r: toml::Value)
    ensures
        is_record(r, field@, value@),
{
    let mut t = new_table();
    table_insert(&mut t, String::from_str(field), text_value(String::from_str(value)));
    assert(entries(t).dom() =~= set![field@]);
    table_value(t)
}

/// Binds `module` to the local `path` under `location` in the override table,
/// creating the table and the location's entry when they are missing and
/// replacing an earlier binding of the module. Fails with
/// `ManifestParseError`, leaving `doc` as it was, when the override table or
/// the location's entry exists but is not a table.
pub fn add_override(doc: &mut Table, location: &str, module: &str, path: &str) -> (r: Result<
    (),
    OverrideError,
>)
    ensures
        r is Ok <==> can_bind(*old(doc), location@),
        r is Err ==> r == Err::<(), OverrideError>(OverrideError::ManifestParseError) && *final(doc)
            == *old(doc),
        r is Ok ==> binding_added(*old(doc), *final(doc), location@, module@, path@),
{
    let mut patch = match copy_sub_table(doc, "patch") {
        Ok(t) => t,
        Err(_) => return Err(OverrideError::ManifestParseError),
    };
    let mut unit = match copy_sub_table(&patch, location) {
        Ok(t) => t,
        Err(_) => return Err(OverrideError::ManifestParseError),
    };
    let ghost patch0 = patch;
    let ghost unit0 = unit;
    table_insert(&mut unit, String::from_str(module), record("path", path));
    let ghost unit1 = unit;
    table_insert(&mut patch, String::from_str(location), table_value(unit));
    table_insert(doc, String::from_str("patch"), table_value(patch));
    proof {
        assert(entries(*final(doc)).remove(patch_key()) =~= entries(*old(doc)).remove(patch_key()));
        assert(overrides(*final(doc)) == entries(patch));
        assert(entries(patch).remove(location@) =~= entries(patch0).remove(location@));
        assert(bindings(*final(doc), location@) == entries(unit1));
        assert(bindings(*old(doc), location@) == entries(unit0));
        assert(entries(unit1).remove(module@) =~= entries(unit0).remove(module@));
    }
    Ok(())
}

/// Drops the entry of `location` from the override table, with every module
/// bound under it. Fails with `OverrideTableMissing` when the manifest has no
/// override table, and with `ManifestParseError` when it is not a table; `doc`
/// is then left as it was.
pub fn remove_override(doc: &mut Table, location: &str) -> (r: Result<(), OverrideError>)
    ensures
        r == Err::<(), OverrideError>(OverrideError::OverrideTableMissing) <==> !entries(
            *old(doc),
        ).contains_key(patch_key()),
        r == Err::<(), OverrideError>(OverrideError::ManifestParseError) <==> entries(
            *old(doc),
        ).contains_key(patch_key()) && sub_table(*old(doc), patch_key()) is None,
        r is Ok <==> sub_table(*old(doc), patch_key()) is Some,
        r is Err ==> *final(doc) == *old(doc),
        r is Ok ==> binding_removed(*old(doc), *final(doc), location@),
{
    let mut patch = match table_get(doc, "patch") {
        None => return Err(OverrideError::OverrideTableMissing),
        Some(v) => match value_table(v) {
            None => return Err(OverrideError::ManifestParseError),
            Some(t) => clone_table(t),
        },
    };
    table_remove(&mut patch, location);
    table_insert(doc, String::from_str("patch"), table_value(patch));
    assert(entries(*final(doc)).remove(patch_key()) =~= entries(*old(doc)).remove(patch_key()));
    Ok(())
}

/// Whether the override table holds an entry for `location`.
pub fn holds_override(doc: &Table, location: &str) -> (r: bool)
    ensures
        r == overrides(*doc).contains_key(location@),
{
    match table_get(doc, "patch") {
        None => false,
        Some(v) => match value_table(v) {
            None => false,
            Some(t) => match table_get(t, location) {
                Some(_) => true,
                None => false,
            },
        },
    }
}

/// Sets the dependency `name` of a new project to `{ git = location }`.
/// Fails with `ManifestParseError`, leaving `doc` as it was, when the manifest
/// has no dependencies table.
pub fn set_git_dependency(doc: &mut Table, name: &str, location: &str) -> (r: Result<
    (),
    OverrideError,
>)
    ensures
        r is Ok <==> sub_table(*old(doc), dependencies_key()) is Some,
        r is Err ==> r == Err::<(), OverrideError>(OverrideError::ManifestParseError) && *final(doc)
            == *old(doc),
        r is Ok ==> dependency_set(*old(doc), *final(doc), name@, location@),
{
    let mut deps = match table_get(doc, "dependencies") {
        None => return Err(OverrideError::ManifestParseError),
        Some(v) => match value_table(v) {
            None => return Err(OverrideError::ManifestParseError),
            Some(t) => clone_table(t),
        },
    };
    let ghost deps0 = deps;
    table_insert(&mut deps, String::from_str(name), record("git", location));
    table_insert(doc, String::from_str("dependencies"), table_value(deps));
    assert(entries(*final(doc)).remove(dependencies_key()) =~= entries(*old(doc)).remove(
        dependencies_key(),
    ));
    assert(entries(deps).remove(name@) =~= entries(deps0).remove(name@));
    Ok(())
}

/// Parses a registry or manifest document.
pub fn parse(text: &str) -> (r: Result<Table, OverrideError>)
    ensures
        match r {
            Ok(d) => parsed(text@) == Some(d),
            Err(e) => parsed(text@) is None && e == OverrideError::ManifestParseError,
        },
{
    match parse_document(text) {
        Ok(doc) => Ok(doc),
        Err(_) => Err(OverrideError::ManifestParseError),
    }
}

/// Serializes a whole document.
pub fn render(doc: &Table) -> (r: Result<String, OverrideError>)
    ensures
        match r {
            Ok(s) => rendered(*doc) == Some(s@),
            Err(e) => rendered(*doc) is None && e == OverrideError::ManifestWriteError,
        },
{
    match render_document(doc) {
        Ok(s) => Ok(s),
        Err(_) => Err(OverrideError::ManifestWriteError),
    }
}

/// Binds `module` to `path` under `location` in the manifest text, and
/// returns the rewritten text. The document is parsed, changed as
/// [`add_override`] says and serialized as a whole.
pub fn bind_in_manifest(text: &str, location: &str, module: &str, path: &str) -> (r: Result<
    String,
    OverrideError,
>)
    ensures
        r is Ok || r == Err::<String, OverrideError>(OverrideError::ManifestParseError) || r
            == Err::<String, OverrideError>(OverrideError::ManifestWriteError),
        r == Err::<String, OverrideError>(OverrideError::ManifestParseError) <==> (parsed(text@) is None
            || !can_bind(parsed(text@)->0, location@)),
        r matches Ok(s) ==> exists|d: Table|
            #[trigger] rendered(d) == Some(s@) && binding_added(
                parsed(text@)->0,
                d,
                location@,
                module@,
                path@,
            ),
        r == Err::<String, OverrideError>(OverrideError::ManifestWriteError) ==> exists|d: Table|
            #[trigger] rendered(d) is None && binding_added(
                parsed(text@)->0,
                d,
                location@,
                module@,
                path@,
            ),
{
    let mut doc = match parse(text) {
        Ok(d) => d,
        Err(e) => return Err(e),
    };
    let ghost before = doc;
    match add_override(&mut doc, location, module, path) {
        Ok(()) => {
            let out = render(&doc);
            assert(binding_added(before, doc, location@, module@, path@));
            out
        },
        Err(e) => Err(e),
    }
}

/// Removes every binding under `location` from the manifest text, and returns
/// the rewritten text, as [`remove_override`] says.
pub fn unbind_in_manifest(text: &str, location: &str) -> (r: Result<String, OverrideError>)
    ensures
        r is Ok || r == Err::<String, OverrideError>(OverrideError::ManifestParseError) || r
            == Err::<String, OverrideError>(OverrideError::ManifestWriteError) || r == Err::<
            String,
            OverrideError,
        >(OverrideError::OverrideTableMissing),
        r == Err::<String, OverrideError>(OverrideError::ManifestParseError) <==> (parsed(text@) is None
            || (entries(parsed(text@)->0).contains_key(patch_key()) && sub_table(
            parsed(text@)->0,
            patch_key(),
        ) is None)),
        r == Err::<String, OverrideError>(OverrideError::OverrideTableMissing) <==> (parsed(
            text@,
        ) matches Some(d) && !entries(d).contains_key(patch_key())),
        r matches Ok(s) ==> exists|d: Table|
            #[trigger] rendered(d) == Some(s@) && binding_removed(parsed(text@)->0, d, location@),
        r == Err::<String, OverrideError>(OverrideError::ManifestWriteError) ==> exists|d: Table|
            #[trigger] rendered(d) is None && binding_removed(parsed(text@)->0, d, location@),
{
    let mut doc = match parse(text) {
        Ok(d) => d,
        Err(e) => return Err(e),
    };
    let ghost before = doc;
    match remove_override(&mut doc, location) {
        Ok(()) => {
            let out = render(&doc);
            assert(binding_removed(before, doc, location@));
            out
        },
        Err(e) => Err(e),
    }
}

/// Whether the manifest text binds anything under `location`.
pub fn manifest_binds(text: &str, location: &str) -> (r: Result<bool, OverrideError>)
    ensures
        match r {
            Ok(b) => parsed(text@) matches Some(d) && b == overrides(d).contains_key(location@),
            Err(e) => parsed(text@) is None && e == OverrideError::ManifestParseError,
        },
{
    match parse(text) {
        Ok(doc) => Ok(holds_override(&doc, location)),
        Err(e) => Err(e),
    }
}

/// Sets the root dependency of a new project in its manifest text, and
/// returns the rewritten text, as [`set_git_dependency`] says.
pub fn set_root_in_manifest(text: &str, root: &str, location: &str) -> (r: Result<
    String,
    OverrideError,
>)
    ensures
        r is Ok || r == Err::<String, OverrideError>(OverrideError::ManifestParseError) || r
            == Err::<String, OverrideError>(OverrideError::ManifestWriteError),
        r == Err::<String, OverrideError>(OverrideError::ManifestParseError) <==> (parsed(text@) is None
            || sub_table(parsed(text@)->0, dependencies_key()) is None),
        r matches Ok(s) ==> exists|d: Table|
            #[trigger] rendered(d) == Some(s@) && dependency_set(
                parsed(text@)->0,
                d,
                root@,
                location@,
            ),
        r == Err::<String, OverrideError>(OverrideError::ManifestWriteError) ==> exists|d: Table|
            #[trigger] rendered(d) is None && dependency_set(
                parsed(text@)->0,
                d,
                root@,
                location@,
            ),
{
    let mut doc = match parse(text) {
        Ok(d) => d,
        Err(e) => return Err(e),
    };
    let ghost before = doc;
    match set_git_dependency(&mut doc, root, location) {
        Ok(()) => {
            let out = render(&doc);
            assert(dependency_set(before, doc, root@, location@));
            out
        },
        Err(e) => Err(e),
    }
}

/// Going back from a binding: binding a module under a location that the
/// override table did not hold, then removing that location, leaves the
/// override table and the rest of the manifest as they were.
pub proof fn lemma_bind_then_unbind(
    before: Table,
    bound: Table,
    after: Table,
    location: Seq<char>,
    module: Seq<char>,
    path: Seq<char>,
)
    requires
        !overrides(before).contains_key(location),
        binding_added(before, bound, location, module, path),
        binding_removed(bound, after, location),
    ensures
        overrides(after) == overrides(before),
        entries(after).remove(patch_key()) == entries(before).remove(patch_key()),
        bindings(after, location).dom().is_empty(),
{
    assert(overrides(before).remove(location) =~= overrides(before));
    assert(overrides(after) =~= overrides(bound).remove(location));
    assert(bindings(after, location) =~= Map::<Seq<char>, toml::Value>::empty());
}

/// Unbinding works on the whole location: once its entry is removed, no module
/// is bound under it, whichever module the unbinding was asked for, and every
/// other location keeps its bindings.
pub proof fn lemma_unbind_drops_every_binding(before: Table, after: Table, location: Seq<char>)
    requires
        binding_removed(before, after, location),
    ensures
        !overrides(after).contains_key(location),
        bindings(after, location).dom().is_empty(),
        forall|other: Seq<char>|
            other != location ==> #[trigger] bindings(after, other) == bindings(before, other),
{
    assert(bindings(after, location) =~= Map::<Seq<char>, toml::Value>::empty());
}

} // verus!
