//! Resolution of module names to source locations through the registry.
//!
//! The registry is a document with two classes of modules, each a table from
//! module name to source location: the shared modules under `mod_list`, and
//! the root modules under `root_list`. It is read fresh for every command and
//! handed to these functions as an argument.
use vstd::prelude::*;
use vstd::string::StringExecFns;

use crate::document::{
    entries, nested_text, read_nested_text, sub_table, table_get, table_keys, value_table, Table,
};
use crate::error::OverrideError;
use crate::text::{remove_quotes, trim_end_slashes, trim_trailing_slashes, unquoted};

verus! {

/// The class of shared modules, searched first.
pub open spec fn shared_class() -> Seq<char> {
    "mod_list"@
}

/// The class of root modules, searched after the shared ones.
pub open spec fn root_class() -> Seq<char> {
    "root_list"@
}

/// The location listed for `name` in `class`, without its quotes. An entry
/// that is not a string lists nothing.
pub open spec fn class_location(registry: Table, class: Seq<char>, name: Seq<char>) -> Option<
    Seq<char>,
> {
    match nested_text(registry, class, name) {
        Some(s) => Some(unquoted(s)),
        None => None,
    }
}

/// The location of module `name`: the shared class wins over the root class;
/// trailing path separators of the name are ignored.
pub open spec fn resolution(registry: Table, name: Seq<char>) -> Option<Seq<char>> {
    let key = trim_end_slashes(name);
    match class_location(registry, shared_class(), key) {
        Some(loc) => Some(loc),
        None => class_location(registry, root_class(), key),
    }
}

/// The location listed for `name` in one class of the registry.
fn lookup_class(registry: &Table, class: &str, name: &str) -> (r: Option<String>)
    ensures
        match r {
            Some(loc) => class_location(*registry, class@, name@) == Some(loc@),
            None => class_location(*registry, class@, name@) is None,
        },
{
    match read_nested_text(registry, class, name) {
        Some(s) => Some(remove_quotes(s.as_str())),
        None => None,
    }
}

/// Resolves a module name to its source location: first among the shared
/// modules, then among the root modules. Fails with `ModuleNotFound`, naming
/// the module, when neither class lists it.
pub fn resolve(registry: &Table, name: &str) -> (r: Result<String, OverrideError>)
    ensures
        match r {
            Ok(loc) => resolution(*registry, name@) == Some(loc@),
            Err(e) => {
                &&& resolution(*registry, name@) is None
                &&& (e matches OverrideError::ModuleNotFound(n) && n@ == trim_end_slashes(name@))
            },
        },
{
    let key = trim_trailing_slashes(name);
    match lookup_class(registry, "mod_list", key.as_str()) {
        Some(loc) => Ok(loc),
        None => match lookup_class(registry, "root_list", key.as_str()) {
            Some(loc) => Ok(loc),
            None => Err(OverrideError::ModuleNotFound(key)),
        },
    }
}

/// Resolves the root module of a new project, among the root modules only.
pub fn resolve_root(registry: &Table, root: &str) -> (r: Result<String, OverrideError>)
    ensures
        match r {
            Ok(loc) => class_location(*registry, root_class(), root@) == Some(loc@),
            Err(e) => {
                &&& class_location(*registry, root_class(), root@) is None
                &&& (e matches OverrideError::ModuleNotFound(n) && n@ == root@)
            },
        },
{
    match lookup_class(registry, "root_list", root) {
        Some(loc) => Ok(loc),
        None => Err(OverrideError::ModuleNotFound(String::from_str(root))),
    }
}

/// Whether `names` lists the keys of `m`, each once, in some order.
pub open spec fn lists_keys(names: Seq<String>, m: Map<Seq<char>, toml::Value>) -> bool {
    &&& forall|i: int| 0 <= i < names.len() ==> m.contains_key(#[trigger] names[i]@)
    &&& forall|k: Seq<char>|
        #[trigger] m.contains_key(k) ==> exists|i: int| 0 <= i < names.len() && #[trigger] names[i]@ == k
    &&& forall|i: int, j: int| 0 <= i < j < names.len() ==> names[i]@ != names[j]@
}

/// The class that a listing shows: the shared modules by default, the root
/// modules for `root`; no other class can be listed.
pub fn listing_class(class: Option<&str>) -> (r: Option<String>)
    ensures
        match class {
            None => r matches Some(c) && c@ == shared_class(),
            Some(c) => if c@ == "root"@ {
                r matches Some(k) && k@ == root_class()
            } else {
                r is None
            },
        },
{
    match class {
        None => Some(String::from_str("mod_list")),
        Some(c) => if String::from_str(c) == String::from_str("root") {
            Some(String::from_str("root_list"))
        } else {
            None
        },
    }
}

/// The names of the modules of a class, when the registry holds it.
pub fn module_names(registry: &Table, class: &str) -> (r: Option<Vec<String>>)
    ensures
        r is None <==> sub_table(*registry, class@) is None,
        r matches Some(names) ==> sub_table(*registry, class@) matches Some(t) && lists_keys(
            names@,
            entries(t),
        ),
{
    match table_get(registry, class) {
        Some(v) => match value_table(v) {
            Some(t) => Some(table_keys(t)),
            None => None,
        },
        None => None,
    }
}

/// Resolution by priority, over what the registry lists for a name without
/// trailing path separators: a string entry among the shared modules gives
/// the location, whether or not the root modules list the name too; failing
/// that, a string entry among the root modules gives it; a name listed in
/// neither class does not resolve.
pub proof fn lemma_resolution_priority(registry: Table, name: Seq<char>)
    requires
        name.len() == 0 || name.last() != '/',
    ensures
        nested_text(registry, shared_class(), name) matches Some(s) ==> resolution(registry, name)
            == Some(unquoted(s)),
        nested_text(registry, shared_class(), name) is None ==> (nested_text(
            registry,
            root_class(),
            name,
        ) matches Some(s) ==> resolution(registry, name) == Some(unquoted(s))),
        resolution(registry, name) is None <==> (nested_text(registry, shared_class(), name) is None
            && nested_text(registry, root_class(), name) is None),
{
    assert(trim_end_slashes(name) == name);
}

} // verus!
