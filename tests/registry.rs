use lktool::{
    container_name, listing_class, module_names, parse, plan, remove_quotes, resolve, resolve_root,
    trim_trailing_slashes, OverrideError,
};

const REGISTRY: &str = r#"
[mod_list]
alpha = "https://example/repo-x"
beta = "'https://example/repo-x'"
shared = "https://example/common"

[root_list]
shared = "https://example/root-copy"
rootmod = "https://example/roots/rootmod"
"#;

#[test]
fn remove_quotes_strips_both_ends() {
    assert_eq!(remove_quotes("\"abc\""), "abc");
    assert_eq!(remove_quotes("'abc'"), "abc");
    assert_eq!(remove_quotes("\"'a\"b'\""), "a\"b");
    assert_eq!(remove_quotes("abc"), "abc");
    assert_eq!(remove_quotes("\"\"''"), "");
    assert_eq!(remove_quotes(""), "");
}

#[test]
fn trailing_slashes_are_trimmed() {
    assert_eq!(trim_trailing_slashes("alpha//"), "alpha");
    assert_eq!(trim_trailing_slashes("alpha"), "alpha");
    assert_eq!(trim_trailing_slashes("a/b/"), "a/b");
    assert_eq!(trim_trailing_slashes("///"), "");
}

#[test]
fn container_is_last_segment() {
    assert_eq!(container_name("https://example/repo-x"), "repo-x");
    assert_eq!(container_name("repo-y"), "repo-y");
    assert_eq!(container_name("https://example/"), "");
}

#[test]
fn shared_class_wins() {
    let reg = parse(REGISTRY).unwrap();
    assert_eq!(resolve(&reg, "shared").unwrap(), "https://example/common");
}

#[test]
fn root_class_is_searched_second() {
    let reg = parse(REGISTRY).unwrap();
    assert_eq!(resolve(&reg, "rootmod").unwrap(), "https://example/roots/rootmod");
    assert_eq!(resolve(&reg, "rootmod/").unwrap(), "https://example/roots/rootmod");
}

#[test]
fn resolved_location_loses_quotes() {
    let reg = parse(REGISTRY).unwrap();
    assert_eq!(resolve(&reg, "beta").unwrap(), "https://example/repo-x");
}

#[test]
fn absent_module_is_not_found() {
    let reg = parse(REGISTRY).unwrap();
    assert_eq!(
        resolve(&reg, "gamma/"),
        Err(OverrideError::ModuleNotFound("gamma".to_string()))
    );
    assert_eq!(
        plan(&reg, "gamma").unwrap_err(),
        OverrideError::ModuleNotFound("gamma".to_string())
    );
}

#[test]
fn root_resolution_uses_root_class_only() {
    let reg = parse(REGISTRY).unwrap();
    assert_eq!(resolve_root(&reg, "shared").unwrap(), "https://example/root-copy");
    assert_eq!(
        resolve_root(&reg, "alpha"),
        Err(OverrideError::ModuleNotFound("alpha".to_string()))
    );
}

#[test]
fn plan_derives_container_and_path() {
    let reg = parse(REGISTRY).unwrap();
    let t = plan(&reg, "alpha/").unwrap();
    assert_eq!(t.module, "alpha");
    assert_eq!(t.location, "https://example/repo-x");
    assert_eq!(t.container, "repo-x");
    assert_eq!(t.path, "repo-x/alpha");
}

#[test]
fn listing_picks_class() {
    assert_eq!(listing_class(None), Some("mod_list".to_string()));
    assert_eq!(listing_class(Some("root")), Some("root_list".to_string()));
    assert_eq!(listing_class(Some("other")), None);
}

#[test]
fn module_names_lists_each_key() {
    let reg = parse(REGISTRY).unwrap();
    let mut names = module_names(&reg, "mod_list").unwrap();
    names.sort();
    assert_eq!(names, vec!["alpha", "beta", "shared"]);
    assert_eq!(module_names(&reg, "missing"), None);
}

#[test]
fn registry_parse_error() {
    assert_eq!(parse("[mod_list"), Err(OverrideError::ManifestParseError));
}
