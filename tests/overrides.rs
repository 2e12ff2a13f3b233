use lktool::{
    add_override, bind_in_manifest, get_step, holds_override, manifest_binds, parse, plan,
    put_step, remove_override, unbind_in_manifest, Action, GetEvent, OverrideError, Outcome,
    PutEvent,
};

const REGISTRY: &str = r#"
[mod_list]
alpha = "https://example/repo-x"
beta = "https://example/repo-x"

[root_list]
"#;

const MANIFEST: &str = r#"
[package]
name = "proj"

[dependencies]
alpha = { git = "https://example/repo-x" }
"#;

fn binding_path(text: &str, location: &str, module: &str) -> Option<String> {
    let doc: toml::Table = toml::from_str(text).unwrap();
    let patch = doc.get("patch")?.as_table()?;
    let unit = patch.get(location)?.as_table()?;
    let record = unit.get(module)?.as_table()?;
    Some(record.get("path")?.as_str()?.to_string())
}

fn patch_table(text: &str) -> Option<toml::Table> {
    let doc: toml::Table = toml::from_str(text).unwrap();
    Some(doc.get("patch")?.as_table()?.clone())
}

#[test]
fn get_then_put_scenario() {
    let reg = parse(REGISTRY).unwrap();
    let t = plan(&reg, "alpha").unwrap();
    assert_eq!(t.container, "repo-x");
    assert_eq!(get_step(GetEvent::Probed(false)), Action::Checkout);
    assert_eq!(
        get_step(GetEvent::CheckoutFinished { success: true, code: Some(0) }),
        Action::WriteBinding
    );
    let bound = bind_in_manifest(MANIFEST, &t.location, &t.module, &t.path).unwrap();
    assert_eq!(
        binding_path(&bound, "https://example/repo-x", "alpha"),
        Some("repo-x/alpha".to_string())
    );
    assert_eq!(get_step(GetEvent::BindingWritten(Ok(()))), Action::Finish(Outcome::Bound));

    assert_eq!(put_step(PutEvent::Probed(true)), Action::QueryStatus);
    assert_eq!(put_step(PutEvent::StatusReported(Some(String::new()))), Action::QueryUnpushed);
    assert_eq!(put_step(PutEvent::UnpushedReported(Some(String::new()))), Action::WriteUnbinding);
    let unbound = unbind_in_manifest(&bound, &t.location).unwrap();
    assert!(!patch_table(&unbound).unwrap().contains_key("https://example/repo-x"));
    assert_eq!(put_step(PutEvent::UnbindingWritten(Ok(()))), Action::DeleteContainer);
    assert_eq!(put_step(PutEvent::Deleted(true)), Action::Finish(Outcome::Unbound));
}

#[test]
fn round_trip_restores_manifest() {
    let before: toml::Table = toml::from_str(MANIFEST).unwrap();
    let bound = bind_in_manifest(MANIFEST, "https://example/repo-x", "alpha", "repo-x/alpha")
        .unwrap();
    let after_text = unbind_in_manifest(&bound, "https://example/repo-x").unwrap();
    let mut after: toml::Table = toml::from_str(&after_text).unwrap();
    assert!(after.remove("patch").unwrap().as_table().unwrap().is_empty());
    assert_eq!(after, before);
}

#[test]
fn get_on_present_container_is_no_op() {
    assert_eq!(get_step(GetEvent::Probed(true)), Action::Finish(Outcome::AlreadyBound));
}

#[test]
fn put_refuses_dirty_copy() {
    let status = " M foo/src/lib.rs\n".to_string();
    match put_step(PutEvent::StatusReported(Some(status))) {
        Action::Fail(OverrideError::WorkingCopyDirty(s)) => assert!(s.contains("foo/src/lib.rs")),
        other => panic!("unexpected {:?}", other),
    }
}

#[test]
fn put_refuses_unpushed_copy() {
    let stat = " src/lib.rs | 2 +-\n 1 file changed\n".to_string();
    assert_eq!(
        put_step(PutEvent::UnpushedReported(Some(stat.clone()))),
        Action::Fail(OverrideError::UnpushedChanges(stat))
    );
}

#[test]
fn shared_container_unbinds_together() {
    let reg = parse(REGISTRY).unwrap();
    let a = plan(&reg, "alpha").unwrap();
    let b = plan(&reg, "beta").unwrap();
    assert_eq!(a.container, b.container);
    let one = bind_in_manifest(MANIFEST, &a.location, &a.module, &a.path).unwrap();
    let two = bind_in_manifest(&one, &b.location, &b.module, &b.path).unwrap();
    assert_eq!(binding_path(&two, &a.location, "alpha"), Some("repo-x/alpha".to_string()));
    assert_eq!(binding_path(&two, &b.location, "beta"), Some("repo-x/beta".to_string()));
    let three = unbind_in_manifest(&two, &b.location).unwrap();
    assert_eq!(binding_path(&three, &a.location, "alpha"), None);
    assert_eq!(binding_path(&three, &b.location, "beta"), None);
    // The second module's PUT finds no container and a manifest in agreement.
    assert_eq!(put_step(PutEvent::Probed(false)), Action::InspectManifest);
    let still = manifest_binds(&three, &a.location).unwrap();
    assert!(!still);
    assert_eq!(put_step(PutEvent::Inspected(still)), Action::Finish(Outcome::AlreadyUnbound));
}

#[test]
fn unbind_without_override_table() {
    assert_eq!(
        unbind_in_manifest(MANIFEST, "https://example/repo-x"),
        Err(OverrideError::OverrideTableMissing)
    );
    let mut doc = parse(MANIFEST).unwrap();
    let copy = doc.clone();
    assert_eq!(remove_override(&mut doc, "x"), Err(OverrideError::OverrideTableMissing));
    assert_eq!(doc, copy);
}

#[test]
fn malformed_override_table() {
    let text = "patch = 3\n";
    assert_eq!(
        bind_in_manifest(text, "https://example/repo-x", "alpha", "repo-x/alpha"),
        Err(OverrideError::ManifestParseError)
    );
    assert_eq!(unbind_in_manifest(text, "u"), Err(OverrideError::ManifestParseError));
    let mut doc = parse("[patch]\nu = 1\n").unwrap();
    let copy = doc.clone();
    assert_eq!(add_override(&mut doc, "u", "m", "p"), Err(OverrideError::ManifestParseError));
    assert_eq!(doc, copy);
    assert_eq!(bind_in_manifest("[patch", "u", "m", "p"), Err(OverrideError::ManifestParseError));
}

#[test]
fn rebinding_replaces_path() {
    let mut doc = parse(MANIFEST).unwrap();
    add_override(&mut doc, "u", "m", "old/m").unwrap();
    add_override(&mut doc, "u", "m", "new/m").unwrap();
    let text = lktool::render(&doc).unwrap();
    assert_eq!(binding_path(&text, "u", "m"), Some("new/m".to_string()));
    assert!(holds_override(&doc, "u"));
    assert!(!holds_override(&doc, "v"));
}

#[test]
fn failed_checkout_reports_status() {
    assert_eq!(
        get_step(GetEvent::CheckoutFinished { success: false, code: Some(128) }),
        Action::Fail(OverrideError::CheckoutFailed(Some(128)))
    );
    assert_eq!(
        get_step(GetEvent::BindingWritten(Err(OverrideError::ManifestWriteError))),
        Action::Fail(OverrideError::ManifestWriteError)
    );
}

#[test]
fn vcs_failures_and_inconsistency() {
    assert_eq!(
        put_step(PutEvent::StatusReported(None)),
        Action::Fail(OverrideError::VcsUnavailable)
    );
    assert_eq!(
        put_step(PutEvent::UnpushedReported(None)),
        Action::Fail(OverrideError::VcsUnavailable)
    );
    assert_eq!(
        put_step(PutEvent::Inspected(true)),
        Action::Fail(OverrideError::InconsistentOverrideState)
    );
    assert_eq!(
        put_step(PutEvent::Deleted(false)),
        Action::Fail(OverrideError::InconsistentOverrideState)
    );
    assert_eq!(
        put_step(PutEvent::UnbindingWritten(Err(OverrideError::OverrideTableMissing))),
        Action::Fail(OverrideError::OverrideTableMissing)
    );
}

#[test]
fn error_kinds_are_named() {
    assert_eq!(OverrideError::VcsUnavailable.kind(), "VcsUnavailable");
    assert_eq!(OverrideError::ModuleNotFound("x".to_string()).kind(), "ModuleNotFound");
}
