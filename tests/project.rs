use lktool::{
    arch_or_default, is_supported_arch, make_arguments, parse, root_declaration,
    set_root_in_manifest, OverrideError,
};

#[test]
fn supported_archs() {
    for a in ["x86_64", "aarch64", "riscv64", "loongarch64", "um"] {
        assert!(is_supported_arch(a));
    }
    assert!(!is_supported_arch("mips"));
    assert!(!is_supported_arch("riscv"));
}

#[test]
fn configured_arch_is_trimmed() {
    assert_eq!(arch_or_default(Some(" x86_64\n")), "x86_64");
    assert_eq!(arch_or_default(None), "riscv64");
}

#[test]
fn build_arguments() {
    assert_eq!(make_arguments("um", false), vec!["ARCH=um"]);
    assert_eq!(make_arguments("aarch64", true), vec!["ARCH=aarch64", "run"]);
}

#[test]
fn root_line() {
    assert_eq!(root_declaration("top"), "use top as root;");
}

#[test]
fn root_dependency_is_set() {
    let text = "[package]\nname = \"proj\"\n\n[dependencies]\nold = \"1\"\ntop = \"2\"\n";
    let out = set_root_in_manifest(text, "top", "https://example/top").unwrap();
    let doc: toml::Table = toml::from_str(&out).unwrap();
    let deps = doc["dependencies"].as_table().unwrap();
    assert_eq!(deps["top"].as_table().unwrap()["git"].as_str(), Some("https://example/top"));
    assert_eq!(deps["top"].as_table().unwrap().len(), 1);
    assert_eq!(deps["old"].as_str(), Some("1"));
    assert!(parse(&out).is_ok());
    assert_eq!(
        set_root_in_manifest("dependencies = 1\n", "top", "u"),
        Err(OverrideError::ManifestParseError)
    );
    assert_eq!(
        set_root_in_manifest("[package]\nname = \"proj\"\n", "top", "u"),
        Err(OverrideError::ManifestParseError)
    );
}
