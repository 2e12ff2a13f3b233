//! Decisions behind the project commands: the target architecture, the
//! arguments of the build tool, and the root declaration of a new project.
use vstd::prelude::*;
use vstd::string::StringExecFns;

use crate::text::{trim_text, trimmed};

verus! {

/// The architectures that a project can be configured for.
pub open spec fn supported_archs() -> Set<Seq<char>> {
    set!["x86_64"@, "aarch64"@, "riscv64"@, "loongarch64"@, "um"@]
}

/// The architecture used when none was configured.
pub open spec fn fallback_arch() -> Seq<char> {
    "riscv64"@
}

/// Whether `arch` is one of the supported architectures.
pub fn is_supported_arch(arch: &str) -> (r: bool)
    ensures
        r == supported_archs().contains(arch@),
{
    let a = String::from_str(arch);
    a == String::from_str("x86_64") || a == String::from_str("aarch64") || a == String::from_str(
        "riscv64",
    ) || a == String::from_str("loongarch64") || a == String::from_str("um")
}

/// The configured architecture: the saved setting without surrounding
/// whitespace, or the fallback when nothing was saved.
pub fn arch_or_default(saved: Option<&str>) -> (r: String)
    ensures
        match saved {
            Some(s) => r@ == trimmed(s@),
            None => r@ == fallback_arch(),
        },
{
    match saved {
        Some(s) => String::from_str(trim_text(s)),
        None => String::from_str("riscv64"),
    }
}

/// The arguments of the build tool for `arch`; with `run`, the target that
/// runs the kernel.
pub fn make_arguments(arch: &str, run: bool) -> (r: Vec<String>)
    ensures
        r@.len() == if run {
            2int
        } else {
            1int
        },
        r@[0]@ == "ARCH="@ + arch@,
        run ==> r@[1]@ == "run"@,
{
    let mut args: Vec<String> = Vec::new();
    args.push(String::from_str("ARCH=").concat(arch));
    if run {
        args.push(String::from_str("run"));
    }
    args
}

/// The line that a new project's entry file gets to name its root module.
pub fn root_declaration(root: &str) -> (r: String)
    ensures
        r@ == "use "@ + root@ + " as root;"@,
{
    String::from_str("use ").concat(root).concat(" as root;")
}

} // verus!
