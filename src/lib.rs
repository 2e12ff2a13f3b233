//! Local module overrides for a component-based kernel project: resolving a
//! module name through the registry, binding and unbinding a local working copy
//! in the build manifest, and the checks that guard unbinding.
mod document;
mod error;
mod lifecycle;
mod manifest;
mod project;
mod registry;
mod text;

pub use document::Table;
pub use error::OverrideError;
pub use text::{container_name, remove_quotes, trim_trailing_slashes};
pub use manifest::{
    add_override, bind_in_manifest, holds_override, manifest_binds, parse, remove_override, render,
    set_git_dependency, set_root_in_manifest, unbind_in_manifest,
};
pub use lifecycle::{get_step, plan, put_step, Action, GetEvent, Outcome, PutEvent, Target};
pub use project::{arch_or_default, is_supported_arch, make_arguments, root_declaration};
pub use registry::{listing_class, module_names, resolve, resolve_root};
