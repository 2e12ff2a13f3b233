//! The decisions of binding (GET) and unbinding (PUT) a module.
//!
//! A command first resolves the module to a [`Target`] with [`plan`]. The
//! caller then performs the actions that [`get_step`] and [`put_step`] ask for
//! (probe the local container, check it out, query the version-control tool,
//! rewrite the manifest, delete the container) and hands each result back as
//! an event, starting with the probe of the container. Every decision is
//! taken here; the caller only performs the work.
//!
//! PUT writes the manifest before it deletes the container. When the deletion
//! fails, the command reports `InconsistentOverrideState`; a later PUT finds
//! the container, checks it again, removes the (already absent) bindings and
//! retries the deletion. A manifest that still binds a location whose
//! container is gone is reported the same way and never repaired silently.
//!
//! The caller is assumed to be the only process working on the project
//! directory: the manifest is not locked.
use vstd::prelude::*;
use vstd::string::StringExecFns;

use crate::document::Table;
use crate::error::OverrideError;
use crate::manifest::{binding_removed, overrides};
use crate::registry::{resolution, resolve};
use crate::text::{container_name, last_segment, trim_end_slashes, trim_trailing_slashes};

verus! {

/// A module resolved for binding or unbinding.
#[derive(Debug, Clone, PartialEq, Eq)]
pub struct Target {
    /// The module name, without trailing path separators.
    pub module: String,
    /// The source location that the registry gives for it.
    pub location: String,
    /// The local directory into which the location is checked out.
    pub container: String,
    /// The local path that the manifest binds the module to.
    pub path: String,
}

/// The local path of `module` inside the container.
pub open spec fn binding_path(container: Seq<char>, module: Seq<char>) -> Seq<char> {
    container + "/"@ + module
}

/// Resolves `name` and derives where its working copy lives. Fails with
/// `ModuleNotFound` when the registry does not list the module.
pub fn plan(registry: &Table, name: &str) -> (r: Result<Target, OverrideError>)
    ensures
        match r {
            Ok(t) => {
                &&& resolution(*registry, name@) == Some(t.location@)
                &&& t.module@ == trim_end_slashes(name@)
                &&& t.container@ == last_segment(t.location@)
                &&& t.path@ == binding_path(t.container@, t.module@)
            },
            Err(e) => {
                &&& resolution(*registry, name@) is None
                &&& (e matches OverrideError::ModuleNotFound(n) && n@ == trim_end_slashes(name@))
            },
        },
{
    let location = match resolve(registry, name) {
        Ok(loc) => loc,
        Err(e) => return Err(e),
    };
    let module = trim_trailing_slashes(name);
    let container = container_name(location.as_str());
    let path = container.clone().concat("/").concat(module.as_str());
    Ok(Target { module, location, container, path })
}

/// How a command ended when it did not fail.
#[derive(Debug, Clone, Copy, PartialEq, Eq)]
pub enum Outcome {
    /// The module is now bound to its working copy.
    Bound,
    /// The container was already on disk: nothing was done.
    AlreadyBound,
    /// The binding is gone and the working copy deleted.
    Unbound,
    /// Neither the container nor a binding was there: nothing was done.
    AlreadyUnbound,
}

/// What the caller is to do next.
#[derive(Debug, Clone, PartialEq, Eq)]
pub enum Action {
    /// Find out whether the local container exists.
    ProbeContainer,
    /// Check the source location out into the container.
    Checkout,
    /// Bind the module in the manifest.
    WriteBinding,
    /// Find out whether the manifest still binds the location.
    InspectManifest,
    /// Ask for the status of the working copy.
    QueryStatus,
    /// Ask for the changes not pushed upstream.
    QueryUnpushed,
    /// Remove the location's bindings from the manifest.
    WriteUnbinding,
    /// Delete the container with the working copy.
    DeleteContainer,
    /// Stop: the command succeeded.
    Finish(Outcome),
    /// Stop: the command failed.
    Fail(OverrideError),
}

/// The result of an action of a GET.
#[derive(Debug, PartialEq, Eq)]
pub enum GetEvent {
    /// Whether the container exists.
    Probed(bool),
    /// Whether the checkout completed, and the tool's exit status if any.
    CheckoutFinished { success: bool, code: Option<i32> },
    /// How writing the binding went.
    BindingWritten(Result<(), OverrideError>),
}

/// The result of an action of a PUT.
#[derive(Debug, PartialEq, Eq)]
pub enum PutEvent {
    /// Whether the container exists.
    Probed(bool),
    /// Whether the manifest still binds the location.
    Inspected(bool),
    /// The status report of the working copy; `None` when the tool failed.
    StatusReported(Option<String>),
    /// The summary of unpushed changes; `None` when the tool failed.
    UnpushedReported(Option<String>),
    /// How removing the bindings went.
    UnbindingWritten(Result<(), OverrideError>),
    /// Whether the container was deleted.
    Deleted(bool),
}

/// The next action of a GET. A container already on disk ends the command at
/// once, checked out or not; a failed checkout ends it with its exit status.
pub open spec fn get_transition(e: GetEvent) -> Action {
    match e {
        GetEvent::Probed(exists) => if exists {
            Action::Finish(Outcome::AlreadyBound)
        } else {
            Action::Checkout
        },
        GetEvent::CheckoutFinished { success, code } => if success {
            Action::WriteBinding
        } else {
            Action::Fail(OverrideError::CheckoutFailed(code))
        },
        GetEvent::BindingWritten(Ok(())) => Action::Finish(Outcome::Bound),
        GetEvent::BindingWritten(Err(err)) => Action::Fail(err),
    }
}

/// The next action of a PUT. A missing container ends the command, as a
/// no-op when the manifest agrees and as an inconsistency when it still binds
/// the location. The working copy must report no local changes and then no
/// unpushed ones before the bindings are removed; the container is deleted
/// after the manifest is written, and a failed deletion is reported as an
/// inconsistency.
pub open spec fn put_transition(e: PutEvent) -> Action {
    match e {
        PutEvent::Probed(exists) => if exists {
            Action::QueryStatus
        } else {
            Action::InspectManifest
        },
        PutEvent::Inspected(bound) => if bound {
            Action::Fail(OverrideError::InconsistentOverrideState)
        } else {
            Action::Finish(Outcome::AlreadyUnbound)
        },
        PutEvent::StatusReported(None) => Action::Fail(OverrideError::VcsUnavailable),
        PutEvent::StatusReported(Some(s)) => if s@.len() == 0 {
            Action::QueryUnpushed
        } else {
            Action::Fail(OverrideError::WorkingCopyDirty(s))
        },
        PutEvent::UnpushedReported(None) => Action::Fail(OverrideError::VcsUnavailable),
        PutEvent::UnpushedReported(Some(s)) => if s@.len() == 0 {
            Action::WriteUnbinding
        } else {
            Action::Fail(OverrideError::UnpushedChanges(s))
        },
        PutEvent::UnbindingWritten(Ok(())) => Action::DeleteContainer,
        PutEvent::UnbindingWritten(Err(err)) => Action::Fail(err),
        PutEvent::Deleted(done) => if done {
            Action::Finish(Outcome::Unbound)
        } else {
            Action::Fail(OverrideError::InconsistentOverrideState)
        },
    }
}

/// Decides the next action of a GET from the result of the last one.
pub fn get_step(e: GetEvent) -> (r: Action)
    ensures
        r == get_transition(e),
{
    match e {
        GetEvent::Probed(exists) => if exists {
            Action::Finish(Outcome::AlreadyBound)
        } else {
            Action::Checkout
        },
        GetEvent::CheckoutFinished { success, code } => if success {
            Action::WriteBinding
        } else {
            Action::Fail(OverrideError::CheckoutFailed(code))
        },
        GetEvent::BindingWritten(Ok(())) => Action::Finish(Outcome::Bound),
        GetEvent::BindingWritten(Err(err)) => Action::Fail(err),
    }
}

/// Decides the next action of a PUT from the result of the last one.
pub fn put_step(e: PutEvent) -> (r: Action)
    ensures
        r == put_transition(e),
{
    match e {
        PutEvent::Probed(exists) => if exists {
            Action::QueryStatus
        } else {
            Action::InspectManifest
        },
        PutEvent::Inspected(bound) => if bound {
            Action::Fail(OverrideError::InconsistentOverrideState)
        } else {
            Action::Finish(Outcome::AlreadyUnbound)
        },
        PutEvent::StatusReported(None) => Action::Fail(OverrideError::VcsUnavailable),
        PutEvent::StatusReported(Some(s)) => if s.as_str().is_empty() {
            Action::QueryUnpushed
        } else {
            Action::Fail(OverrideError::WorkingCopyDirty(s))
        },
        PutEvent::UnpushedReported(None) => Action::Fail(OverrideError::VcsUnavailable),
        PutEvent::UnpushedReported(Some(s)) => if s.as_str().is_empty() {
            Action::WriteUnbinding
        } else {
            Action::Fail(OverrideError::UnpushedChanges(s))
        },
        PutEvent::UnbindingWritten(Ok(())) => Action::DeleteContainer,
        PutEvent::UnbindingWritten(Err(err)) => Action::Fail(err),
        PutEvent::Deleted(done) => if done {
            Action::Finish(Outcome::Unbound)
        } else {
            Action::Fail(OverrideError::InconsistentOverrideState)
        },
    }
}

/// A GET on a container that is already on disk ends at once as already
/// bound: a checkout is only asked for when the probe found no container, and
/// the manifest is only written after a checkout that completed.
pub proof fn lemma_get_is_idempotent(e: GetEvent)
    ensures
        get_transition(GetEvent::Probed(true)) == Action::Finish(Outcome::AlreadyBound),
        get_transition(e) == Action::Checkout ==> e == GetEvent::Probed(false),
        get_transition(e) == Action::WriteBinding ==> e matches GetEvent::CheckoutFinished {
            success: true,
            ..
        },
{
}

/// A PUT unbinds only a working copy that is clean and fully pushed: the
/// unpushed changes are asked for only after an empty status report, the
/// bindings are removed only after an empty report of unpushed changes, and
/// the container is deleted only after the manifest was written.
pub proof fn lemma_put_guards_unbinding(e: PutEvent)
    ensures
        put_transition(e) == Action::QueryUnpushed ==> (e matches PutEvent::StatusReported(Some(s))
            && s@.len() == 0),
        put_transition(e) == Action::WriteUnbinding ==> (e matches PutEvent::UnpushedReported(
            Some(s),
        ) && s@.len() == 0),
        put_transition(e) == Action::DeleteContainer ==> e matches PutEvent::UnbindingWritten(Ok(_)),
{
}

/// A working copy with local changes stops the PUT with `WorkingCopyDirty`,
/// carrying the status report that names the changed files.
pub proof fn lemma_dirty_copy_refused(status: String)
    requires
        status@.len() > 0,
    ensures
        put_transition(PutEvent::StatusReported(Some(status))) == Action::Fail(
            OverrideError::WorkingCopyDirty(status),
        ),
{
}

/// A working copy with unpushed commits stops the PUT with
/// `UnpushedChanges`, carrying the summary of those changes.
pub proof fn lemma_unpushed_copy_refused(summary: String)
    requires
        summary@.len() > 0,
    ensures
        put_transition(PutEvent::UnpushedReported(Some(summary))) == Action::Fail(
            OverrideError::UnpushedChanges(summary),
        ),
{
}

/// On a present, clean and fully pushed working copy a PUT goes through every
/// check, removes the bindings, then deletes the container and ends unbound.
pub proof fn lemma_put_on_clean_copy(empty: String)
    requires
        empty@.len() == 0,
    ensures
        put_transition(PutEvent::Probed(true)) == Action::QueryStatus,
        put_transition(PutEvent::StatusReported(Some(empty))) == Action::QueryUnpushed,
        put_transition(PutEvent::UnpushedReported(Some(empty))) == Action::WriteUnbinding,
        put_transition(PutEvent::UnbindingWritten(Ok(()))) == Action::DeleteContainer,
        put_transition(PutEvent::Deleted(true)) == Action::Finish(Outcome::Unbound),
{
}

/// After a PUT removed a location's bindings and its container, a PUT of any
/// module of that location finds no container, finds the manifest in
/// agreement, and ends as already unbound instead of failing.
pub proof fn lemma_put_after_put(before: Table, after: Table, location: Seq<char>)
    requires
        binding_removed(before, after, location),
    ensures
        put_transition(PutEvent::Probed(false)) == Action::InspectManifest,
        put_transition(PutEvent::Inspected(overrides(after).contains_key(location)))
            == Action::Finish(Outcome::AlreadyUnbound),
{
}

} // verus!
