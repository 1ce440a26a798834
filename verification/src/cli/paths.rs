//! Where the workspace lies.

use crate::cli::error::{CliError, CliErrorModel};
use vstd::prelude::*;

verus! {

/// The parent of `path`, through `std::path::Path::parent`, as text. The
/// contract claims only what the documentation states outright: the empty
/// path has no parent. What the parent of any other path is depends on the
/// platform's separators and is left open.
#[verifier::external_body]
fn parent_dir(path: &str) -> (parent: Option<String>)
    ensures
        path@.len() == 0 ==> parent is None,
{
    std::path::Path::new(path).parent().map(|p| p.to_string_lossy().into_owned())
}

/// The workspace root, given what the parent of the command line's package
/// directory is: that parent, or `NoWorkspaceRoot` where there is none.
pub fn workspace_root_from(parent: Option<String>) -> (root: Result<String, CliError>)
    ensures
        parent is Some ==> root is Ok && root->Ok_0@ == parent->Some_0@,
        parent is None ==> root is Err && root->Err_0@ == CliErrorModel::NoWorkspaceRoot,
{
    match parent {
        Some(dir) => Ok(dir),
        None => Err(CliError::NoWorkspaceRoot),
    }
}

/// The workspace root: the parent of `manifest_dir`, the directory of the
/// command line's own package. Fails with `NoWorkspaceRoot` where that
/// directory has no parent, as the empty path has none.
pub fn get_workspace_root(manifest_dir: &str) -> (root: Result<String, CliError>)
    ensures
        root is Err ==> root->Err_0@ == CliErrorModel::NoWorkspaceRoot,
        manifest_dir@.len() == 0 ==> root is Err,
{
    workspace_root_from(parent_dir(manifest_dir))
}

} // verus!
