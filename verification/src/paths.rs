//! Project-root resolution: derive the root directory candidate from the
//! launcher's own installation directory, and classify the outcome of the
//! (unverified, filesystem-dependent) canonicalization step.

use vstd::prelude::*;

verus! {

/// Canonicalizing the project-root candidate failed: the directory is
/// missing, unreadable, or a symlink chain is broken. Structural, not
/// transient; callers must not retry automatically.
#[derive(Debug, PartialEq, Eq)]
pub struct PathResolutionError {
    pub message: String,
}

/// The relative steps from the launcher's installation directory up to the
/// project root.
pub open spec fn root_relative_suffix() -> Seq<char> {
    "/../.."@
}

/// The not-yet-canonicalized project-root path: the installation directory
/// with the fixed ancestor suffix appended.
pub fn project_root_candidate(install_dir: &str) -> (r: String)
    ensures
        r@ == install_dir@ + root_relative_suffix(),
{
    String::from_str(install_dir).concat("/../..")
}

/// Classifies what the filesystem's canonicalization call reported: a
/// canonical absolute path on success, or the underlying error description,
/// which becomes a `PathResolutionError`.
pub fn resolve_root_outcome(canonicalized: Result<String, String>) -> (r: Result<
    String,
    PathResolutionError,
>)
    ensures
        canonicalized matches Ok(p) ==> r matches Ok(q) && q == p,
        canonicalized matches Err(e) ==> r matches Err(pe) && pe.message == e,
{
    match canonicalized {
        Ok(p) => Ok(p),
        Err(e) => Err(PathResolutionError { message: e }),
    }
}

} // verus!
