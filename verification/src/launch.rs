//! The immutable description of one process spawn: program, arguments, and
//! working directory. The embedding application consumes a `LaunchSpec`
//! exactly once by handing it to the operating system's spawn call.

use vstd::prelude::*;

verus! {

/// Executable path or name, ordered argument list, and optional working
/// directory for a single detached child process.
#[derive(Debug, PartialEq, Eq)]
pub struct LaunchSpec {
    pub program: String,
    pub args: Vec<String>,
    pub cwd: Option<String>,
}

/// An OS-level spawn attempt was made and failed synchronously; carries the
/// user-visible description of the underlying error.
#[derive(Debug, PartialEq, Eq)]
pub struct SpawnError {
    pub message: String,
}

/// Wraps the OS error from a failed backend spawn in the launcher's
/// user-visible wording.
pub fn backend_spawn_error(cause: &str) -> (r: SpawnError)
    ensures
        r.message@ == "Failed to launch backend: "@ + cause@,
{
    SpawnError { message: String::from_str("Failed to launch backend: ").concat(cause) }
}

/// Wraps the OS error from a failed auxiliary-services spawn in the
/// launcher's user-visible wording.
pub fn services_spawn_error(cause: &str) -> (r: SpawnError)
    ensures
        r.message@ == "Failed to start Docker services: "@ + cause@,
{
    SpawnError { message: String::from_str("Failed to start Docker services: ").concat(cause) }
}

} // verus!
