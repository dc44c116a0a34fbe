//! Interpreter resolution: pick the runtime that starts the backend. A
//! project-local isolated environment wins whenever it is present; otherwise
//! a system-wide interpreter name is used and left to the execution
//! environment's lookup at spawn time. Resolution itself never fails.

use vstd::prelude::*;

verus! {

/// The interpreter chosen to start the backend: either the exact path of the
/// project-local environment's binary, or the name of a system interpreter
/// to be found on the search path at spawn time. Never both.
#[derive(Debug, PartialEq, Eq)]
pub enum InterpreterChoice {
    ProjectLocal(String),
    System(String),
}

/// The fixed location of the project-local interpreter, relative to the
/// project root.
pub open spec fn venv_relative_path() -> Seq<char> {
    "/venv/bin/python3"@
}

/// The system interpreter name used when no project-local one is present.
pub open spec fn system_interpreter_name() -> Seq<char> {
    "python3"@
}

/// The absolute path under `root` where a project-local interpreter is
/// expected.
pub open spec fn venv_path_spec(root: Seq<char>) -> Seq<char> {
    root + venv_relative_path()
}

pub fn venv_interpreter_path(root: &str) -> (r: String)
    ensures
        r@ == venv_path_spec(root@),
{
    String::from_str(root).concat("/venv/bin/python3")
}

/// The program that the chosen interpreter hands to the spawn call.
pub open spec fn chosen_program(choice: InterpreterChoice) -> Seq<char> {
    match choice {
        InterpreterChoice::ProjectLocal(p) => p@,
        InterpreterChoice::System(n) => n@,
    }
}

/// Decides which interpreter starts the backend, given whether the
/// project-local interpreter binary is present on disk. Presence of the
/// project-local path always wins over the fallback; with the same
/// filesystem state the same choice comes out.
pub fn resolve_interpreter(root: &str, venv_present: bool) -> (r: InterpreterChoice)
    ensures
        venv_present ==> (r matches InterpreterChoice::ProjectLocal(p) && p@ == venv_path_spec(
            root@,
        )),
        !venv_present ==> (r matches InterpreterChoice::System(n) && n@
            == system_interpreter_name()),
        chosen_program(r) == spec_interpreter(root@, venv_present),
{
    if venv_present {
        InterpreterChoice::ProjectLocal(venv_interpreter_path(root))
    } else {
        InterpreterChoice::System(String::from_str("python3"))
    }
}

/// What `resolve_interpreter` runs, as a function of the filesystem state
/// alone.
pub open spec fn spec_interpreter(root: Seq<char>, venv_present: bool) -> Seq<char> {
    if venv_present {
        venv_path_spec(root)
    } else {
        system_interpreter_name()
    }
}

} // verus!
