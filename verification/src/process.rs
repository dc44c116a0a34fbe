//! Launch planning for the backend process and the container-based
//! auxiliary services: each plan is a complete `LaunchSpec` that the
//! embedding application spawns as a detached child, fire-and-forget.

use vstd::prelude::*;
use crate::interpreter::{
    resolve_interpreter,
    spec_interpreter,
    InterpreterChoice,
};
use crate::launch::LaunchSpec;

verus! {

/// The backend's entry script, relative to the project root.
pub open spec fn backend_entry_script() -> Seq<char> {
    "src/main.py"@
}

/// The fixed mode argument the backend is started with.
pub open spec fn backend_mode_arg() -> Seq<char> {
    "web"@
}

/// Builds the spawn plan for the backend: the chosen interpreter runs the
/// fixed entry script in web mode, with the project root as working
/// directory.
pub fn backend_launch_spec(interpreter: InterpreterChoice, root: &str) -> (r: LaunchSpec)
    ensures
        r.program@ == crate::interpreter::chosen_program(interpreter),
        r.args@.len() == 2,
        r.args@[0]@ == backend_entry_script(),
        r.args@[1]@ == backend_mode_arg(),
        r.cwd matches Some(c) && c@ == root@,
{
    let program = match interpreter {
        InterpreterChoice::ProjectLocal(p) => p,
        InterpreterChoice::System(n) => n,
    };
    let mut args: Vec<String> = Vec::new();
    args.push(String::from_str("src/main.py"));
    args.push(String::from_str("web"));
    LaunchSpec { program, args, cwd: Some(String::from_str(root)) }
}

/// The complete "start backend" decision: resolve the interpreter from the
/// filesystem state, then plan the spawn. Never consults the backend's
/// health; the plan exists before the backend can be reachable.
pub fn plan_start_backend(root: &str, venv_present: bool) -> (r: LaunchSpec)
    ensures
        r.program@ == spec_interpreter(root@, venv_present),
        r.args@.len() == 2,
        r.args@[0]@ == backend_entry_script(),
        r.args@[1]@ == backend_mode_arg(),
        r.cwd matches Some(c) && c@ == root@,
{
    let interpreter = resolve_interpreter(root, venv_present);
    backend_launch_spec(interpreter, root)
}

/// Builds the spawn plan for the auxiliary services: the container
/// orchestration tool brings up the two fixed named services in background
/// mode, against the fixed compose file, from the project root.
pub fn services_launch_spec(root: &str) -> (r: LaunchSpec)
    ensures
        r.program@ == "docker"@,
        r.args@.len() == 7,
        r.args@[0]@ == "compose"@,
        r.args@[1]@ == "-f"@,
        r.args@[2]@ == "docker/docker-compose.yml"@,
        r.args@[3]@ == "up"@,
        r.args@[4]@ == "-d"@,
        r.args@[5]@ == "chromadb"@,
        r.args@[6]@ == "redis"@,
        r.cwd matches Some(c) && c@ == root@,
{
    let mut args: Vec<String> = Vec::new();
    args.push(String::from_str("compose"));
    args.push(String::from_str("-f"));
    args.push(String::from_str("docker/docker-compose.yml"));
    args.push(String::from_str("up"));
    args.push(String::from_str("-d"));
    args.push(String::from_str("chromadb"));
    args.push(String::from_str("redis"));
    LaunchSpec { program: String::from_str("docker"), args, cwd: Some(String::from_str(root)) }
}

} // verus!
