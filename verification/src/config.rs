//! Fixed endpoints, paths, and names that the orchestrator is configured
//! with. Every hardcoded URL and filesystem path lives here, so contracts
//! elsewhere can speak of them by name.

use vstd::prelude::*;

verus! {

/// The backend's health endpoint, probed over HTTP.
pub open spec fn health_url_spec() -> Seq<char> {
    "http://127.0.0.1:8000/api/health"@
}

pub fn health_url() -> (r: &'static str)
    ensures
        r@ == health_url_spec(),
{
    "http://127.0.0.1:8000/api/health"
}

/// The backend entry URL that app-mode browser windows and in-place
/// navigation target.
pub open spec fn dashboard_url_spec() -> Seq<char> {
    "http://127.0.0.1:8000"@
}

pub fn dashboard_url() -> (r: &'static str)
    ensures
        r@ == dashboard_url_spec(),
{
    "http://127.0.0.1:8000"
}

/// The backend entry URL handed to the system's default-browser opener.
pub open spec fn system_open_url_spec() -> Seq<char> {
    "http://localhost:8000"@
}

pub fn system_open_url() -> (r: &'static str)
    ensures
        r@ == system_open_url_spec(),
{
    "http://localhost:8000"
}

} // verus!
