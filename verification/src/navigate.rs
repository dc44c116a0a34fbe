//! In-place navigation of the already-open named UI surface to the backend
//! URL: no new window is created. Looking the surface up and delivering the
//! location-change instruction are done by the hosting shell; this module
//! decides what follows from each observation.

use vstd::prelude::*;

verus! {

/// Why navigating the existing surface failed. Both are terminal for the
/// call: no retry, no alternate window search.
#[derive(Debug, PartialEq, Eq)]
pub enum NavError {
    /// No surface with the expected identity currently exists.
    WindowNotFound,
    /// The location-change instruction could not be delivered or executed;
    /// carries the user-visible description.
    NavigationError(String),
}

/// What the hosting shell must do next while navigating.
#[derive(Debug, PartialEq, Eq)]
pub enum NavStep {
    /// The surface exists: deliver this location-change script to it.
    DeliverScript(String),
    /// The navigation is over, with its outcome.
    Done(Result<(), NavError>),
}

/// The identity of the one well-known surface that navigation targets.
pub open spec fn main_window_label_spec() -> Seq<char> {
    "main"@
}

pub fn main_window_label() -> (r: &'static str)
    ensures
        r@ == main_window_label_spec(),
{
    "main"
}

/// The location-change script that sends a surface to `url`.
pub open spec fn nav_script_spec(url: Seq<char>) -> Seq<char> {
    "window.location.href = '"@ + url + "';"@
}

pub fn nav_script(url: &str) -> (r: String)
    ensures
        r@ == nav_script_spec(url@),
{
    String::from_str("window.location.href = '").concat(url).concat("';")
}

/// Decision after the surface lookup: when the named surface exists, the
/// script targeting `url` is delivered to it; when it does not, the call
/// ends in `WindowNotFound` and nothing is delivered.
pub fn on_window_lookup(url: &str, window_present: bool) -> (s: NavStep)
    ensures
        window_present ==> (s matches NavStep::DeliverScript(script) && script@ == nav_script_spec(
            url@,
        )),
        !window_present ==> s == NavStep::Done(Err::<(), NavError>(NavError::WindowNotFound)),
{
    if window_present {
        NavStep::DeliverScript(nav_script(url))
    } else {
        NavStep::Done(Err(NavError::WindowNotFound))
    }
}

/// Decision after the script delivery: a delivery error becomes a
/// `NavigationError` in the launcher's user-visible wording.
pub fn on_eval_result(eval_error: Option<String>) -> (r: Result<(), NavError>)
    ensures
        eval_error is None ==> r is Ok,
        eval_error matches Some(e) ==> (r matches Err(ne) && ne matches NavError::NavigationError(
            m,
        ) && m@ == "Failed to navigate: "@ + e@),
{
    match eval_error {
        None => Ok(()),
        Some(e) => Err(
            NavError::NavigationError(
                String::from_str("Failed to navigate: ").concat(e.as_str()),
            ),
        ),
    }
}

} // verus!
