//! Opening the backend in an app-mode browser window: walk a fixed,
//! priority-ordered list of known browser install paths, spawn the first
//! candidate that exists and spawns successfully, and otherwise fall back to
//! the operating system's default-open mechanism.
//!
//! Existence checks and spawn attempts are filesystem and process work done
//! by the embedding application; this module is the loop's decision logic,
//! one step per observation. The selection policy itself is stated by
//! `selected_candidate` and proved of the step machine.

use vstd::prelude::*;
use crate::launch::LaunchSpec;

verus! {

/// Every browser candidate and the default-open fallback were tried and
/// failed to spawn; carries the user-visible description of the fallback's
/// error.
#[derive(Debug, PartialEq, Eq)]
pub struct LaunchError {
    pub message: String,
}

/// What the embedding application must do next while opening the browser.
#[derive(Debug, PartialEq, Eq)]
pub enum BrowserStep {
    /// Check whether candidate `i`'s executable exists on disk.
    CheckExists(usize),
    /// Candidate `i` exists: attempt to spawn it with the app-mode argument
    /// set.
    SpawnCandidate(usize),
    /// No candidate worked: attempt the OS default-open fallback with the
    /// same target URL.
    SpawnFallback,
    /// The loop is over, with the overall outcome.
    Done(Result<(), LaunchError>),
}

/// The known browser install locations for the host platform, in priority
/// order. Static configuration, not derived at runtime.
pub open spec fn candidate_paths() -> Seq<Seq<char>> {
    seq![
        "/Applications/Google Chrome.app/Contents/MacOS/Google Chrome"@,
        "/Applications/Chromium.app/Contents/MacOS/Chromium"@,
        "/usr/bin/google-chrome"@,
        "/usr/bin/chromium-browser"@,
    ]
}

/// The candidate loop's fixed configuration: the ordered candidate list and
/// the target URL.
pub struct BrowserLauncher {
    pub candidates: Vec<String>,
    pub url: String,
}

/// The first candidate index that both exists and spawns successfully, at or
/// after `i`; `None` when no such candidate remains and the fallback is due.
pub open spec fn first_working_from(present: Seq<bool>, spawns: Seq<bool>, i: int) -> Option<int>
    decreases present.len() - i,
{
    if i < 0 || i >= present.len() {
        None
    } else if present[i] && spawns[i] {
        Some(i)
    } else {
        first_working_from(present, spawns, i + 1)
    }
}

/// Which candidate the whole loop selects, as a function of the filesystem
/// state (`present`) and of how each spawn attempt would go (`spawns`).
pub open spec fn selected_candidate(present: Seq<bool>, spawns: Seq<bool>) -> Option<int> {
    first_working_from(present, spawns, 0)
}

impl BrowserLauncher {
    /// A launcher over the platform's fixed candidate list, targeting `url`.
    pub fn new(url: &str) -> (r: BrowserLauncher)
        ensures
            r.candidates@.len() == candidate_paths().len(),
            forall|i: int|
                0 <= i < r.candidates@.len() ==> r.candidates@[i]@ == candidate_paths()[i],
            r.url@ == url@,
    {
        let mut candidates: Vec<String> = Vec::new();
        candidates.push(
            String::from_str("/Applications/Google Chrome.app/Contents/MacOS/Google Chrome"),
        );
        candidates.push(String::from_str("/Applications/Chromium.app/Contents/MacOS/Chromium"));
        candidates.push(String::from_str("/usr/bin/google-chrome"));
        candidates.push(String::from_str("/usr/bin/chromium-browser"));
        let r = BrowserLauncher { candidates, url: String::from_str(url) };
        proof {
            assert forall|i: int| 0 <= i < r.candidates@.len() implies r.candidates@[i]@
                == candidate_paths()[i] by {
                assert(candidate_paths().len() == 4);
            }
        }
        r
    }

    /// The loop's first step: consider candidate 0, or go straight to the
    /// fallback when the candidate list is empty.
    pub fn start(&self) -> (s: BrowserStep)
        ensures
            self.candidates@.len() > 0 ==> s == BrowserStep::CheckExists(0usize),
            self.candidates@.len() == 0 ==> s == BrowserStep::SpawnFallback,
    {
        if self.candidates.len() > 0 {
            BrowserStep::CheckExists(0)
        } else {
            BrowserStep::SpawnFallback
        }
    }

    /// Decision after the existence check of candidate `i`: spawn it when
    /// present, otherwise move to the next candidate or, past the last one,
    /// to the fallback.
    pub fn on_exists(&self, i: usize, present: bool) -> (s: BrowserStep)
        requires
            i < self.candidates@.len(),
        ensures
            present ==> s == BrowserStep::SpawnCandidate(i),
            !present && i + 1 < self.candidates@.len() ==> s == BrowserStep::CheckExists(
                (i + 1) as usize,
            ),
            !present && i + 1 == self.candidates@.len() ==> s == BrowserStep::SpawnFallback,
    {
        let n = self.candidates.len();
        if present {
            BrowserStep::SpawnCandidate(i)
        } else if i + 1 < n {
            BrowserStep::CheckExists(i + 1)
        } else {
            BrowserStep::SpawnFallback
        }
    }

    /// Decision after the spawn attempt of candidate `i`: success ends the
    /// loop; a candidate that exists but will not execute is skipped, not
    /// treated as terminal.
    pub fn on_spawn_result(&self, i: usize, spawned: bool) -> (s: BrowserStep)
        requires
            i < self.candidates@.len(),
        ensures
            spawned ==> s == BrowserStep::Done(Ok::<(), LaunchError>(())),
            !spawned && i + 1 < self.candidates@.len() ==> s == BrowserStep::CheckExists(
                (i + 1) as usize,
            ),
            !spawned && i + 1 == self.candidates@.len() ==> s == BrowserStep::SpawnFallback,
    {
        let n = self.candidates.len();
        if spawned {
            BrowserStep::Done(Ok(()))
        } else if i + 1 < n {
            BrowserStep::CheckExists(i + 1)
        } else {
            BrowserStep::SpawnFallback
        }
    }

    /// Decision after the default-open fallback attempt: its success is the
    /// action's success; only its failure is a `LaunchError`.
    pub fn on_fallback_result(&self, spawn_error: Option<String>) -> (s: BrowserStep)
        ensures
            spawn_error is None ==> s == BrowserStep::Done(Ok::<(), LaunchError>(())),
            spawn_error matches Some(e) ==> (s matches BrowserStep::Done(r) && r matches Err(le)
                && le.message@ == "Failed to open browser: "@ + e@),
    {
        match spawn_error {
            None => BrowserStep::Done(Ok(())),
            Some(e) => BrowserStep::Done(
                Err(
                    LaunchError {
                        message: String::from_str("Failed to open browser: ").concat(e.as_str()),
                    },
                ),
            ),
        }
    }

    /// The app-mode spawn plan for candidate `i`: a new isolated window in
    /// app mode pinned to the target URL, with a dedicated temporary
    /// user-data directory and first-run and default-browser prompts
    /// suppressed.
    pub fn candidate_spec(&self, i: usize) -> (r: LaunchSpec)
        requires
            i < self.candidates@.len(),
        ensures
            r.program@ == self.candidates@[i as int]@,
            r.args@.len() == 6,
            r.args@[0]@ == "--new-window"@,
            r.args@[1]@ == "--app"@,
            r.args@[2]@ == "--user-data-dir=/tmp/brebot-chrome"@,
            r.args@[3]@ == "--no-first-run"@,
            r.args@[4]@ == "--no-default-browser-check"@,
            r.args@[5]@ == self.url@,
            r.cwd is None,
    {
        let mut args: Vec<String> = Vec::new();
        args.push(String::from_str("--new-window"));
        args.push(String::from_str("--app"));
        args.push(String::from_str("--user-data-dir=/tmp/brebot-chrome"));
        args.push(String::from_str("--no-first-run"));
        args.push(String::from_str("--no-default-browser-check"));
        args.push(self.url.clone());
        LaunchSpec { program: self.candidates[i].clone(), args, cwd: None }
    }

    /// The default-open fallback plan: the platform's generic opener,
    /// invoked with the identical target URL.
    pub fn fallback_spec(&self) -> (r: LaunchSpec)
        ensures
            r.program@ == "open"@,
            r.args@.len() == 1,
            r.args@[0]@ == self.url@,
            r.cwd is None,
    {
        let mut args: Vec<String> = Vec::new();
        args.push(self.url.clone());
        LaunchSpec { program: String::from_str("open"), args, cwd: None }
    }
}

/// Drives the step machine to completion against recorded observations:
/// `present[i]` is what the existence check of candidate `i` would report,
/// `spawns[i]` whether its spawn attempt would succeed. Shows that the steps
/// compose into exactly the selection stated by `selected_candidate`:
/// `Some(i)` means candidate `i` is spawned and the loop ends there, `None`
/// means the loop reaches the fallback.
pub fn run_selection(launcher: &BrowserLauncher, present: &Vec<bool>, spawns: &Vec<bool>) -> (r:
    Option<usize>)
    requires
        present@.len() == launcher.candidates@.len(),
        spawns@.len() == launcher.candidates@.len(),
    ensures
        r matches Some(i) ==> i < launcher.candidates@.len() && selected_candidate(
            present@,
            spawns@,
        ) == Some(i as int),
        r is None ==> selected_candidate(present@, spawns@) is None,
{
    let n = launcher.candidates.len();
    let mut i: usize = 0;
    let mut step = launcher.start();
    while i < n
        invariant
            i <= n,
            n == launcher.candidates@.len(),
            present@.len() == n,
            spawns@.len() == n,
            first_working_from(present@, spawns@, 0) == first_working_from(
                present@,
                spawns@,
                i as int,
            ),
            i < n ==> step == BrowserStep::CheckExists(i),
        decreases n - i,
    {
        step = launcher.on_exists(i, present[i]);
        if let BrowserStep::SpawnCandidate(c) = step {
            step = launcher.on_spawn_result(c, spawns[c]);
            if let BrowserStep::Done(_) = step {
                return Some(c);
            }
        }
        i = i + 1;
    }
    None
}

/// Law: for all existing, executable candidates in priority order, the loop
/// selects the first one that both exists and spawns successfully; earlier
/// candidates that are absent or fail to spawn are skipped.
pub proof fn lemma_first_working_selected(present: Seq<bool>, spawns: Seq<bool>, k: int)
    requires
        present.len() == spawns.len(),
        0 <= k < present.len(),
        present[k] && spawns[k],
        forall|j: int| 0 <= j < k ==> !(present[j] && spawns[j]),
    ensures
        selected_candidate(present, spawns) == Some(k),
{
    lemma_first_working_from(present, spawns, 0, k);
}

proof fn lemma_first_working_from(present: Seq<bool>, spawns: Seq<bool>, i: int, k: int)
    requires
        present.len() == spawns.len(),
        0 <= i <= k < present.len(),
        present[k] && spawns[k],
        forall|j: int| i <= j < k ==> !(present[j] && spawns[j]),
    ensures
        first_working_from(present, spawns, i) == Some(k),
    decreases k - i,
{
    if i < k {
        lemma_first_working_from(present, spawns, i + 1, k);
    }
}

/// Law: if zero candidates exist, or every existing candidate fails to
/// spawn, the loop selects no candidate, so the generic default-open
/// fallback is reached.
pub proof fn lemma_fallback_when_none_works(present: Seq<bool>, spawns: Seq<bool>)
    requires
        present.len() == spawns.len(),
        forall|j: int| 0 <= j < present.len() ==> !(present[j] && spawns[j]),
    ensures
        selected_candidate(present, spawns) is None,
{
    lemma_no_working_from(present, spawns, 0);
}

proof fn lemma_no_working_from(present: Seq<bool>, spawns: Seq<bool>, i: int)
    requires
        present.len() == spawns.len(),
        0 <= i <= present.len(),
        forall|j: int| i <= j < present.len() ==> !(present[j] && spawns[j]),
    ensures
        first_working_from(present, spawns, i) is None,
    decreases present.len() - i,
{
    if i < present.len() {
        lemma_no_working_from(present, spawns, i + 1);
    }
}

} // verus!
