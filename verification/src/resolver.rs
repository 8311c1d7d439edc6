//! Choice of a writable directory for the database file.
//!
//! Candidate base directories are derived from the environment in a fixed
//! priority order: the user data-home variable, two home-relative paths,
//! the platform app-data variable, and the system temp directory. A
//! candidate whose variable is unset is skipped. The caller probes each
//! candidate (create the directory, then write and remove a marker file)
//! and hands the outcomes back; the resolution itself is the pure choice
//! of the first candidate whose probe fully succeeded. The resolved file
//! need not exist yet: a fresh database is created on first connection.

use vstd::prelude::*;
use vstd::string::StringExecFns;

use crate::errors::StoreError;

verus! {

/// The environment values the resolver draws its candidates from. An unset
/// variable is a normal, non-error input; the temp directory always exists.
#[derive(Debug)]
pub struct Environment {
    pub xdg_data_home: Option<String>,
    pub home: Option<String>,
    pub appdata: Option<String>,
    pub temp_dir: String,
}

/// What probing one candidate directory established.
#[derive(Debug)]
pub enum ProbeOutcome {
    /// The directory could be created and a marker file written and removed.
    Writable,
    /// Creating the directory failed, with the cause.
    CreateDirFailed(String),
    /// Writing the marker file failed, with the cause.
    WriteProbeFailed(String),
}

/// The cause text carried by a failed probe; a successful probe carries none.
pub open spec fn cause_of(o: ProbeOutcome) -> Seq<char> {
    match o {
        ProbeOutcome::Writable => Seq::empty(),
        ProbeOutcome::CreateDirFailed(c) => c@,
        ProbeOutcome::WriteProbeFailed(c) => c@,
    }
}

/// The candidate directories of an environment, in priority order.
pub open spec fn spec_candidates(env: Environment) -> Seq<Seq<char>> {
    (match env.xdg_data_home {
        Some(p) => seq![p@ + "/missioncontrol"@],
        None => Seq::empty(),
    }) + (match env.home {
        Some(p) => seq![p@ + "/.local/share/missioncontrol"@, p@ + "/.missioncontrol"@],
        None => Seq::empty(),
    }) + (match env.appdata {
        Some(p) => seq![p@ + "/missioncontrol"@],
        None => Seq::empty(),
    }) + seq![env.temp_dir@ + "/missioncontrol"@]
}

/// The candidate directories of an environment, in priority order: the
/// data-home variable, the two home-relative paths, the app-data variable,
/// then the temp directory; unset variables contribute no candidate.
pub fn candidate_dirs(env: &Environment) -> (r: Vec<String>)
    ensures
        r@.map_values(|s: String| s@) == spec_candidates(*env),
{
    let mut dirs: Vec<String> = Vec::new();
    if let Some(p) = &env.xdg_data_home {
        dirs.push(p.clone().concat("/missioncontrol"));
    }
    if let Some(p) = &env.home {
        dirs.push(p.clone().concat("/.local/share/missioncontrol"));
        dirs.push(p.clone().concat("/.missioncontrol"));
    }
    if let Some(p) = &env.appdata {
        dirs.push(p.clone().concat("/missioncontrol"));
    }
    dirs.push(env.temp_dir.clone().concat("/missioncontrol"));
    proof {
        assert(dirs@.map_values(|s: String| s@) =~= spec_candidates(*env));
    }
    dirs
}

/// The database path placed in a chosen base directory.
pub open spec fn spec_db_path(dir: Seq<char>) -> Seq<char> {
    dir + "/todos.db"@
}

/// Holds when the resolution chose index `i`: its probe succeeded, every
/// earlier probe failed, and the path is the database file in candidate `i`.
pub open spec fn resolved_at(
    cands: Seq<Seq<char>>,
    outs: Seq<ProbeOutcome>,
    i: int,
    path: Seq<char>,
) -> bool {
    &&& 0 <= i < outs.len()
    &&& outs[i] is Writable
    &&& forall|j: int| 0 <= j < i ==> !(outs[j] is Writable)
    &&& path == spec_db_path(cands[i])
}

/// Holds when some candidate resolved to `path`: the chosen probe
/// succeeded and every earlier probe failed.
pub open spec fn resolution_ok(
    cands: Seq<Seq<char>>,
    outs: Seq<ProbeOutcome>,
    path: Seq<char>,
) -> bool {
    exists|i: int| resolved_at(cands, outs, i, path)
}

/// Resolves the database path from the probe outcome of every candidate:
/// the first candidate both creatable and write-probeable wins, in priority
/// order alone; if none qualifies the resolution fails, carrying every
/// attempted directory and the cause of each failure.
pub fn resolve(env: &Environment, outcomes: &Vec<ProbeOutcome>) -> (r: Result<String, StoreError>)
    requires
        outcomes@.len() == spec_candidates(*env).len(),
    ensures
        (r is Ok) <==> (exists|i: int|
            0 <= i < outcomes@.len() && outcomes@[i] is Writable),
        r matches Ok(path) ==> resolution_ok(spec_candidates(*env), outcomes@, path@),
        r matches Err(e) ==> e matches StoreError::NoWritableLocation { attempted, causes }
            && attempted@.map_values(|s: String| s@) == spec_candidates(*env)
            && causes@.map_values(|s: String| s@) == outcomes@.map_values(
            |o: ProbeOutcome| cause_of(o),
        ),
{
    let candidates = candidate_dirs(env);
    let n = candidates.len();
    let mut i: usize = 0;
    while i < n
        invariant
            n == candidates@.len() == outcomes@.len(),
            i <= n,
            candidates@.map_values(|s: String| s@) == spec_candidates(*env),
            forall|j: int| 0 <= j < i ==> !(outcomes@[j] is Writable),
        decreases n - i,
    {
        if let ProbeOutcome::Writable = &outcomes[i] {
            let path = candidates[i].clone().concat("/todos.db");
            proof {
                assert(resolved_at(spec_candidates(*env), outcomes@, i as int, path@));
                assert(resolution_ok(spec_candidates(*env), outcomes@, path@));
            }
            return Ok(path);
        }
        i = i + 1;
    }
    let mut causes: Vec<String> = Vec::new();
    let mut k: usize = 0;
    while k < n
        invariant
            n == outcomes@.len(),
            k <= n,
            causes@.len() == k,
            forall|j: int| 0 <= j < k ==> causes@[j]@ == cause_of(outcomes@[j]),
        decreases n - k,
    {
        causes.push(cause_string(&outcomes[k]));
        k = k + 1;
    }
    proof {
        assert(causes@.map_values(|s: String| s@) =~= outcomes@.map_values(
            |o: ProbeOutcome| cause_of(o),
        ));
    }
    Err(StoreError::NoWritableLocation { attempted: candidates, causes })
}

/// The cause text of a probe outcome, empty for a successful probe.
fn cause_string(o: &ProbeOutcome) -> (r: String)
    ensures
        r@ == cause_of(*o),
{
    match o {
        ProbeOutcome::Writable => String::new(),
        ProbeOutcome::CreateDirFailed(c) => c.clone(),
        ProbeOutcome::WriteProbeFailed(c) => c.clone(),
    }
}

} // verus!
