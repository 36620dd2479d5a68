//! The repository fleet: scanning a directory for the organization's
//! working copies and running the update pass over them.

use vstd::prelude::*;
use crate::errors::CliError;
use crate::probe;
use crate::sync;
use crate::text;
use crate::text::{after_last_slash, contains_ci_seq};
use crate::utils;
use crate::vcs;

verus! {

/// Whether a remote URL belongs to the tracked organization: it holds the
/// organization identifier, compared up to ASCII case.
pub fn is_fleet_url(url: &str) -> (r: bool)
    ensures
        r == contains_ci_seq(url@, "Far-Beyond-Dev"@),
{
    text::contains_ci(url, "Far-Beyond-Dev")
}

/// What the scanner learned of one directory entry before deciding.
#[derive(Debug)]
pub struct RepoCandidate {
    /// The entry's path.
    pub path: String,
    /// Whether the entry is a directory.
    pub is_dir: bool,
    /// Whether it holds version-control metadata.
    pub has_vcs_dir: bool,
    /// The URL of its origin remote, when the repository opened and had
    /// one.
    pub origin_url: Option<String>,
}

/// A candidate belongs to the fleet: a directory under version control
/// whose origin URL holds the organization identifier, compared up to
/// ASCII case.
pub open spec fn fleet_candidate(c: RepoCandidate) -> bool {
    &&& c.is_dir
    &&& c.has_vcs_dir
    &&& c.origin_url matches Some(u) && contains_ci_seq(u@, "Far-Beyond-Dev"@)
}

/// The paths of the fleet candidates, in their listed order.
pub open spec fn fleet_selection(cs: Seq<RepoCandidate>) -> Seq<Seq<char>>
    decreases cs.len(),
{
    if cs.len() == 0 {
        Seq::empty()
    } else {
        let rest = fleet_selection(cs.drop_last());
        if fleet_candidate(cs.last()) {
            rest.push(cs.last().path@)
        } else {
            rest
        }
    }
}

/// Keeps the paths of the fleet candidates, in order.
pub fn fleet_filter(candidates: &Vec<RepoCandidate>) -> (r: Vec<String>)
    ensures
        r.deep_view() == fleet_selection(candidates@),
{
    let mut r: Vec<String> = Vec::new();
    let mut i: usize = 0;
    while i < candidates.len()
        invariant
            0 <= i <= candidates@.len(),
            r.deep_view() == fleet_selection(candidates@.subrange(0, i as int)),
        decreases candidates.len() - i,
    {
        proof {
            assert(candidates@.subrange(0, i + 1).drop_last() =~= candidates@.subrange(
                0,
                i as int,
            ));
            assert(candidates@.subrange(0, i + 1).last() == candidates@[i as int]);
        }
        let c = &candidates[i];
        let keep = match &c.origin_url {
            Some(url) => c.is_dir && c.has_vcs_dir && is_fleet_url(url.as_str()),
            None => false,
        };
        if keep {
            r.push(c.path.clone());
            proof {
                assert(r.deep_view() =~= fleet_selection(candidates@.subrange(0, i + 1)));
            }
        }
        i += 1;
    }
    proof {
        assert(candidates@.subrange(0, candidates@.len() as int) =~= candidates@);
    }
    r
}

/// Probes one directory entry: version-control metadata and the origin
/// remote's URL, as far as the repository opens. The facts are classified
/// by `fleet_filter`.
fn probe_candidate(entry: &probe::DirEntryInfo) -> (c: RepoCandidate)
    ensures
        c.path@ == entry.path@,
{
    let has_vcs_dir = entry.is_dir && utils::is_git_repository(entry.path.as_str());
    let mut origin_url: Option<String> = None;
    if has_vcs_dir {
        match vcs::repo_open(entry.path.as_str()) {
            Ok(repo) => {
                match vcs::find_remote(&repo, "origin") {
                    Ok(remote) => {
                        match vcs::remote_url(&remote) {
                            Ok(url) => {
                                origin_url = Some(url);
                            },
                            Err(_) => (),
                        }
                    },
                    Err(_) => (),
                }
            },
            Err(_) => (),
        }
    }
    RepoCandidate { path: entry.path.clone(), is_dir: entry.is_dir, has_vcs_dir, origin_url }
}

/// Scans the immediate subdirectories of `root` for fleet repositories:
/// directories with version-control metadata whose origin remote URL
/// belongs to the organization. Directories that fail to open or lack an
/// origin remote are silently skipped; only a failure to enumerate `root`
/// itself is an error, and a `Filesystem` one. The order is enumeration
/// order.
pub fn scan_fleet(root: &str) -> (r: Result<Vec<String>, CliError>)
    ensures
        r matches Err(e) ==> e is Filesystem,
{
    let entries = match probe::list_dir(root) {
        Ok(v) => v,
        Err(m) => return Err(CliError::Filesystem(m)),
    };
    let mut candidates: Vec<RepoCandidate> = Vec::new();
    let mut i: usize = 0;
    while i < entries.len()
        decreases entries.len() - i,
    {
        candidates.push(probe_candidate(&entries[i]));
        i += 1;
    }
    Ok(fleet_filter(&candidates))
}

/// The outcome of one repository's update.
#[derive(Debug)]
pub enum UpdateOutcome {
    /// A fast-forward was applied.
    Updated,
    /// Local and remote tips were already equal.
    AlreadyUpToDate,
    /// The update failed; the payload is the failure message.
    Failed(String),
}

/// Runs the update pass over the fleet, one repository at a time, in the
/// given order. A failure on one repository is recorded and does not stop
/// the pass. Each result is labelled with the repository's directory name.
pub fn update_fleet(paths: &Vec<String>) -> (r: Vec<(String, UpdateOutcome)>)
    ensures
        r@.len() == paths@.len(),
        forall|k: int| 0 <= k < r@.len() ==> (#[trigger] r@[k]).0@ == after_last_slash(
            paths@[k]@,
        ),
{
    let mut report: Vec<(String, UpdateOutcome)> = Vec::new();
    let mut i: usize = 0;
    while i < paths.len()
        invariant
            0 <= i <= paths@.len(),
            report@.len() == i,
            forall|k: int| 0 <= k < i ==> (#[trigger] report@[k]).0@ == after_last_slash(
                paths@[k]@,
            ),
        decreases paths.len() - i,
    {
        let name = text::path_file_name(paths[i].as_str());
        let outcome = match sync::update_single_repository(paths[i].as_str()) {
            Ok(true) => UpdateOutcome::Updated,
            Ok(false) => UpdateOutcome::AlreadyUpToDate,
            Err(e) => UpdateOutcome::Failed(e.message()),
        };
        report.push((name, outcome));
        i += 1;
    }
    report
}

} // verus!
