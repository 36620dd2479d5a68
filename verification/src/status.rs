//! The status reporter: per-repository working-tree classification and the
//! relation of the local tip to its remote-tracking tip. The report is
//! read-only; no function here moves a ref or touches the working tree.

use vstd::prelude::*;
use crate::errors::CliError;
use crate::sync;
use crate::text;
use crate::text::after_last_slash;
use crate::vcs;
use crate::vcs::ChangeFlags;

verus! {

/// The coalesced working-tree state: which change classes occur at all.
#[derive(Clone, Copy, PartialEq, Eq, Structural, Debug)]
pub struct ChangeSet {
    pub modified: bool,
    pub untracked: bool,
    pub staged: bool,
}

impl ChangeSet {
    /// A clean working tree: no change of any class.
    pub open spec fn is_clean(self) -> bool {
        !self.modified && !self.untracked && !self.staged
    }

    /// Decides `is_clean`.
    pub fn clean(&self) -> (r: bool)
        ensures
            r == self.is_clean(),
    {
        !self.modified && !self.untracked && !self.staged
    }
}

/// Coalesces status entries into the set of change classes that occur;
/// duplicates collapse and order carries no information.
pub fn classify_changes(entries: &Vec<ChangeFlags>) -> (c: ChangeSet)
    ensures
        c.modified == (exists|i: int| 0 <= i < entries@.len() && (#[trigger] entries@[i]).modified),
        c.untracked == (exists|i: int|
            0 <= i < entries@.len() && (#[trigger] entries@[i]).untracked),
        c.staged == (exists|i: int| 0 <= i < entries@.len() && (#[trigger] entries@[i]).staged),
{
    let mut c = ChangeSet { modified: false, untracked: false, staged: false };
    let mut i: usize = 0;
    while i < entries.len()
        invariant
            0 <= i <= entries@.len(),
            c.modified == (exists|k: int| 0 <= k < i && (#[trigger] entries@[k]).modified),
            c.untracked == (exists|k: int| 0 <= k < i && (#[trigger] entries@[k]).untracked),
            c.staged == (exists|k: int| 0 <= k < i && (#[trigger] entries@[k]).staged),
        decreases entries.len() - i,
    {
        let e = &entries[i];
        c = ChangeSet {
            modified: c.modified || e.modified,
            untracked: c.untracked || e.untracked,
            staged: c.staged || e.staged,
        };
        i += 1;
    }
    c
}

/// The labels of a change set, in the conventional printing order:
/// modified, then untracked, then staged.
pub open spec fn spec_change_labels(c: ChangeSet) -> Seq<Seq<char>> {
    (if c.modified {
        seq!["modified"@]
    } else {
        Seq::empty()
    }) + (if c.untracked {
        seq!["untracked"@]
    } else {
        Seq::empty()
    }) + (if c.staged {
        seq!["staged"@]
    } else {
        Seq::empty()
    })
}

/// Renders the change classes in the conventional order.
pub fn change_labels(c: ChangeSet) -> (r: Vec<String>)
    ensures
        r.deep_view() == spec_change_labels(c),
{
    let mut r: Vec<String> = Vec::new();
    if c.modified {
        r.push(String::from_str("modified"));
    }
    if c.untracked {
        r.push(String::from_str("untracked"));
    }
    if c.staged {
        r.push(String::from_str("staged"));
    }
    proof {
        assert(r.deep_view() =~= spec_change_labels(c));
    }
    r
}

/// The local tip's standing relative to the remote-tracking tip.
#[derive(Debug, Clone, Copy, PartialEq, Eq, Structural)]
pub enum RemoteStanding {
    /// No remote-tracking reference, or no readable tips to compare.
    Unknown,
    /// Local and remote tips are equal.
    InSync,
    /// The tips differ: how many commits each side has that the other
    /// lacks. A repository can be ahead and behind at once.
    Diverged { ahead: usize, behind: usize },
}

/// The standing for two tips already compared, with the ancestry-distance
/// counts that hold when they differ.
pub fn remote_standing(tips_equal: bool, ahead: usize, behind: usize) -> (r: RemoteStanding)
    ensures
        tips_equal ==> r == RemoteStanding::InSync,
        !tips_equal ==> r == (RemoteStanding::Diverged { ahead, behind }),
{
    if tips_equal {
        RemoteStanding::InSync
    } else {
        RemoteStanding::Diverged { ahead, behind }
    }
}

/// One repository's status report.
#[derive(Debug)]
pub struct RepoStatusReport {
    /// The repository's directory name.
    pub name: String,
    /// The current branch name, when HEAD has one.
    pub branch: Option<String>,
    /// The coalesced working-tree changes.
    pub changes: ChangeSet,
    /// The relation to the remote-tracking tip.
    pub standing: RemoteStanding,
}

/// Builds the read-only status report for one repository: name, branch,
/// working-tree change classes, and the relation to the remote-tracking
/// tip. The raw facts come from the version-control adapter; their
/// classification is `classify_changes` and `remote_standing`.
pub fn repository_status(repo_path: &str) -> (r: Result<RepoStatusReport, CliError>)
    ensures
        r matches Ok(rep) ==> rep.name@ == after_last_slash(repo_path@),
        r matches Err(e) ==> e is Vcs,
{
    let name = text::path_file_name(repo_path);
    let repo = match vcs::repo_open(repo_path) {
        Ok(r) => r,
        Err(e) => return Err(CliError::Vcs(vcs::error_message(&e))),
    };
    let entries = match vcs::repo_status_flags(&repo) {
        Ok(v) => v,
        Err(e) => return Err(CliError::Vcs(vcs::error_message(&e))),
    };
    let changes = classify_changes(&entries);
    let mut branch: Option<String> = None;
    let mut standing = RemoteStanding::Unknown;
    match vcs::repo_head(&repo) {
        Ok(head) => {
            match vcs::reference_shorthand(&head) {
                Ok(b) => {
                    let remote_ref_name = text::concat2("refs/remotes/origin/", b.as_str());
                    branch = Some(b);
                    match vcs::find_reference(&repo, remote_ref_name.as_str()) {
                        Ok(remote_ref) => {
                            let local_oid = vcs::reference_target(&head);
                            let remote_oid = vcs::reference_target(&remote_ref);
                            match (local_oid, remote_oid) {
                                (Some(local), Some(remote)) => {
                                    let local_bytes = vcs::oid_bytes(&local);
                                    let remote_bytes = vcs::oid_bytes(&remote);
                                    if sync::bytes_eq(&local_bytes, &remote_bytes) {
                                        standing = remote_standing(true, 0, 0);
                                    } else {
                                        match vcs::graph_ahead_behind(&repo, &local, &remote) {
                                            Ok((ahead, behind)) => {
                                                standing = remote_standing(false, ahead, behind);
                                            },
                                            Err(e) => {
                                                return Err(
                                                    CliError::Vcs(vcs::error_message(&e)),
                                                );
                                            },
                                        }
                                    }
                                },
                                _ => (),
                            }
                        },
                        Err(_) => (),
                    }
                },
                Err(_) => (),
            }
        },
        Err(_) => (),
    }
    Ok(RepoStatusReport { name, branch, changes, standing })
}

} // verus!
