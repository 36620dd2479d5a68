//! Repository commands: cloning an organization repository, cloning the
//! plugin sample scaffold, and filtering the organization's repository
//! listing for display.

use vstd::prelude::*;
use crate::errors::CliError;
use crate::probe;
use crate::text;
use crate::vcs;

verus! {

/// The clone URL for an organization repository, over SSH or HTTPS.
pub fn clone_url(repo_name: &str, use_ssh: bool) -> (r: String)
    ensures
        use_ssh ==> r@ == "git@github.com:Far-Beyond-Dev/"@ + repo_name@ + ".git"@,
        !use_ssh ==> r@ == "https://github.com/Far-Beyond-Dev/"@ + repo_name@ + ".git"@,
{
    if use_ssh {
        text::concat3("git@github.com:Far-Beyond-Dev/", repo_name, ".git")
    } else {
        text::concat3("https://github.com/Far-Beyond-Dev/", repo_name, ".git")
    }
}

/// The admission verdict for a clone target: an existing directory is
/// refused with a `Filesystem` error naming it, before anything would be
/// fetched.
pub fn clone_target_outcome(target_exists: bool, target: &str) -> (r: Result<(), CliError>)
    ensures
        !target_exists ==> r is Ok,
        target_exists ==> (r matches Err(e) && e matches CliError::Filesystem(m) && m@
            == "Directory '"@ + target@ + "' already exists"@),
{
    if target_exists {
        Err(CliError::Filesystem(text::concat3("Directory '", target, "' already exists")))
    } else {
        Ok(())
    }
}

/// Clones an organization repository into the chosen directory, which
/// defaults to the repository's name; an existing directory is refused by
/// `clone_target_outcome` before the adapter's clone is called, and a
/// failed clone is a `Vcs` error.
pub fn clone_repository(repo_name: &str, target_path: &Option<String>, use_ssh: bool) -> (r:
    Result<String, CliError>)
    ensures
        r matches Ok(t) ==> (target_path is Some ==> t@ == target_path->Some_0@) && (
        target_path is None ==> t@ == repo_name@),
        r matches Err(e) ==> (e is Filesystem || e is Vcs),
{
    let target = match target_path {
        Some(p) => p.clone(),
        None => String::from_str(repo_name),
    };
    let target_exists = probe::path_exists(target.as_str());
    match clone_target_outcome(target_exists, target.as_str()) {
        Ok(()) => (),
        Err(e) => return Err(e),
    }
    let url = clone_url(repo_name, use_ssh);
    match vcs::repo_clone(url.as_str(), target.as_str()) {
        Ok(_) => Ok(target),
        Err(e) => Err(CliError::Vcs(vcs::error_message(&e))),
    }
}

/// Clones the plugin sample scaffold into the new plugin's directory; a
/// failed clone is a `Vcs` error.
pub fn clone_sample_repo(target_dir: &str) -> (r: Result<(), CliError>)
    ensures
        r matches Err(e) ==> e is Vcs,
{
    match vcs::repo_clone(
        "https://github.com/Far-Beyond-Dev/Horizon-Plugin-Sample.git",
        target_dir,
    ) {
        Ok(_) => Ok(()),
        Err(e) => Err(CliError::Vcs(vcs::error_message(&e))),
    }
}

/// One repository of the organization's listing, as the display command
/// reads it.
#[derive(Debug)]
pub struct RepoInfo {
    pub name: String,
    pub full_name: String,
    pub description: Option<String>,
    pub html_url: String,
    pub clone_url: String,
    pub ssh_url: String,
    pub private: bool,
    pub default_branch: String,
    pub updated_at: String,
}

impl Clone for RepoInfo {
    /// An equal copy of the record.
    fn clone(&self) -> (r: Self)
        ensures
            r == *self,
    {
        RepoInfo {
            name: self.name.clone(),
            full_name: self.full_name.clone(),
            description: match &self.description {
                Some(d) => Some(d.clone()),
                None => None,
            },
            html_url: self.html_url.clone(),
            clone_url: self.clone_url.clone(),
            ssh_url: self.ssh_url.clone(),
            private: self.private,
            default_branch: self.default_branch.clone(),
            updated_at: self.updated_at.clone(),
        }
    }
}

/// Whether the listing shows the repository: a private repository is
/// hidden exactly when only public ones were asked for.
pub open spec fn visible(repo: RepoInfo, public_only: bool) -> bool {
    !public_only || !repo.private
}

/// The subsequence of visible repositories, in order.
pub open spec fn visible_repos(repos: Seq<RepoInfo>, public_only: bool) -> Seq<RepoInfo>
    decreases repos.len(),
{
    if repos.len() == 0 {
        Seq::empty()
    } else {
        let rest = visible_repos(repos.drop_last(), public_only);
        if visible(repos.last(), public_only) {
            rest.push(repos.last())
        } else {
            rest
        }
    }
}

/// Keeps the visible repositories, in their listed order.
pub fn filter_visible(repos: &Vec<RepoInfo>, public_only: bool) -> (r: Vec<RepoInfo>)
    ensures
        r@ == visible_repos(repos@, public_only),
{
    let mut r: Vec<RepoInfo> = Vec::new();
    let mut i: usize = 0;
    while i < repos.len()
        invariant
            0 <= i <= repos@.len(),
            r@ == visible_repos(repos@.subrange(0, i as int), public_only),
        decreases repos.len() - i,
    {
        proof {
            assert(repos@.subrange(0, i + 1).drop_last() =~= repos@.subrange(0, i as int));
            assert(repos@.subrange(0, i + 1).last() == repos@[i as int]);
        }
        if !public_only || !repos[i].private {
            r.push(repos[i].clone());
        }
        i += 1;
    }
    proof {
        assert(repos@.subrange(0, repos@.len() as int) =~= repos@);
    }
    r
}

} // verus!
