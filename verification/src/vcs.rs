//! Trusted adapter over the git2 library: repository handles, references,
//! commit ids, fetches and checkouts. Every result that depends on what is
//! on disk or on the network is handed to verified decision code as a plain
//! value; the contracts here promise nothing about those values.

use vstd::prelude::*;

verus! {

#[verifier::external_type_specification]
#[verifier::external_body]
pub struct ExRepository(git2::Repository);

#[verifier::external_type_specification]
#[verifier::external_body]
pub struct ExRemote<'a>(git2::Remote<'a>);

#[verifier::external_type_specification]
#[verifier::external_body]
pub struct ExReference<'a>(git2::Reference<'a>);

#[verifier::external_type_specification]
#[verifier::external_body]
pub struct ExOid(git2::Oid);

#[verifier::external_type_specification]
#[verifier::external_body]
pub struct ExAnnotatedCommit<'a>(git2::AnnotatedCommit<'a>);

#[verifier::external_type_specification]
#[verifier::external_body]
pub struct ExMergeAnalysis(git2::MergeAnalysis);

#[verifier::external_type_specification]
#[verifier::external_body]
pub struct ExGitError(git2::Error);

/// One working-tree status entry, reduced to the three change classes the
/// status report distinguishes.
#[derive(Clone, Copy, PartialEq, Eq, Structural, Debug)]
pub struct ChangeFlags {
    pub modified: bool,
    pub untracked: bool,
    pub staged: bool,
}

/// Relies on git2::Repository::open: opens the repository at the path.
#[verifier::external_body]
pub(crate) fn repo_open(path: &str) -> Result<git2::Repository, git2::Error> {
    git2::Repository::open(path)
}

/// Relies on git2::Repository::clone: clones the repository at `url` into
/// the directory `into`.
#[verifier::external_body]
pub(crate) fn repo_clone(url: &str, into: &str) -> Result<git2::Repository, git2::Error> {
    git2::Repository::clone(url, into)
}

/// Relies on git2::Repository::find_remote: looks the named remote up.
#[verifier::external_body]
pub(crate) fn find_remote<'r>(
    repo: &'r git2::Repository,
    name: &str,
) -> Result<git2::Remote<'r>, git2::Error> {
    repo.find_remote(name)
}

/// Relies on git2::Remote::url: the configured URL of the remote.
#[verifier::external_body]
pub(crate) fn remote_url(remote: &git2::Remote<'_>) -> Result<String, git2::Error> {
    match remote.url() {
        Ok(u) => Ok(u.to_owned()),
        Err(e) => Err(e),
    }
}

/// Relies on git2::Remote::fetch with an empty refspec list: downloads the
/// remote's refs as configured for the remote.
#[verifier::external_body]
pub(crate) fn remote_fetch(remote: &mut git2::Remote<'_>) -> Result<(), git2::Error> {
    let refspecs: &[&str] = &[];
    remote.fetch(refspecs, None, None)
}

/// Relies on git2::Repository::head: the reference HEAD points at.
#[verifier::external_body]
pub(crate) fn repo_head<'r>(
    repo: &'r git2::Repository,
) -> Result<git2::Reference<'r>, git2::Error> {
    repo.head()
}

/// Relies on git2::Reference::target: the commit id the reference points
/// at, when it is direct.
#[verifier::external_body]
pub(crate) fn reference_target(reference: &git2::Reference<'_>) -> Option<git2::Oid> {
    reference.target()
}

/// Relies on git2::Reference::shorthand: the short branch name of the
/// reference, when it is valid UTF-8.
#[verifier::external_body]
pub(crate) fn reference_shorthand(
    reference: &git2::Reference<'_>,
) -> Result<String, git2::Error> {
    match reference.shorthand() {
        Ok(s) => Ok(s.to_owned()),
        Err(e) => Err(e),
    }
}

/// Relies on git2::Repository::find_reference: looks a reference up by its
/// full name.
#[verifier::external_body]
pub(crate) fn find_reference<'r>(
    repo: &'r git2::Repository,
    name: &str,
) -> Result<git2::Reference<'r>, git2::Error> {
    repo.find_reference(name)
}

/// Relies on git2::Oid::as_bytes: the twenty raw bytes of the commit id.
#[verifier::external_body]
pub(crate) fn oid_bytes(oid: &git2::Oid) -> Vec<u8> {
    oid.as_bytes().to_vec()
}

/// Relies on git2::Repository::find_annotated_commit: the annotated commit
/// for the id, as merge analysis wants it.
#[verifier::external_body]
pub(crate) fn annotated_commit<'r>(
    repo: &'r git2::Repository,
    oid: &git2::Oid,
) -> Result<git2::AnnotatedCommit<'r>, git2::Error> {
    repo.find_annotated_commit(*oid)
}

/// Relies on git2::Repository::merge_analysis: classifies how the commit
/// relates to the current head.
#[verifier::external_body]
pub(crate) fn merge_analysis(
    repo: &git2::Repository,
    commit: &git2::AnnotatedCommit<'_>,
) -> Result<git2::MergeAnalysis, git2::Error> {
    match repo.merge_analysis(&[commit]) {
        Ok((analysis, _)) => Ok(analysis),
        Err(e) => Err(e),
    }
}

/// Relies on git2::MergeAnalysis::is_fast_forward: whether the analysis
/// found a fast-forward opportunity.
#[verifier::external_body]
pub(crate) fn analysis_is_fast_forward(analysis: &git2::MergeAnalysis) -> bool {
    analysis.is_fast_forward()
}

/// Relies on git2::Reference::set_target: moves the reference to the commit
/// id, recording a reflog message.
#[verifier::external_body]
pub(crate) fn reference_set_target(
    reference: &mut git2::Reference<'_>,
    oid: &git2::Oid,
) -> Result<(), git2::Error> {
    match reference.set_target(*oid, "Fast-forward") {
        Ok(_) => Ok(()),
        Err(e) => Err(e),
    }
}

/// Relies on git2::Repository::set_head: points HEAD at the named
/// reference.
#[verifier::external_body]
pub(crate) fn repo_set_head(repo: &git2::Repository, refname: &str) -> Result<(), git2::Error> {
    repo.set_head(refname)
}

/// Relies on git2::Repository::checkout_head with the force option: makes
/// the working tree match HEAD, discarding local modifications.
#[verifier::external_body]
pub(crate) fn checkout_head_force(repo: &git2::Repository) -> Result<(), git2::Error> {
    repo.checkout_head(Some(git2::build::CheckoutBuilder::default().force()))
}

/// Relies on git2::Repository::statuses, git2::StatusEntry::status and
/// git2::Status::contains: each working-tree status entry converted to the
/// three change flags the report reads.
#[verifier::external_body]
pub(crate) fn repo_status_flags(
    repo: &git2::Repository,
) -> Result<Vec<ChangeFlags>, git2::Error> {
    match repo.statuses(None) {
        Ok(statuses) => Ok(statuses
            .iter()
            .map(|entry| {
                let flags = entry.status();
                ChangeFlags {
                    modified: flags.contains(git2::Status::WT_MODIFIED),
                    untracked: flags.contains(git2::Status::WT_NEW),
                    staged: flags.contains(git2::Status::INDEX_NEW),
                }
            })
            .collect()),
        Err(e) => Err(e),
    }
}

/// Relies on git2::Repository::graph_ahead_behind: how many commits each
/// tip has that the other lacks.
#[verifier::external_body]
pub(crate) fn graph_ahead_behind(
    repo: &git2::Repository,
    local: &git2::Oid,
    remote: &git2::Oid,
) -> Result<(usize, usize), git2::Error> {
    repo.graph_ahead_behind(*local, *remote)
}

/// Relies on git2::Error::message: the failure description.
#[verifier::external_body]
pub(crate) fn error_message(error: &git2::Error) -> String {
    error.message().to_owned()
}

} // verus!
