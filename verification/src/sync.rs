//! The fast-forward-only synchronization engine: the merge decision for one
//! repository, the model of what applying it does to the local tip, and the
//! per-repository update pass built on the version-control adapter.

use vstd::prelude::*;
use crate::errors::CliError;
use crate::text;
use crate::vcs;

verus! {

/// How the remote tip relates to the local tip, and what may be done about
/// it.
#[derive(Debug)]
pub enum MergeDecision {
    /// The tips are equal; nothing is to be done.
    UpToDate,
    /// The remote tip extends local history; the local ref may move to the
    /// held commit id.
    FastForwardEligible(Vec<u8>),
    /// The histories have diverged; nothing is mutated.
    DivergedRequiresManualMerge,
}

/// The decision as a mathematical value, over commit ids as byte sequences.
pub enum MergeDecisionModel {
    UpToDate,
    FastForwardEligible(Seq<u8>),
    DivergedRequiresManualMerge,
}

/// The model of an executable decision.
pub open spec fn decision_model(d: MergeDecision) -> MergeDecisionModel {
    match d {
        MergeDecision::UpToDate => MergeDecisionModel::UpToDate,
        MergeDecision::FastForwardEligible(t) => MergeDecisionModel::FastForwardEligible(t@),
        MergeDecision::DivergedRequiresManualMerge
            => MergeDecisionModel::DivergedRequiresManualMerge,
    }
}

/// The merge decision for a repository whose local tip is `local`, whose
/// remote tip is `remote`, and whose merge analysis found the remote to
/// extend local history exactly when `remote_descends` holds.
pub open spec fn decide_merge_spec(
    local: Seq<u8>,
    remote: Seq<u8>,
    remote_descends: bool,
) -> MergeDecisionModel {
    if local == remote {
        MergeDecisionModel::UpToDate
    } else if remote_descends {
        MergeDecisionModel::FastForwardEligible(remote)
    } else {
        MergeDecisionModel::DivergedRequiresManualMerge
    }
}

/// The local tip after a decision is applied: only a fast-forward moves it.
pub open spec fn apply_decision(local: Seq<u8>, d: MergeDecisionModel) -> Seq<u8> {
    match d {
        MergeDecisionModel::FastForwardEligible(target) => target,
        _ => local,
    }
}

/// When the tips are equal the engine reports up to date and applying the
/// decision leaves the local tip unchanged.
pub proof fn lemma_up_to_date_no_mutation(local: Seq<u8>, remote: Seq<u8>, remote_descends: bool)
    requires
        local == remote,
    ensures
        decide_merge_spec(local, remote, remote_descends) is UpToDate,
        apply_decision(local, decide_merge_spec(local, remote, remote_descends)) == local,
{
}

/// When the remote tip extends local history and differs from the local
/// tip, the engine finds a fast-forward eligible and applying it makes the
/// local tip equal to the remote tip.
pub proof fn lemma_fast_forward_reaches_remote(local: Seq<u8>, remote: Seq<u8>)
    requires
        local != remote,
    ensures
        decide_merge_spec(local, remote, true) matches MergeDecisionModel::FastForwardEligible(t)
            && t == remote,
        apply_decision(local, decide_merge_spec(local, remote, true)) == remote,
{
}

/// When the histories have diverged the engine demands a manual merge and
/// applying the decision leaves the local tip unchanged.
pub proof fn lemma_diverged_unchanged(local: Seq<u8>, remote: Seq<u8>)
    requires
        local != remote,
    ensures
        decide_merge_spec(local, remote, false) is DivergedRequiresManualMerge,
        apply_decision(local, decide_merge_spec(local, remote, false)) == local,
{
}

/// The two byte strings are equal.
pub fn bytes_eq(a: &Vec<u8>, b: &Vec<u8>) -> (r: bool)
    ensures
        r == (a@ == b@),
{
    if a.len() != b.len() {
        assert(a@ != b@);
        return false;
    }
    let mut i: usize = 0;
    while i < a.len()
        invariant
            a@.len() == b@.len(),
            0 <= i <= a@.len(),
            forall|k: int| 0 <= k < i ==> a@[k] == b@[k],
        decreases a@.len() - i,
    {
        if a[i] != b[i] {
            return false;
        }
        i += 1;
    }
    assert(a@ =~= b@);
    true
}

/// A copy of a byte string.
pub fn bytes_clone(a: &Vec<u8>) -> (r: Vec<u8>)
    ensures
        r@ == a@,
{
    let mut r: Vec<u8> = Vec::new();
    let mut i: usize = 0;
    while i < a.len()
        invariant
            0 <= i <= a@.len(),
            r@ == a@.subrange(0, i as int),
        decreases a@.len() - i,
    {
        r.push(a[i]);
        i += 1;
        assert(r@ =~= a@.subrange(0, i as int));
    }
    assert(r@ =~= a@);
    r
}

/// Decides the merge action from the two tips and the analysis verdict.
pub fn decide_merge(local: &Vec<u8>, remote: &Vec<u8>, remote_descends: bool) -> (d: MergeDecision)
    ensures
        decision_model(d) == decide_merge_spec(local@, remote@, remote_descends),
{
    if bytes_eq(local, remote) {
        MergeDecision::UpToDate
    } else if remote_descends {
        MergeDecision::FastForwardEligible(bytes_clone(remote))
    } else {
        MergeDecision::DivergedRequiresManualMerge
    }
}

fn vcs_error(e: &git2::Error) -> (r: CliError)
    ensures
        r is Vcs,
{
    CliError::Vcs(vcs::error_message(e))
}

/// The branch name the sync pass works on: HEAD's shorthand when it has
/// one, else the explicit "main" fallback (an unborn or detached HEAD is
/// not an error).
pub fn sync_branch_name(shorthand: &Option<String>) -> (r: String)
    ensures
        shorthand matches Some(b) ==> r@ == b@,
        shorthand is None ==> r@ == "main"@,
{
    match shorthand {
        Some(b) => b.clone(),
        None => String::from_str("main"),
    }
}

/// The remote-tracking reference consulted for a branch.
pub fn remote_tracking_ref(branch: &str) -> (r: String)
    ensures
        r@ == "refs/remotes/origin/"@ + branch@,
{
    text::concat2("refs/remotes/origin/", branch)
}

/// The local branch reference a fast-forward moves.
pub fn local_branch_ref(branch: &str) -> (r: String)
    ensures
        r@ == "refs/heads/"@ + branch@,
{
    text::concat2("refs/heads/", branch)
}

/// One repository's update pass: fetch from origin, read both tips, decide,
/// and apply only a fast-forward. Ok(false) reports an already-current
/// repository, Ok(true) a performed fast-forward; a diverged history is the
/// `DivergedHistory` error, and every adapter failure — a missing
/// remote-tracking reference among them — is a `Vcs` error for this
/// repository alone. The tips and the analysis verdict come from the
/// version-control adapter; the decision among them is `decide_merge`, the
/// branch-name fallback is `sync_branch_name`, and the references touched
/// are those of `remote_tracking_ref` and `local_branch_ref` for that
/// branch.
pub fn update_single_repository(repo_path: &str) -> (r: Result<bool, CliError>)
    ensures
        r matches Err(e) ==> (e is Vcs || e is DivergedHistory),
{
    let repo = match vcs::repo_open(repo_path) {
        Ok(r) => r,
        Err(e) => return Err(vcs_error(&e)),
    };
    let mut remote = match vcs::find_remote(&repo, "origin") {
        Ok(r) => r,
        Err(e) => return Err(vcs_error(&e)),
    };
    match vcs::remote_fetch(&mut remote) {
        Ok(()) => (),
        Err(e) => return Err(vcs_error(&e)),
    }
    let head = match vcs::repo_head(&repo) {
        Ok(h) => h,
        Err(e) => return Err(vcs_error(&e)),
    };
    let local_oid = match vcs::reference_target(&head) {
        Some(o) => o,
        None => return Err(CliError::Vcs(String::from_str("HEAD has no commit id"))),
    };
    let shorthand = match vcs::reference_shorthand(&head) {
        Ok(b) => Some(b),
        Err(_) => None,
    };
    let branch = sync_branch_name(&shorthand);
    let remote_ref_name = remote_tracking_ref(branch.as_str());
    let remote_ref = match vcs::find_reference(&repo, remote_ref_name.as_str()) {
        Ok(r) => r,
        Err(e) => return Err(vcs_error(&e)),
    };
    let remote_oid = match vcs::reference_target(&remote_ref) {
        Some(o) => o,
        None => return Err(CliError::Vcs(String::from_str("remote ref has no commit id"))),
    };
    let local_bytes = vcs::oid_bytes(&local_oid);
    let remote_bytes = vcs::oid_bytes(&remote_oid);
    if bytes_eq(&local_bytes, &remote_bytes) {
        return Ok(false);
    }
    let annotated = match vcs::annotated_commit(&repo, &remote_oid) {
        Ok(c) => c,
        Err(e) => return Err(vcs_error(&e)),
    };
    let analysis = match vcs::merge_analysis(&repo, &annotated) {
        Ok(a) => a,
        Err(e) => return Err(vcs_error(&e)),
    };
    let fast_forward = vcs::analysis_is_fast_forward(&analysis);
    let decision = decide_merge(&local_bytes, &remote_bytes, fast_forward);
    match decision {
        MergeDecision::UpToDate => Ok(false),
        MergeDecision::DivergedRequiresManualMerge => Err(CliError::DivergedHistory),
        MergeDecision::FastForwardEligible(_) => {
            let branch_ref_name = local_branch_ref(branch.as_str());
            let mut local_ref = match vcs::find_reference(&repo, branch_ref_name.as_str()) {
                Ok(r) => r,
                Err(e) => return Err(vcs_error(&e)),
            };
            match vcs::reference_set_target(&mut local_ref, &remote_oid) {
                Ok(()) => (),
                Err(e) => return Err(vcs_error(&e)),
            }
            match vcs::repo_set_head(&repo, branch_ref_name.as_str()) {
                Ok(()) => (),
                Err(e) => return Err(vcs_error(&e)),
            }
            match vcs::checkout_head_force(&repo) {
                Ok(()) => (),
                Err(e) => return Err(vcs_error(&e)),
            }
            Ok(true)
        },
    }
}

} // verus!
