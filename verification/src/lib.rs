use vstd::prelude::*;

mod errors;
mod fleet;
mod manifest;
mod plugin;
mod probe;
mod repos;
mod status;
mod sync;
mod text;
mod utils;
mod vcs;

pub use fleet::{fleet_filter, is_fleet_url, scan_fleet, update_fleet, RepoCandidate, UpdateOutcome};
pub use manifest::{manifest_package_name_of, rename_scaffolded_package};
pub use plugin::{
    artifact_matches, build_outcome, classify_invocation, deploy_plan, find_workspace_root,
    is_workspace_manifest, locate_built_library, normalize_plugin_identifier, platform_extension,
    release_target_dir, resolve_single_plugin, resolve_workspace_member, select_artifact,
    workspace_candidate, BuildTarget, DeployPlan, InvocationContext, Platform, TargetKind,
};
pub use probe::DirEntryInfo;
pub use repos::{
    clone_repository, clone_sample_repo, clone_target_outcome, clone_url, filter_visible,
    RepoInfo,
};
pub use status::{
    change_labels, classify_changes, remote_standing, repository_status, ChangeSet,
    RemoteStanding, RepoStatusReport,
};
pub use sync::{
    decide_merge, local_branch_ref, remote_tracking_ref, sync_branch_name,
    update_single_repository, MergeDecision,
};
pub use vcs::ChangeFlags;

pub use errors::CliError;
pub use utils::{
    branch_from_output, check_cargo_available, check_git_available, command_exists, format_bytes,
    is_git_repository, is_rust_project, tool_outcome, validate_plugin_name,
};
