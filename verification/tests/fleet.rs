use fbcli::{
    change_labels, classify_changes, clone_target_outcome, clone_url, decide_merge,
    filter_visible, fleet_filter, is_fleet_url, local_branch_ref, remote_standing,
    remote_tracking_ref, repository_status, sync_branch_name, update_fleet, ChangeFlags,
    ChangeSet, CliError, MergeDecision, RemoteStanding, RepoCandidate, RepoInfo, UpdateOutcome,
};

fn candidate(path: &str, is_dir: bool, has_vcs_dir: bool, url: Option<&str>) -> RepoCandidate {
    RepoCandidate {
        path: String::from(path),
        is_dir,
        has_vcs_dir,
        origin_url: url.map(String::from),
    }
}

fn repo(name: &str, private: bool) -> RepoInfo {
    RepoInfo {
        name: String::from(name),
        full_name: format!("Far-Beyond-Dev/{}", name),
        description: None,
        html_url: format!("https://github.com/Far-Beyond-Dev/{}", name),
        clone_url: format!("https://github.com/Far-Beyond-Dev/{}.git", name),
        ssh_url: format!("git@github.com:Far-Beyond-Dev/{}.git", name),
        private,
        default_branch: String::from("main"),
        updated_at: String::from("2024-01-01T00:00:00Z"),
    }
}

#[test]
fn equal_tips_are_up_to_date() {
    let tip = vec![0xab_u8, 0x12, 0x34];
    let decision = decide_merge(&tip, &tip.clone(), false);
    assert!(matches!(decision, MergeDecision::UpToDate));
    let decision = decide_merge(&tip, &tip.clone(), true);
    assert!(matches!(decision, MergeDecision::UpToDate));
}

#[test]
fn descendant_remote_is_fast_forward_eligible() {
    let local = vec![1_u8, 2, 3];
    let remote = vec![4_u8, 5, 6];
    match decide_merge(&local, &remote, true) {
        MergeDecision::FastForwardEligible(target) => assert_eq!(target, remote),
        other => panic!("unexpected decision: {:?}", other),
    }
}

#[test]
fn diverged_histories_demand_manual_merge() {
    let local = vec![1_u8, 2, 3];
    let remote = vec![4_u8, 5, 6];
    assert!(matches!(
        decide_merge(&local, &remote, false),
        MergeDecision::DivergedRequiresManualMerge
    ));
}

#[test]
fn branch_name_falls_back_to_main() {
    assert_eq!(sync_branch_name(&Some(String::from("develop"))), "develop");
    assert_eq!(sync_branch_name(&None), "main");
    assert_eq!(remote_tracking_ref("main"), "refs/remotes/origin/main");
    assert_eq!(local_branch_ref("main"), "refs/heads/main");
}

#[test]
fn existing_clone_target_is_refused() {
    assert!(clone_target_outcome(false, "Horizon").is_ok());
    match clone_target_outcome(true, "Horizon") {
        Err(CliError::Filesystem(msg)) => {
            assert_eq!(msg, "Directory 'Horizon' already exists")
        }
        other => panic!("unexpected outcome: {:?}", other),
    }
}

#[test]
fn fleet_url_match_is_case_insensitive() {
    assert!(is_fleet_url("https://github.com/Far-Beyond-Dev/Horizon.git"));
    assert!(is_fleet_url("git@github.com:far-beyond-dev/Horizon.git"));
    assert!(is_fleet_url("https://github.com/FAR-BEYOND-DEV/x"));
    assert!(!is_fleet_url("https://github.com/other-org/Horizon.git"));
    assert!(!is_fleet_url(""));
}

#[test]
fn fleet_filter_keeps_matching_directories_in_order() {
    let org = "https://github.com/Far-Beyond-Dev/Horizon.git";
    let candidates = vec![
        candidate("./Horizon", true, true, Some(org)),
        candidate("./notes.txt", false, false, None),
        candidate("./other", true, true, Some("https://github.com/elsewhere/x.git")),
        candidate("./no-remote", true, true, None),
        candidate("./PebbleVault", true, true, Some("git@github.com:far-beyond-dev/PebbleVault.git")),
        candidate("./plain-dir", true, false, Some(org)),
    ];
    let kept = fleet_filter(&candidates);
    assert_eq!(kept, vec!["./Horizon", "./PebbleVault"]);
}

#[test]
fn update_pass_is_isolated_per_repository() {
    let paths = vec![
        String::from("/surely/not/an/existing/repo-one"),
        String::from("/surely/not/an/existing/repo-two"),
    ];
    let report = update_fleet(&paths);
    assert_eq!(report.len(), 2);
    assert_eq!(report[0].0, "repo-one");
    assert_eq!(report[1].0, "repo-two");
    assert!(matches!(report[0].1, UpdateOutcome::Failed(_)));
    assert!(matches!(report[1].1, UpdateOutcome::Failed(_)));
}

#[test]
fn update_pass_of_empty_fleet_is_empty() {
    assert_eq!(update_fleet(&Vec::new()).len(), 0);
}

#[test]
fn status_of_missing_repository_is_a_vcs_error() {
    assert!(matches!(
        repository_status("/surely/not/an/existing/repo"),
        Err(CliError::Vcs(_))
    ));
}

#[test]
fn change_classes_coalesce_into_a_set() {
    let entries = vec![
        ChangeFlags { modified: true, untracked: false, staged: false },
        ChangeFlags { modified: true, untracked: false, staged: true },
        ChangeFlags { modified: false, untracked: false, staged: false },
    ];
    let set = classify_changes(&entries);
    assert_eq!(set, ChangeSet { modified: true, untracked: false, staged: true });
    assert!(!set.clean());
    assert!(classify_changes(&Vec::new()).clean());
}

#[test]
fn change_labels_keep_conventional_order() {
    let set = ChangeSet { modified: true, untracked: true, staged: true };
    assert_eq!(change_labels(set), vec!["modified", "untracked", "staged"]);
    let set = ChangeSet { modified: false, untracked: true, staged: true };
    assert_eq!(change_labels(set), vec!["untracked", "staged"]);
    assert_eq!(
        change_labels(ChangeSet { modified: false, untracked: false, staged: false }).len(),
        0
    );
}

#[test]
fn remote_standing_reports_counts_only_on_differing_tips() {
    assert_eq!(remote_standing(true, 0, 0), RemoteStanding::InSync);
    assert_eq!(
        remote_standing(false, 2, 3),
        RemoteStanding::Diverged { ahead: 2, behind: 3 }
    );
}

#[test]
fn clone_urls_follow_the_transport() {
    assert_eq!(
        clone_url("Horizon", false),
        "https://github.com/Far-Beyond-Dev/Horizon.git"
    );
    assert_eq!(clone_url("Horizon", true), "git@github.com:Far-Beyond-Dev/Horizon.git");
}

#[test]
fn repository_listing_filters_private_repositories() {
    let repos = vec![repo("alpha", false), repo("beta", true), repo("gamma", false)];
    let all = filter_visible(&repos, false);
    assert_eq!(all.len(), 3);
    let public = filter_visible(&repos, true);
    assert_eq!(public.len(), 2);
    assert_eq!(public[0].name, "alpha");
    assert_eq!(public[1].name, "gamma");
}
