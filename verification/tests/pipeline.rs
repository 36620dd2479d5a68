use fbcli::{
    artifact_matches, build_outcome, classify_invocation, deploy_plan, find_workspace_root,
    is_workspace_manifest, locate_built_library, manifest_package_name_of,
    normalize_plugin_identifier, platform_extension, release_target_dir,
    rename_scaffolded_package, resolve_single_plugin, resolve_workspace_member, select_artifact,
    workspace_candidate, CliError, DirEntryInfo, InvocationContext, Platform, TargetKind,
};

fn entry(name: &str) -> DirEntryInfo {
    DirEntryInfo {
        path: format!("target/release/{}", name),
        name: String::from(name),
        is_dir: false,
    }
}

#[test]
fn classify_prefers_plugin_directory() {
    assert!(matches!(
        classify_invocation(true, "plugin_demo", false),
        Ok(InvocationContext::PluginDirectory)
    ));
    assert!(matches!(
        classify_invocation(true, "plugin_demo", true),
        Ok(InvocationContext::PluginDirectory)
    ));
    assert!(matches!(
        classify_invocation(false, "plugin_demo", true),
        Ok(InvocationContext::WorkspaceRoot)
    ));
    assert!(matches!(
        classify_invocation(true, "Horizon", true),
        Ok(InvocationContext::WorkspaceRoot)
    ));
    assert!(matches!(
        classify_invocation(false, "somewhere", false),
        Err(CliError::InvalidInvocationContext)
    ));
}

#[test]
fn single_plugin_mode_takes_manifest_package_name() {
    let target = resolve_single_plugin("plugin_demo", &Some(String::from("plugin_demo")))
        .expect("target resolves");
    assert!(matches!(target.kind, TargetKind::SinglePluginDir));
    assert_eq!(target.source_dir, "plugin_demo");
    assert_eq!(target.package_name, "plugin_demo");
}

#[test]
fn single_plugin_mode_demands_package_name() {
    match resolve_single_plugin("plugin_demo", &None) {
        Err(CliError::ManifestFieldMissing(path)) => {
            assert_eq!(path, "plugin_demo/Cargo.toml")
        }
        other => panic!("unexpected outcome: {:?}", other),
    }
}

#[test]
fn workspace_target_normalizes_identifier() {
    assert_eq!(normalize_plugin_identifier("demo"), "plugin_demo");
    assert_eq!(normalize_plugin_identifier("plugin_demo"), "plugin_demo");
    match workspace_candidate(&Some(String::from("demo"))) {
        Ok(candidate) => assert_eq!(candidate, "plugin_demo"),
        other => panic!("unexpected outcome: {:?}", other),
    }
}

#[test]
fn workspace_target_absent_crate_is_not_found() {
    match resolve_workspace_member("crates/plugin_demo", "plugin_demo", false, &None) {
        Err(CliError::TargetNotFound(name)) => assert_eq!(name, "plugin_demo"),
        other => panic!("unexpected outcome: {:?}", other),
    }
    match resolve_workspace_member("crates/plugin_demo", "plugin_demo", true, &None) {
        Err(CliError::ManifestFieldMissing(path)) => {
            assert_eq!(path, "crates/plugin_demo/Cargo.toml")
        }
        other => panic!("unexpected outcome: {:?}", other),
    }
}

#[test]
fn workspace_target_resolves_existing_crate() {
    let target = resolve_workspace_member(
        "crates/plugin_demo",
        "plugin_demo",
        true,
        &Some(String::from("plugin_demo")),
    )
    .expect("target resolves");
    assert!(matches!(target.kind, TargetKind::WorkspaceMember));
    assert_eq!(target.source_dir, "crates/plugin_demo");
    assert_eq!(target.package_name, "plugin_demo");
}

#[test]
fn workspace_target_requires_argument() {
    assert!(matches!(workspace_candidate(&None), Err(CliError::TargetRequired)));
}

#[test]
fn reserved_package_name_is_rejected_before_building() {
    assert!(matches!(
        resolve_single_plugin("plugin_system", &Some(String::from("plugin_system"))),
        Err(CliError::ReservedPackageName)
    ));
    assert!(matches!(
        workspace_candidate(&Some(String::from("system"))),
        Err(CliError::ReservedPackageName)
    ));
    assert!(matches!(
        workspace_candidate(&Some(String::from("plugin_system"))),
        Err(CliError::ReservedPackageName)
    ));
    assert!(matches!(
        resolve_workspace_member(
            "crates/plugin_other",
            "plugin_other",
            true,
            &Some(String::from("plugin_system"))
        ),
        Err(CliError::ReservedPackageName)
    ));
}

#[test]
fn build_outcome_carries_stderr_verbatim() {
    assert!(build_outcome(true, "").is_ok());
    match build_outcome(false, "error[E0308]: mismatched types") {
        Err(CliError::BuildFailed(stderr)) => {
            assert_eq!(stderr, "error[E0308]: mismatched types")
        },
        other => panic!("unexpected outcome: {:?}", other),
    }
}

#[test]
fn manifest_package_name_is_read_through_parser() {
    let manifest = "[package]\nname = \"plugin_demo\"\nversion = \"0.1.0\"\n";
    assert_eq!(
        manifest_package_name_of(manifest),
        Some(String::from("plugin_demo"))
    );
    assert_eq!(manifest_package_name_of("[dependencies]\n"), None);
    assert_eq!(manifest_package_name_of("not toml ["), None);
}

#[test]
fn scaffolded_package_rename_roundtrips() {
    let manifest = "[package]\nname = \"sample\"\nversion = \"0.1.0\"\n";
    let renamed = rename_scaffolded_package(manifest, "demo").expect("manifest parses");
    assert_eq!(
        manifest_package_name_of(renamed.as_str()),
        Some(String::from("plugin_demo"))
    );
    assert!(matches!(
        rename_scaffolded_package("not toml [", "demo"),
        Err(CliError::ManifestMalformed)
    ));
}

#[test]
fn workspace_marker_is_a_substring_test() {
    assert!(is_workspace_manifest("[workspace]\nmembers = [\"crates/*\"]\n"));
    assert!(!is_workspace_manifest("[package]\nname = \"x\"\n"));
}

#[test]
fn nearest_workspace_ancestor_wins() {
    let manifests = vec![
        None,
        Some(String::from("[package]\nname = \"a\"\n")),
        Some(String::from("[workspace]\n")),
        Some(String::from("[workspace]\n")),
    ];
    assert_eq!(find_workspace_root(&manifests), Some(2));
    assert_eq!(find_workspace_root(&vec![None, None]), None);
    assert_eq!(release_target_dir("."), "./target/release");
}

#[test]
fn platform_extensions() {
    assert_eq!(platform_extension(Platform::Windows), "dll");
    assert_eq!(platform_extension(Platform::MacOs), "dylib");
    assert_eq!(platform_extension(Platform::Linux), "so");
}

#[test]
fn artifact_heuristic_matches_prefix_and_mangled_names() {
    assert!(artifact_matches("plugin_demo.so", "plugin_demo", "so"));
    assert!(artifact_matches("libplugin_demo.so", "libplugin_demo", "so"));
    assert!(artifact_matches("plugin_x_demo_y.so", "demo", "so"));
    assert!(!artifact_matches("plugin_demo.dll", "plugin_demo", "so"));
    assert!(!artifact_matches("plugin_demo.so.txt", "plugin_demo", "so"));
    assert!(!artifact_matches("other_demo.so", "zdemo", "so"));
    assert!(!artifact_matches(".so", "", "so"));
}

#[test]
fn ambiguous_artifacts_first_match_wins() {
    let entries = vec![entry("plugin_demo.so"), entry("plugin_demo_extra.so")];
    assert_eq!(select_artifact(&entries, "plugin_demo", "so"), Some(0));
    let reversed = vec![entry("plugin_demo_extra.so"), entry("plugin_demo.so")];
    assert_eq!(select_artifact(&reversed, "plugin_demo", "so"), Some(0));
}

#[test]
fn artifact_selection_is_idempotent() {
    let entries = vec![
        entry("notes.txt"),
        entry("plugin_demo.so"),
        entry("plugin_demo_extra.so"),
    ];
    let first = select_artifact(&entries, "plugin_demo", "so");
    let second = select_artifact(&entries, "plugin_demo", "so");
    assert_eq!(first, Some(1));
    assert_eq!(first, second);
}

#[test]
fn artifact_selection_none_when_no_match() {
    let entries = vec![entry("readme.md"), entry("plugin_demo.dll")];
    assert_eq!(select_artifact(&entries, "plugin_demo", "so"), None);
}

#[test]
fn locating_in_missing_directory_fails() {
    assert!(matches!(
        locate_built_library("surely/not/an/existing/dir", "plugin_demo", Platform::Linux),
        Err(CliError::Filesystem(_))
    ));
}

#[test]
fn locating_without_match_reports_artifact_not_found() {
    match locate_built_library(".", "zzz_no_such_package_zzz", Platform::Linux) {
        Err(CliError::ArtifactNotFound { directory, package }) => {
            assert_eq!(directory, ".");
            assert_eq!(package, "zzz_no_such_package_zzz");
        }
        other => panic!("unexpected outcome: {:?}", other),
    }
}

#[test]
fn deploy_plan_keeps_file_name_under_plugins_dir() {
    let plan = deploy_plan("target/release/plugin_demo.so", "../Horizon").expect("plan exists");
    assert_eq!(plan.plugins_dir, "../Horizon/plugins");
    assert_eq!(plan.destination, "../Horizon/plugins/plugin_demo.so");
    let twice = deploy_plan("target/release/plugin_demo.so", "../Horizon").expect("plan exists");
    assert_eq!(plan.destination, twice.destination);
}

#[test]
fn deploy_plan_rejects_directory_paths() {
    assert!(matches!(
        deploy_plan("target/release/", "../Horizon"),
        Err(CliError::Filesystem(_))
    ));
    assert!(matches!(deploy_plan("", "../Horizon"), Err(CliError::Filesystem(_))));
}

#[test]
fn deploy_plan_rejects_dot_components() {
    assert!(matches!(
        deploy_plan("target/release/..", "../Horizon"),
        Err(CliError::Filesystem(_))
    ));
    assert!(matches!(
        deploy_plan("target/release/.", "../Horizon"),
        Err(CliError::Filesystem(_))
    ));
    assert!(matches!(deploy_plan("..", "../Horizon"), Err(CliError::Filesystem(_))));
}

#[test]
fn rename_requires_a_package_table() {
    assert!(matches!(
        rename_scaffolded_package("package = 1
", "demo"),
        Err(CliError::ManifestMalformed)
    ));
    assert!(matches!(
        rename_scaffolded_package("[[package]]
name = \"x\"
", "demo"),
        Err(CliError::ManifestMalformed)
    ));
    assert!(matches!(
        rename_scaffolded_package("[dependencies]
", "demo"),
        Err(CliError::ManifestMalformed)
    ));
}
