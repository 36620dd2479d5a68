use fbcli::{
    branch_from_output, check_cargo_available, check_git_available, format_bytes,
    is_git_repository, is_rust_project, tool_outcome, validate_plugin_name, CliError,
};

#[test]
fn test_validate_plugin_name() {
    assert!(validate_plugin_name("my_plugin").is_ok());
    assert!(validate_plugin_name("my-plugin").is_ok());
    assert!(validate_plugin_name("plugin123").is_ok());
    assert!(validate_plugin_name("MyPlugin").is_ok());

    assert!(validate_plugin_name("").is_err());
    assert!(validate_plugin_name("_plugin").is_err());
    assert!(validate_plugin_name("-plugin").is_err());
    assert!(validate_plugin_name("my plugin").is_err());
    assert!(validate_plugin_name("my@plugin").is_err());
}

#[test]
fn test_format_bytes() {
    assert_eq!(format_bytes(0), "0 B");
    assert_eq!(format_bytes(1023), "1023 B");
    assert_eq!(format_bytes(1024), "1.0 KB");
    assert_eq!(format_bytes(1536), "1.5 KB");
    assert_eq!(format_bytes(1048576), "1.0 MB");
}

#[test]
fn format_bytes_rounds_to_nearest_tenth() {
    assert_eq!(format_bytes(1100), "1.1 KB");
    assert_eq!(format_bytes(1126), "1.1 KB");
}

#[test]
fn format_bytes_breaks_ties_to_even() {
    assert_eq!(format_bytes(1280), "1.2 KB");
    assert_eq!(format_bytes(1331), "1.3 KB");
}

#[test]
fn format_bytes_larger_units() {
    assert_eq!(format_bytes(1073741824), "1.0 GB");
    assert_eq!(format_bytes(1099511627776), "1.0 TB");
    assert_eq!(format_bytes(1610612736), "1.5 GB");
}

#[test]
fn validate_plugin_name_reports_invalid_name() {
    assert!(matches!(validate_plugin_name(""), Err(CliError::InvalidName(_))));
    assert!(matches!(validate_plugin_name("a!b"), Err(CliError::InvalidName(_))));
}

#[test]
fn tool_outcome_reports_missing_tool() {
    assert!(tool_outcome(true, "Git").is_ok());
    match tool_outcome(false, "Git") {
        Err(CliError::ToolMissing(tool)) => assert_eq!(tool, "Git"),
        other => panic!("unexpected outcome: {:?}", other),
    }
}

#[test]
fn tool_checks_agree_with_lookup() {
    let _ = check_git_available();
    let _ = check_cargo_available();
}

#[test]
fn branch_from_output_trims_and_rejects_empty() {
    match branch_from_output(true, "  main\n") {
        Ok(branch) => assert_eq!(branch, "main"),
        other => panic!("unexpected outcome: {:?}", other),
    }
    assert!(matches!(branch_from_output(true, " \n\t"), Err(CliError::Vcs(_))));
    assert!(matches!(branch_from_output(false, "main"), Err(CliError::Vcs(_))));
}

#[test]
fn project_probes_check_marker_files() {
    assert!(!is_rust_project("/surely/not/an/existing/dir"));
    assert!(!is_git_repository("/surely/not/an/existing/dir"));
}

#[test]
fn error_messages_name_the_failure() {
    assert_eq!(
        CliError::DivergedHistory.message(),
        "Cannot fast-forward, manual merge required"
    );
    assert_eq!(
        CliError::ReservedPackageName.message(),
        "plugin_system is not a buildable plugin crate"
    );
    assert_eq!(
        CliError::TargetNotFound(String::from("plugin_demo")).message(),
        "Plugin crate 'plugin_demo' not found in crates dir"
    );
}
