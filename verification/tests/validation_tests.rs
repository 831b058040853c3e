use aui_next_generator::validation::{
    evaluate_node_version, is_node_version_compatible, parse_node_version, pnpm_install_outcome,
    plan_pnpm_setup, PnpmAction, VersionError,
};

#[test]
fn test_parse_node_version_with_v_prefix() {
    let result = parse_node_version("v20.10.0");
    assert!(result.is_ok());
    let (major, minor) = result.unwrap();
    assert_eq!(major, 20);
    assert_eq!(minor, 10);
}

#[test]
fn test_parse_node_version_without_v_prefix() {
    let result = parse_node_version("18.18.2");
    assert!(result.is_ok());
    let (major, minor) = result.unwrap();
    assert_eq!(major, 18);
    assert_eq!(minor, 18);
}

#[test]
fn test_parse_node_version_invalid_format() {
    let result = parse_node_version("invalid");
    assert!(result.is_err());
}

#[test]
fn test_parse_node_version_only_major() {
    let result = parse_node_version("20");
    assert!(result.is_err());
}

#[test]
fn test_is_node_version_compatible_valid_versions() {
    // Exact minimum version
    assert!(is_node_version_compatible(18, 18));
    // Higher minor version
    assert!(is_node_version_compatible(18, 19));
    // Higher major version
    assert!(is_node_version_compatible(20, 0));
    // Much higher version
    assert!(is_node_version_compatible(22, 5));
}

#[test]
fn test_is_node_version_compatible_invalid_versions() {
    // Lower major version
    assert!(!is_node_version_compatible(17, 99));
    // Same major but lower minor
    assert!(!is_node_version_compatible(18, 17));
    // Much lower version
    assert!(!is_node_version_compatible(16, 0));
}

#[test]
fn test_node_version_edge_cases() {
    // Test boundary conditions
    assert!(!is_node_version_compatible(18, 17)); // Just below
    assert!(is_node_version_compatible(18, 18)); // Exact match
    assert!(is_node_version_compatible(18, 19)); // Just above
    assert!(is_node_version_compatible(19, 0)); // Next major
}

#[test]
fn test_parse_node_version_with_patch() {
    let result = parse_node_version("v18.18.2");
    assert!(result.is_ok());
    let (major, minor) = result.unwrap();
    assert_eq!(major, 18);
    assert_eq!(minor, 18);
    // We don't parse patch version, but it shouldn't break
}

#[test]
fn test_parse_node_version_with_prerelease() {
    let result = parse_node_version("v20.0.0-pre");
    assert!(result.is_ok());
    let (major, minor) = result.unwrap();
    assert_eq!(major, 20);
    assert_eq!(minor, 0);
}

#[test]
fn test_parse_node_version_unrecognized_message() {
    let err = parse_node_version("invalid").unwrap_err();
    assert!(matches!(err, VersionError::Unrecognized(_)));
    assert_eq!(err.message(), "Could not parse Node.js version: invalid");
}

#[test]
fn test_parse_node_version_invalid_major_message() {
    let err = parse_node_version("abc.5").unwrap_err();
    assert!(matches!(err, VersionError::InvalidMajor));
    assert_eq!(err.message(), "Invalid major version");
}

#[test]
fn test_parse_node_version_invalid_minor_message() {
    let err = parse_node_version("20.abc").unwrap_err();
    assert!(matches!(err, VersionError::InvalidMinor));
    assert_eq!(err.message(), "Invalid minor version");
}

#[test]
fn test_parse_node_version_overflowing_major() {
    // 99999999999 does not fit in a u32, exactly as str::parse::<u32> sees it
    let err = parse_node_version("99999999999.0").unwrap_err();
    assert!(matches!(err, VersionError::InvalidMajor));
}

#[test]
fn test_parse_node_version_plus_signs() {
    // str::parse::<u32> accepts a leading plus sign in each field
    let result = parse_node_version("+20.+10");
    assert_eq!(result.unwrap(), (20, 10));
}

#[test]
fn test_parse_node_version_empty_fields() {
    assert!(parse_node_version("20.").is_err());
    assert!(parse_node_version(".5").is_err());
}

#[test]
fn test_evaluate_node_version_probe_failed() {
    let err = evaluate_node_version(false, "v20.10.0").unwrap_err();
    assert_eq!(err.message(), "Node.js is not installed or not in PATH");
}

#[test]
fn test_evaluate_node_version_trims_probe_output() {
    let result = evaluate_node_version(true, "v20.10.0\n");
    assert_eq!(result.unwrap(), (20, 10));
}

#[test]
fn test_evaluate_node_version_too_old() {
    let err = evaluate_node_version(true, "v16.0.0\n").unwrap_err();
    assert_eq!(err.message(), "Node.js version 16.0.0 is not supported");
}

#[test]
fn test_evaluate_node_version_unparseable_output() {
    let err = evaluate_node_version(true, "garbage\n").unwrap_err();
    assert_eq!(err.message(), "Could not parse Node.js version: garbage");
}

#[test]
fn test_plan_pnpm_setup_found() {
    let action = plan_pnpm_setup(true, false).unwrap();
    assert!(matches!(action, PnpmAction::UseExisting));
}

#[test]
fn test_plan_pnpm_setup_missing_with_consent() {
    let action = plan_pnpm_setup(false, true).unwrap();
    assert!(matches!(action, PnpmAction::InstallGlobally));
}

#[test]
fn test_plan_pnpm_setup_missing_declined() {
    let err = plan_pnpm_setup(false, false).unwrap_err();
    assert_eq!(err.message(), "pnpm installation required");
}

#[test]
fn test_pnpm_install_outcome() {
    assert!(pnpm_install_outcome(true).is_ok());
    let err = pnpm_install_outcome(false).unwrap_err();
    assert_eq!(err.message(), "pnpm installation failed");
}
