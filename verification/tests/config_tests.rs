use aui_next_generator::config::{directories, ProjectConfig};

#[test]
fn test_project_config_new() {
    let config = ProjectConfig::new("test-project".to_string(), true, false, false);

    assert_eq!(config.name, "test-project");
    assert_eq!(config.install_deps, true);
    assert_eq!(config.use_turbo, false);
}

#[test]
fn test_project_config_clone() {
    let config1 = ProjectConfig::new("original".to_string(), true, true, false);
    let config2 = config1.clone();

    assert_eq!(config1, config2);
}

#[test]
fn test_directories_contains_expected_paths() {
    let dirs = directories();
    assert!(dirs.iter().any(|d| d.as_str() == "src/app"));
    assert!(dirs.iter().any(|d| d.as_str() == "src/components"));
    assert!(dirs.iter().any(|d| d.as_str() == "public"));
    assert_eq!(dirs.len(), 10);
}

#[test]
fn test_all_directories_start_with_src_or_public() {
    for dir in directories() {
        assert!(
            dir.starts_with("src/") || dir == "public",
            "Directory '{}' should start with 'src/' or be 'public'",
            dir
        );
    }
}
