use aui_next_generator::cli::{resolve_config, success_message, Cli};
use aui_next_generator::error::GenError;
use aui_next_generator::generator::plan_project;

#[test]
fn test_resolve_config_plain() {
    let config = resolve_config("my-app".to_string(), false, true, true, false).unwrap();
    assert_eq!(config.name, "my-app");
    assert!(config.install_deps);
    assert!(config.use_turbo);
    assert!(!config.use_react_query);
}

#[test]
fn test_resolve_config_skip_install_forces_flags_off() {
    // Skipping installation overrides every dependent answer
    let config = resolve_config("my-app".to_string(), true, true, true, true).unwrap();
    assert!(!config.install_deps);
    assert!(!config.use_turbo);
    assert!(!config.use_react_query);
}

#[test]
fn test_resolve_config_install_declined_forces_flags_off() {
    // Declining installation also resolves the dependent flags to false
    let config = resolve_config("my-app".to_string(), false, false, true, true).unwrap();
    assert!(!config.install_deps);
    assert!(!config.use_turbo);
    assert!(!config.use_react_query);
}

#[test]
fn test_resolve_config_empty_name() {
    let err = resolve_config(String::new(), false, true, true, true).unwrap_err();
    assert!(matches!(err, GenError::Usage(_)));
    assert_eq!(err.message(), "Project name cannot be empty");
}

#[test]
fn test_resolve_config_whitespace_name() {
    let err = resolve_config("   \t\n".to_string(), false, true, true, true).unwrap_err();
    assert!(matches!(err, GenError::Usage(_)));
    assert_eq!(err.message(), "Project name cannot be empty");
}

#[test]
fn test_cli_record() {
    let args = Cli { name: Some("demo".to_string()), skip_install: false };
    assert_eq!(args.name.as_deref(), Some("demo"));
    assert!(!args.skip_install);
}

#[test]
fn test_success_message_mentions_next_steps() {
    let config = resolve_config("my-app".to_string(), true, false, false, false).unwrap();
    let msg = success_message(&config);
    assert!(msg.contains("Project created successfully!"));
    assert!(msg.contains("cd my-app"));
    // Installation was skipped, so the manual install step is listed
    assert!(msg.contains("pnpm install"));
    assert!(msg.contains("pnpm dev"));
    assert!(!msg.contains("Turbopack"));
    assert!(!msg.contains("React Query"));
}

#[test]
fn test_success_message_with_all_features() {
    let config = resolve_config("rich-app".to_string(), false, true, true, true).unwrap();
    let msg = success_message(&config);
    assert!(msg.contains("Turbopack for faster development"));
    assert!(msg.contains("React Query (TanStack Query)"));
    // Dependencies were installed, so no manual install step is listed
    assert!(!msg.contains("pnpm install"));
    assert!(msg.contains("pnpm dev"));
}

#[test]
fn test_scenario_my_app_without_install() {
    let config = resolve_config("my-app".to_string(), true, false, false, false).unwrap();
    let plan = plan_project(&config, false).unwrap();
    let package = plan
        .files
        .iter()
        .find(|f| f.path == "package.json")
        .expect("package manifest planned");
    assert!(package.content.contains("\"name\": \"my-app\""));
    assert!(package.content.contains("\"dev\": \"next dev\""));
    assert!(!package.content.contains("--turbo"));
    assert!(!plan.files.iter().any(|f| f.path.starts_with("src/libs/query-provider")));
}

#[test]
fn test_scenario_turbo_app() {
    let config = resolve_config("turbo-app".to_string(), false, true, true, false).unwrap();
    assert!(config.install_deps);
    let plan = plan_project(&config, false).unwrap();
    // The install collaborator is to be invoked for this destination
    assert!(plan.install);
    let package = plan
        .files
        .iter()
        .find(|f| f.path == "package.json")
        .expect("package manifest planned");
    assert!(package.content.contains("next dev --turbo"));
    assert!(!plan.files.iter().any(|f| f.path == "src/libs/query-provider.tsx"));
    assert!(!plan.files.iter().any(|f| f.path == "src/libs/api.ts"));
    assert!(!plan.files.iter().any(|f| f.path == "src/hooks/use-api.ts"));
}

#[test]
fn test_scenario_full_app_with_data_fetching() {
    let config = resolve_config("full-app".to_string(), false, true, false, true).unwrap();
    let plan = plan_project(&config, false).unwrap();
    let package = plan
        .files
        .iter()
        .find(|f| f.path == "package.json")
        .expect("package manifest planned");
    let base_last = package.content.find("\"react-dom\": \"^19.0.0\"").unwrap();
    let extra = package.content.find("\"@tanstack/react-query\"").unwrap();
    assert!(base_last < extra);
    assert!(package.content.contains("\"@tanstack/react-query-devtools\""));

    let layout = plan
        .files
        .iter()
        .find(|f| f.path == "src/app/layout.tsx")
        .expect("shell planned");
    assert!(layout.content.contains("import { QueryProvider }"));
    assert!(layout.content.contains("<QueryProvider>"));
    assert!(layout.content.contains("</QueryProvider>"));

    let provider = plan
        .files
        .iter()
        .find(|f| f.path == "src/libs/query-provider.tsx")
        .expect("provider planned");
    assert!(provider.content.contains("QueryClientProvider"));
    let api = plan.files.iter().find(|f| f.path == "src/libs/api.ts").expect("api planned");
    assert!(api.content.contains("apiRequest"));
    let hooks = plan
        .files
        .iter()
        .find(|f| f.path == "src/hooks/use-api.ts")
        .expect("hooks planned");
    assert!(hooks.content.contains("useQuery"));
}

#[test]
fn test_scenario_empty_name_fails_before_planning() {
    let result = resolve_config(String::new(), false, true, true, true);
    assert!(matches!(result, Err(GenError::Usage(_))));
}

#[test]
fn test_bare_children_placeholder_without_data_fetching() {
    let config = resolve_config("bare-app".to_string(), true, false, false, false).unwrap();
    let plan = plan_project(&config, false).unwrap();
    let layout = plan
        .files
        .iter()
        .find(|f| f.path == "src/app/layout.tsx")
        .expect("shell planned");
    assert!(layout.content.contains("{children}"));
    assert!(!layout.content.contains("QueryProvider"));
}
