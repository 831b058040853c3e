use aui_next_generator::config::ProjectConfig;
use aui_next_generator::files::{
    app_layout_content, app_page_content, button_component_content, eslint_config_content,
    gitignore_content, globals_css_content, next_config_content, npmrc_content,
    package_json_content, postcss_config_content, readme_content, tsconfig_content,
};

fn create_test_config(name: &str, use_turbo: bool, use_react_query: bool) -> ProjectConfig {
    ProjectConfig::new(name.to_string(), true, use_turbo, use_react_query)
}

#[test]
fn test_create_package_json_without_turbo() {
    let config = create_test_config("test-project", false, false);

    let content = package_json_content(&config);
    assert!(content.contains("\"name\": \"test-project\""));
    assert!(content.contains("\"dev\": \"next dev\""));
    assert!(!content.contains("--turbo"));
    assert!(content.contains("\"next\": \"^15.0.0\""));
    assert!(content.contains("\"react\": \"^19.0.0\""));
}

#[test]
fn test_create_package_json_with_turbo() {
    let config = create_test_config("turbo-project", true, false);

    let content = package_json_content(&config);
    assert!(content.contains("\"name\": \"turbo-project\""));
    assert!(content.contains("\"dev\": \"next dev --turbo\""));
    assert!(content.contains("--turbo"));
}

#[test]
fn test_create_tsconfig() {
    let content = tsconfig_content();
    assert!(content.contains("\"target\": \"es5\""));
    assert!(content.contains("\"strict\": true"));
    assert!(content.contains("\"@/*\": [\"./src/*\"]"));
    assert!(content.contains("\"name\": \"next\""));
}

#[test]
fn test_create_next_config() {
    let content = next_config_content();
    assert!(content.contains("NextConfig"));
    assert!(content.contains("reactStrictMode: true"));
    assert!(content.contains("ignoreBuildErrors: false"));
    assert!(content.contains("export default nextConfig"));
}

#[test]
fn test_create_eslint_config() {
    let content = eslint_config_content();
    assert!(content.contains("\"next/core-web-vitals\""));
    assert!(content.contains("\"prefer-const\": \"error\""));
    assert!(content.contains("\"no-unused-vars\": \"warn\""));
}

#[test]
fn test_create_postcss_config() {
    let content = postcss_config_content();
    assert!(content.contains("@tailwindcss/postcss"));
    assert!(content.contains("export default config"));
}

#[test]
fn test_create_gitignore() {
    let content = gitignore_content();
    assert!(content.contains("node_modules"));
    assert!(content.contains(".next/"));
    assert!(content.contains(".env*.local"));
    assert!(content.contains("*.tsbuildinfo"));
}

#[test]
fn test_create_app_layout() {
    let config = create_test_config("my-awesome-app", false, false);
    let content = app_layout_content("my-awesome-app", &config);
    assert!(content.contains("title: 'my-awesome-app'"));
    assert!(content.contains("import { Inter }"));
    assert!(content.contains("@/styles/globals.css"));
    assert!(content.contains("RootLayout"));
    assert!(!content.contains("QueryProvider"));
}

#[test]
fn test_create_app_layout_with_react_query() {
    let config = create_test_config("my-awesome-app", false, true);

    let content = app_layout_content("my-awesome-app", &config);
    assert!(content.contains("title: 'my-awesome-app'"));
    assert!(content.contains("import { QueryProvider }"));
    assert!(content.contains("<QueryProvider>"));
    assert!(content.contains("</QueryProvider>"));
}

#[test]
fn test_create_app_page() {
    let content = app_page_content("test-app");
    assert!(content.contains("Welcome to"));
    assert!(content.contains("test-app"));
    assert!(content.contains("Next.js 15"));
    assert!(content.contains("Tailwind CSS"));
    assert!(content.contains("TypeScript"));
}

#[test]
fn test_create_globals_css() {
    let content = globals_css_content();
    assert!(content.contains("@import \"tailwindcss\""));
    assert!(content.contains("--background:"));
    assert!(content.contains("@layer components"));
    assert!(content.contains(".btn-primary"));
}

#[test]
fn test_create_button_component() {
    let content = button_component_content();
    assert!(content.contains("interface ButtonProps"));
    assert!(content.contains("variant?: 'primary'"));
    assert!(content.contains("size?: 'sm'"));
    assert!(content.contains("export const Button"));
}

#[test]
fn test_create_readme() {
    let content = readme_content("sample-project");
    assert!(content.contains("# sample-project"));
    assert!(content.contains("Next.js 15"));
    assert!(content.contains("pnpm dev"));
    assert!(content.contains("Project Structure"));
    assert!(content.contains("Tailwind CSS v4"));
}

#[test]
fn test_create_npmrc() {
    let content = npmrc_content();
    assert!(content.contains("auto-install-peers=true"));
    assert!(content.contains("strict-peer-dependencies=false"));
}
