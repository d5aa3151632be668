use promptcmd::config::appconfig_locator::{search_paths, CONFIG_NAME};
use promptcmd::config::APP_NAME;

#[test]
fn test_search_paths_returns_non_empty() {
    let paths = search_paths();
    assert!(!paths.is_empty(), "Should return at least one search path");
}

#[test]
fn test_search_paths_includes_current_dir() {
    let paths = search_paths();

    // First path should be current directory + config.toml
    let first_path = &paths[0];
    assert!(
        first_path.ends_with(CONFIG_NAME),
        "First path should end with config.toml"
    );
}

#[test]
fn test_search_paths_includes_user_config() {
    let paths = search_paths();

    // At least one path should contain the app name
    let has_app_name = paths.iter().any(|p| p.contains(APP_NAME));

    assert!(has_app_name, "Should include path with app name");
}

#[test]
fn test_search_paths_contains_config_name() {
    let paths = search_paths();

    // All paths should end with config.toml
    for path in paths {
        assert!(
            path.ends_with(CONFIG_NAME),
            "All paths should end with config.toml: {:?}",
            path
        );
    }
}

#[test]
fn appconfig_search_paths_from_joins_app_and_file() {
    let paths = promptcmd::config::appconfig_locator::search_paths_from(Some("/home/u/.config".to_string()));
    assert_eq!(paths, vec!["/home/u/.config/promptcmd/config.toml".to_string()]);
    let none = promptcmd::config::appconfig_locator::search_paths_from(None);
    assert!(none.is_empty());
}

#[test]
fn appconfig_path_takes_first_present() {
    let found = promptcmd::config::appconfig_locator::path(&|_p: &str| false);
    assert_eq!(found, None);
    let all = promptcmd::config::appconfig_locator::path(&|_p: &str| true);
    assert_eq!(all, search_paths().first().cloned());
}
