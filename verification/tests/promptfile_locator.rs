use promptcmd::config::promptfile_locator::{find, path, search_paths, search_paths_from};
use promptcmd::config::{DirEnv, DirOverride};

fn prompt_env() -> DirEnv {
    DirEnv::unset()
}

fn prompt_exists(p: &str) -> bool {
    std::path::Path::new(p).exists()
}

fn prompt_is_file(p: &str) -> bool {
    std::path::Path::new(p).is_file()
}

#[test]
fn test_search_paths_without_promptname() {
    let paths = search_paths(None, &prompt_env());

    // Should return at least one path (current directory)
    assert!(!paths.unwrap().is_empty(), "Should return at least one search path");
}

#[test]
fn test_search_paths_with_promptname() {
    let promptname = "test";
    let paths = search_paths(Some(promptname), &prompt_env()).unwrap();

    // All paths should end with "test.prompt"
    let expected_filename = format!("{}.prompt", promptname);
    for path in paths {
        assert!(
            path.ends_with(&expected_filename),
            "Path {:?} should end with {}",
            path,
            expected_filename
        );
    }
}

#[test]
fn promptfile_locator_test_path_returns_first_search_path() {
    let promptname = "test";
    let search_paths_result = search_paths(Some(promptname), &prompt_env()).unwrap();
    let path_result = path(promptname, &prompt_env()).unwrap();

    assert_eq!(
        path_result,
        search_paths_result.first().cloned().unwrap(),
        "path() should return the first search path"
    );
}

#[test]
fn test_find_nonexistent_promptname() {
    // Use a very unlikely prompt name that shouldn't exist
    let nonexistent = "this-prompt-should-not-exist-xyz123";
    let result = find(nonexistent, &prompt_env(), &prompt_exists, &prompt_is_file);

    assert!(
        result.is_none(),
        "Should return None for nonexistent prompt"
    );
}

#[test]
fn test_promptname_gets_prompt_extension() {
    let promptname = "translate";
    let paths = search_paths(Some(promptname), &prompt_env()).unwrap();

    for path in paths {
        let filename = std::path::Path::new(&path).file_name().unwrap().to_string_lossy().to_string();
        assert_eq!(
            filename, "translate.prompt",
            "Should append .prompt extension"
        );
    }
}

#[test]
fn promptfile_search_paths_under_config() {
    let paths = search_paths_from(Some("hello"), &prompt_env(), Some("/home/u/.config".to_string())).unwrap();
    assert_eq!(paths, vec!["/home/u/.config/promptcmd/prompts/hello.prompt".to_string()]);
}

#[test]
fn promptfile_search_paths_storage_override() {
    let env = DirEnv {
        home: None,
        config: Some(DirOverride { path: "/etc/cfg".to_string(), is_dir: true }),
        install: None,
        storage: Some(DirOverride { path: "/srv/prompts/".to_string(), is_dir: true }),
    };
    let paths = search_paths_from(Some("a"), &env, None).unwrap();
    assert_eq!(paths, vec!["/srv/prompts/a.prompt".to_string()]);
}

#[test]
fn promptfile_search_paths_config_override() {
    let env = DirEnv {
        home: None,
        config: Some(DirOverride { path: "/etc/cfg".to_string(), is_dir: true }),
        install: None,
        storage: None,
    };
    let paths = search_paths_from(None, &env, None).unwrap();
    assert_eq!(paths, vec!["/etc/cfg/prompts".to_string()]);
}

#[test]
fn promptfile_find_existing_path_itself() {
    let found = find("/some/where/x.prompt", &prompt_env(), &|_p: &str| true, &|_p: &str| false);
    assert_eq!(found, Some("/some/where/x.prompt".to_string()));
}
