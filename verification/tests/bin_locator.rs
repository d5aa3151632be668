use promptcmd::config::bin_locator::{find, path, search_paths, search_paths_from};
use promptcmd::config::{ConfigError, DirEnv, DirOverride};

fn bin_env() -> DirEnv {
    DirEnv::unset()
}

fn bin_is_file(p: &str) -> bool {
    std::path::Path::new(p).is_file()
}

#[test]
fn test_search_paths_without_bin() {
    let paths = search_paths(None, &bin_env());

    // Should return at least one path on most systems
    assert!(
        !paths.unwrap().is_empty(),
        "Should return executable directories"
    );
}

#[test]
fn test_search_paths_with_bin() {
    let bin_name = "test-binary";
    let paths = search_paths(Some(bin_name), &bin_env()).unwrap();

    // If there are paths, they should all end with the bin name
    for path in paths {
        assert!(
            path.ends_with(bin_name),
            "Path {:?} should end with {}",
            path,
            bin_name
        );
    }
}

#[test]
fn bin_locator_test_path_returns_first_search_path() {
    let bin_name = "test-binary";
    let search_paths_result = search_paths(Some(bin_name), &bin_env()).unwrap();
    let path_result = path(Some(bin_name), &bin_env()).unwrap();

    assert_eq!(
        path_result,
        search_paths_result.first().cloned().unwrap(),
        "path() should return the first search path"
    );
}

#[test]
fn test_find_nonexistent_bin() {
    // Use a very unlikely binary name that shouldn't exist
    let nonexistent = "this-binary-should-not-exist-xyz123";
    let result = find(nonexistent, &bin_env(), &bin_is_file);

    assert!(
        result.is_none(),
        "Should return None for nonexistent binary"
    );
}

#[test]
fn bin_search_paths_under_home() {
    let paths = search_paths_from(Some("x"), &bin_env(), Some("/home/u".to_string())).unwrap();
    assert_eq!(paths, vec!["/home/u/.promptcmd/bin/x".to_string()]);
}

#[test]
fn bin_search_paths_install_override() {
    let env = DirEnv {
        home: None,
        config: None,
        install: Some(DirOverride { path: "/opt/bin".to_string(), is_dir: true }),
        storage: None,
    };
    let paths = search_paths_from(None, &env, None).unwrap();
    assert_eq!(paths, vec!["/opt/bin".to_string()]);
}

#[test]
fn bin_search_paths_missing_override_dir() {
    let env = DirEnv {
        home: None,
        config: None,
        install: Some(DirOverride { path: "/nowhere".to_string(), is_dir: false }),
        storage: None,
    };
    match search_paths_from(None, &env, Some("/home/u".to_string())) {
        Err(ConfigError::EnvDirDoesNotExist(var, p)) => {
            assert_eq!(var, "PROMPTCMD_INSTALL_DIR");
            assert_eq!(p, "/nowhere");
        }
        other => panic!("unexpected {:?}", other),
    }
}

#[test]
fn bin_search_paths_without_home() {
    match search_paths_from(None, &bin_env(), None) {
        Err(ConfigError::StorageDirectoryNotAvailable) => {}
        other => panic!("unexpected {:?}", other),
    }
}

#[test]
fn bin_find_takes_first_file() {
    let found = find("tool", &bin_env(), &|_p: &str| true);
    assert_eq!(found, path(Some("tool"), &bin_env()).ok());
}
