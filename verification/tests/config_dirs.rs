use promptcmd::config::{
    base_config_dir, base_config_dir_from, base_home_dir, base_home_dir_from, join_path, prompt_install_dir,
    prompt_install_dir_from, prompt_storage_dir, prompt_storage_dir_from, ConfigError, DirEnv, DirOverride,
    APP_NAME, PROMPTS_INSTALL_DIR, PROMPTS_STORAGE_DIR,
};

fn dir(p: &str, is_dir: bool) -> Option<DirOverride> {
    Some(DirOverride { path: p.to_string(), is_dir })
}

#[test]
fn home_dir_under_user_home() {
    assert_eq!(base_home_dir_from(&DirEnv::unset(), Some("/home/u".to_string())).unwrap(), "/home/u/.promptcmd");
    assert!(matches!(
        base_home_dir_from(&DirEnv::unset(), None),
        Err(ConfigError::StorageDirectoryNotAvailable)
    ));
}

#[test]
fn test_home_dir_from_env() {
    let mut env = DirEnv::unset();
    env.home = dir("/tmp/h/home/", false);
    match base_home_dir_from(&env, Some("/home/u".to_string())) {
        Err(ConfigError::EnvDirDoesNotExist(var, p)) => {
            assert_eq!(var, "PROMPTCMD_HOME_DIR");
            assert_eq!(p, "/tmp/h/home/");
        }
        other => panic!("unexpected {:?}", other),
    }
    env.home = dir("/tmp/h/home/", true);
    assert_eq!(base_home_dir_from(&env, None).unwrap(), "/tmp/h/home/");
}

#[test]
fn config_dir_under_user_config() {
    assert_eq!(
        base_config_dir_from(&DirEnv::unset(), Some("/home/u/.config".to_string())).unwrap(),
        "/home/u/.config/promptcmd"
    );
    assert!(matches!(base_config_dir_from(&DirEnv::unset(), None), Err(ConfigError::BaseConfigDirNotAvailable)));
}

#[test]
fn test_prompts_in_alt_config() {
    let mut env = DirEnv::unset();
    env.config = dir("/tmp/c/config/", true);
    assert_eq!(prompt_storage_dir_from(&env, None).unwrap(), "/tmp/c/config/prompts");
}

#[test]
fn storage_dir_without_config() {
    assert!(matches!(prompt_storage_dir_from(&DirEnv::unset(), None), Err(ConfigError::BasePromptDirNotAvailable)));
}

#[test]
fn test_install_in_alt_home() {
    let mut env = DirEnv::unset();
    env.home = dir("/tmp/h/home/", true);
    assert_eq!(prompt_install_dir_from(&env, None).unwrap(), "/tmp/h/home/bin");
}

#[test]
fn install_dir_when_home_refused() {
    let mut env = DirEnv::unset();
    env.home = dir("/nowhere", false);
    assert!(matches!(prompt_install_dir_from(&env, None), Err(ConfigError::StorageDirectoryNotAvailable)));
    env.install = dir("/tmp/i/install/", true);
    assert_eq!(prompt_install_dir_from(&env, None).unwrap(), "/tmp/i/install/");
}

#[test]
fn join_path_rules() {
    assert_eq!(join_path("/a", "b"), "/a/b");
    assert_eq!(join_path("/a/", "b"), "/a/b");
    assert_eq!(join_path("", "b"), "b");
    assert_eq!(join_path("/a", "/b"), "/b");
    assert_eq!(join_path("/a", ""), "/a/");
    let std_join = std::path::Path::new("/a").join("b/c");
    assert_eq!(join_path("/a", "b/c"), std_join.to_string_lossy());
}

#[test]
fn test_home_dir() {
    let actual = base_home_dir(&DirEnv::unset()).unwrap();
    let expected = dirs::home_dir().unwrap().join(format!(".{APP_NAME}"));
    assert_eq!(expected.to_string_lossy(), actual);
}

#[test]
fn test_config_dir() {
    let actual = base_config_dir(&DirEnv::unset()).unwrap();
    let expected = dirs::config_dir().unwrap().join(APP_NAME);
    assert_eq!(expected.to_string_lossy(), actual);
}

#[test]
fn test_prompts_dir() {
    let prompts_dir = prompt_storage_dir(&DirEnv::unset()).unwrap();
    let expected = join_path(&base_config_dir(&DirEnv::unset()).unwrap(), PROMPTS_STORAGE_DIR);
    assert_eq!(expected, prompts_dir);
}

#[test]
fn test_install_dir() {
    let dir = prompt_install_dir(&DirEnv::unset()).unwrap();
    let expected = join_path(&base_home_dir(&DirEnv::unset()).unwrap(), PROMPTS_INSTALL_DIR);
    assert_eq!(expected, dir);
}

#[test]
fn test_config_dir_from_env() {
    let mut env = DirEnv::unset();
    env.config = dir("/tmp/t/config/", false);
    assert!(base_config_dir_from(&env, None).is_err());
    env.config = dir("/tmp/t/config/", true);
    assert_eq!(base_config_dir_from(&env, None).unwrap(), "/tmp/t/config/");
}

#[test]
fn test_prompts_dir_from_env() {
    let mut env = DirEnv::unset();
    env.storage = dir("/tmp/t/prompts/", false);
    assert!(prompt_storage_dir_from(&env, Some("/home/u/.config".to_string())).is_err());
    env.storage = dir("/tmp/t/prompts/", true);
    assert_eq!(prompt_storage_dir_from(&env, None).unwrap(), "/tmp/t/prompts/");
}

#[test]
fn test_install_from_env() {
    let mut env = DirEnv::unset();
    env.install = dir("/tmp/t/install/", false);
    assert!(prompt_install_dir_from(&env, Some("/home/u".to_string())).is_err());
    env.install = dir("/tmp/t/install/", true);
    assert_eq!(prompt_install_dir_from(&env, None).unwrap(), "/tmp/t/install/");
}
