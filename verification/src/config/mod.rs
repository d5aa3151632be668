pub mod appconfig;
pub mod appconfig_locator;
pub mod bin_locator;
pub mod environment;
pub mod locator;
pub mod promptfile_locator;
pub mod providers;
pub mod resolver;

use vstd::prelude::*;

use crate::text::{chars_of, push_char, push_str, string_of};

verus! {

pub const RUNNER_BIN_NAME: &'static str = "promptcmd";

pub const APP_NAME: &'static str = "promptcmd";

pub const PROMPTS_STORAGE_DIR: &'static str = "prompts";

pub const PROMPTS_INSTALL_DIR: &'static str = "bin";

pub const ENV_PROMPTS_STORAGE_DIR: &'static str = "PROMPTCMD_PROMPTS_DIR";

pub const ENV_PROMPTS_INSTALL_DIR: &'static str = "PROMPTCMD_INSTALL_DIR";

pub const ENV_HOME_DIR: &'static str = "PROMPTCMD_HOME_DIR";

pub const ENV_CONFIG_DIR: &'static str = "PROMPTCMD_CONFIG_DIR";

/// Why a directory of the application could not be determined.
#[derive(Debug)]
pub enum ConfigError {
    StorageDirectoryNotAvailable,
    /// The variable and the path it names, which is no existing directory.
    EnvDirDoesNotExist(&'static str, String),
    /// Creating a directory failed, with the system's message.
    CreateStorageDirectoryFailed(String),
    BaseConfigDirNotAvailable,
    BasePromptDirNotAvailable,
    DataDirNotAvailable,
}

pub enum ConfigErrorView {
    StorageDirectoryNotAvailable,
    EnvDirDoesNotExist(Seq<char>, Seq<char>),
    CreateStorageDirectoryFailed(Seq<char>),
    BaseConfigDirNotAvailable,
    BasePromptDirNotAvailable,
    DataDirNotAvailable,
}

impl View for ConfigError {
    type V = ConfigErrorView;

    open spec fn view(&self) -> ConfigErrorView {
        match self {
            ConfigError::StorageDirectoryNotAvailable => ConfigErrorView::StorageDirectoryNotAvailable,
            ConfigError::EnvDirDoesNotExist(v, p) => ConfigErrorView::EnvDirDoesNotExist(v@, p@),
            ConfigError::CreateStorageDirectoryFailed(m) => ConfigErrorView::CreateStorageDirectoryFailed(
                m@,
            ),
            ConfigError::BaseConfigDirNotAvailable => ConfigErrorView::BaseConfigDirNotAvailable,
            ConfigError::BasePromptDirNotAvailable => ConfigErrorView::BasePromptDirNotAvailable,
            ConfigError::DataDirNotAvailable => ConfigErrorView::DataDirNotAvailable,
        }
    }
}

impl ConfigError {
    /// The error's message.
    pub fn message(&self) -> (r: String)
        ensures
            r@ == match self@ {
                ConfigErrorView::StorageDirectoryNotAvailable => "Could not determine a storage directory"@,
                ConfigErrorView::EnvDirDoesNotExist(v, p) => "Path set in Environment "@ + v + seq!['=']
                    + p + " does not exist"@,
                ConfigErrorView::CreateStorageDirectoryFailed(_) => "Could not create storage directory"@,
                ConfigErrorView::BaseConfigDirNotAvailable => "Could not determine config directory"@,
                ConfigErrorView::BasePromptDirNotAvailable => "Could not determine prompt directory"@,
                ConfigErrorView::DataDirNotAvailable => "Could not determine data directory"@,
            },
    {
        match self {
            ConfigError::StorageDirectoryNotAvailable => string_of(
                "Could not determine a storage directory",
            ),
            ConfigError::EnvDirDoesNotExist(v, p) => {
                let mut m = string_of("Path set in Environment ");
                push_str(&mut m, v);
                push_char(&mut m, '=');
                push_str(&mut m, p.as_str());
                push_str(&mut m, " does not exist");
                assert(m@ =~= "Path set in Environment "@ + v@ + seq!['='] + p@ + " does not exist"@);
                m
            },
            ConfigError::CreateStorageDirectoryFailed(_) => string_of(
                "Could not create storage directory",
            ),
            ConfigError::BaseConfigDirNotAvailable => string_of(
                "Could not determine config directory",
            ),
            ConfigError::BasePromptDirNotAvailable => string_of(
                "Could not determine prompt directory",
            ),
            ConfigError::DataDirNotAvailable => string_of("Could not determine data directory"),
        }
    }
}

pub open spec fn path_result_view(r: Result<String, ConfigError>) -> Result<
    Seq<char>,
    ConfigErrorView,
> {
    match r {
        Ok(p) => Ok(p@),
        Err(e) => Err(e@),
    }
}

/// A directory that an environment variable names, and whether the disk
/// holds a directory at that path.
#[derive(Debug)]
pub struct DirOverride {
    pub path: String,
    pub is_dir: bool,
}

/// The directories that the environment variables of the application name,
/// each `None` where its variable is not set.
#[derive(Debug)]
pub struct DirEnv {
    pub home: Option<DirOverride>,
    pub config: Option<DirOverride>,
    pub install: Option<DirOverride>,
    pub storage: Option<DirOverride>,
}

pub open spec fn override_view(o: Option<DirOverride>) -> Option<(Seq<char>, bool)> {
    match o {
        Some(d) => Some((d.path@, d.is_dir)),
        None => None,
    }
}

pub struct DirEnvView {
    pub home: Option<(Seq<char>, bool)>,
    pub config: Option<(Seq<char>, bool)>,
    pub install: Option<(Seq<char>, bool)>,
    pub storage: Option<(Seq<char>, bool)>,
}

impl View for DirEnv {
    type V = DirEnvView;

    open spec fn view(&self) -> DirEnvView {
        DirEnvView {
            home: override_view(self.home),
            config: override_view(self.config),
            install: override_view(self.install),
            storage: override_view(self.storage),
        }
    }
}

impl DirEnv {
    /// No variable set.
    pub fn unset() -> (r: DirEnv)
        ensures
            r@.home is None && r@.config is None && r@.install is None && r@.storage is None,
    {
        DirEnv { home: None, config: None, install: None, storage: None }
    }
}

/// `PathBuf::join` on Unix: an absolute `p` replaces `base`; otherwise `p`
/// is appended, after a `/` unless `base` is empty or already ends with one.
pub open spec fn path_join(base: Seq<char>, p: Seq<char>) -> Seq<char> {
    if p.len() > 0 && p[0] == '/' {
        p
    } else if base.len() == 0 || base.last() == '/' {
        base + p
    } else {
        base + seq!['/'] + p
    }
}

pub fn join_path(base: &str, p: &str) -> (r: String)
    ensures
        r@ == path_join(base@, p@),
{
    let pc = chars_of(p);
    let bc = chars_of(base);
    if pc.len() > 0 && pc[0] == '/' {
        return string_of(p);
    }
    let mut r = string_of(base);
    if !(bc.len() == 0 || bc[bc.len() - 1] == '/') {
        push_char(&mut r, '/');
    }
    push_str(&mut r, p);
    r
}

/// `dirs::home_dir`: the home directory of the user, from `$HOME` or the
/// system's user database. What it returns depends on the environment, so
/// nothing is stated of it; a path that is not UTF-8 is converted lossily.
#[verifier::external_body]
pub(crate) fn home_dir() -> (r: Option<String>) {
    dirs::home_dir().map(|p| p.to_string_lossy().into_owned())
}

/// `dirs::config_dir`: `$XDG_CONFIG_HOME` where it is absolute, else
/// `.config` under the home directory. What it returns depends on the
/// environment, so nothing is stated of it; a path that is not UTF-8 is
/// converted lossily.
#[verifier::external_body]
pub(crate) fn config_dir() -> (r: Option<String>) {
    dirs::config_dir().map(|p| p.to_string_lossy().into_owned())
}

/// A directory set by the variable `var`, where it is set: the path if it is
/// a directory, else an error naming both; `fallback` where it is not set.
pub open spec fn env_dir_spec(
    var: Seq<char>,
    o: Option<(Seq<char>, bool)>,
    fallback: Result<Seq<char>, ConfigErrorView>,
) -> Result<Seq<char>, ConfigErrorView> {
    match o {
        Some(d) => if d.1 {
            Ok(d.0)
        } else {
            Err(ConfigErrorView::EnvDirDoesNotExist(var, d.0))
        },
        None => fallback,
    }
}

/// The application's home: `$PROMPTCMD_HOME_DIR`, else `.promptcmd` under
/// the user's home directory `home`.
pub open spec fn base_home_dir_spec(env: DirEnvView, home: Option<Seq<char>>) -> Result<
    Seq<char>,
    ConfigErrorView,
> {
    env_dir_spec(
        ENV_HOME_DIR@,
        env.home,
        match home {
            Some(h) => Ok(path_join(h, "."@ + APP_NAME@)),
            None => Err(ConfigErrorView::StorageDirectoryNotAvailable),
        },
    )
}

/// The configuration directory: `$PROMPTCMD_CONFIG_DIR`, else `promptcmd`
/// under the user's configuration directory `config`.
pub open spec fn base_config_dir_spec(env: DirEnvView, config: Option<Seq<char>>) -> Result<
    Seq<char>,
    ConfigErrorView,
> {
    env_dir_spec(
        ENV_CONFIG_DIR@,
        env.config,
        match config {
            Some(c) => Ok(path_join(c, APP_NAME@)),
            None => Err(ConfigErrorView::BaseConfigDirNotAvailable),
        },
    )
}

/// Where prompts are installed: `$PROMPTCMD_INSTALL_DIR`, else `bin` under
/// the application's home.
pub open spec fn prompt_install_dir_spec(env: DirEnvView, home: Option<Seq<char>>) -> Result<
    Seq<char>,
    ConfigErrorView,
> {
    env_dir_spec(
        ENV_PROMPTS_INSTALL_DIR@,
        env.install,
        match base_home_dir_spec(env, home) {
            Ok(b) => Ok(path_join(b, PROMPTS_INSTALL_DIR@)),
            Err(_) => Err(ConfigErrorView::StorageDirectoryNotAvailable),
        },
    )
}

/// Where prompt files are stored: `$PROMPTCMD_PROMPTS_DIR`, else `prompts`
/// under the configuration directory.
pub open spec fn prompt_storage_dir_spec(env: DirEnvView, config: Option<Seq<char>>) -> Result<
    Seq<char>,
    ConfigErrorView,
> {
    env_dir_spec(
        ENV_PROMPTS_STORAGE_DIR@,
        env.storage,
        match base_config_dir_spec(env, config) {
            Ok(b) => Ok(path_join(b, PROMPTS_STORAGE_DIR@)),
            Err(_) => Err(ConfigErrorView::BasePromptDirNotAvailable),
        },
    )
}

fn env_dir(var: &'static str, o: &Option<DirOverride>) -> (r: Option<Result<String, ConfigError>>)
    ensures
        o is None ==> r is None,
        o is Some ==> r is Some && path_result_view(r->0) == env_dir_spec(
            var@,
            override_view(*o),
            Err(ConfigErrorView::DataDirNotAvailable),
        ),
{
    match o {
        Some(d) => {
            if d.is_dir {
                Some(Ok(string_of(d.path.as_str())))
            } else {
                Some(Err(ConfigError::EnvDirDoesNotExist(var, string_of(d.path.as_str()))))
            }
        },
        None => None,
    }
}

/// The application's home, given the user's home directory `home`.
pub fn base_home_dir_from(env: &DirEnv, home: Option<String>) -> (r: Result<String, ConfigError>)
    ensures
        path_result_view(r) == base_home_dir_spec(env@, opt_seq(home)),
{
    match env_dir(ENV_HOME_DIR, &env.home) {
        Some(r) => r,
        None => match home {
            Some(h) => {
                let mut name = string_of(".");
                push_str(&mut name, APP_NAME);
                Ok(join_path(h.as_str(), name.as_str()))
            },
            None => Err(ConfigError::StorageDirectoryNotAvailable),
        },
    }
}

/// The configuration directory, given the user's configuration directory
/// `config`.
pub fn base_config_dir_from(env: &DirEnv, config: Option<String>) -> (r: Result<
    String,
    ConfigError,
>)
    ensures
        path_result_view(r) == base_config_dir_spec(env@, opt_seq(config)),
{
    match env_dir(ENV_CONFIG_DIR, &env.config) {
        Some(r) => r,
        None => match config {
            Some(c) => Ok(join_path(c.as_str(), APP_NAME)),
            None => Err(ConfigError::BaseConfigDirNotAvailable),
        },
    }
}

/// Where prompts are installed, given the user's home directory `home`.
pub fn prompt_install_dir_from(env: &DirEnv, home: Option<String>) -> (r: Result<
    String,
    ConfigError,
>)
    ensures
        path_result_view(r) == prompt_install_dir_spec(env@, opt_seq(home)),
{
    match env_dir(ENV_PROMPTS_INSTALL_DIR, &env.install) {
        Some(r) => r,
        None => match base_home_dir_from(env, home) {
            Ok(b) => Ok(join_path(b.as_str(), PROMPTS_INSTALL_DIR)),
            Err(_) => Err(ConfigError::StorageDirectoryNotAvailable),
        },
    }
}

/// Where prompt files are stored, given the user's configuration directory
/// `config`.
pub fn prompt_storage_dir_from(env: &DirEnv, config: Option<String>) -> (r: Result<
    String,
    ConfigError,
>)
    ensures
        path_result_view(r) == prompt_storage_dir_spec(env@, opt_seq(config)),
{
    match env_dir(ENV_PROMPTS_STORAGE_DIR, &env.storage) {
        Some(r) => r,
        None => match base_config_dir_from(env, config) {
            Ok(b) => Ok(join_path(b.as_str(), PROMPTS_STORAGE_DIR)),
            Err(_) => Err(ConfigError::BasePromptDirNotAvailable),
        },
    }
}

pub open spec fn opt_seq(o: Option<String>) -> Option<Seq<char>> {
    match o {
        Some(s) => Some(s@),
        None => None,
    }
}

/// The application's home, with the user's home directory from `dirs`.
pub fn base_home_dir(env: &DirEnv) -> (r: Result<String, ConfigError>)
    ensures
        exists|home: Option<Seq<char>>| path_result_view(r) == base_home_dir_spec(env@, home),
{
    let home = home_dir();
    let ghost h = opt_seq(home);
    let r = base_home_dir_from(env, home);
    assert(path_result_view(r) == base_home_dir_spec(env@, h));
    r
}

/// The configuration directory, with the user's configuration directory
/// from `dirs`.
pub fn base_config_dir(env: &DirEnv) -> (r: Result<String, ConfigError>)
    ensures
        exists|config: Option<Seq<char>>| path_result_view(r) == base_config_dir_spec(
            env@,
            config,
        ),
{
    let config = config_dir();
    let ghost c = opt_seq(config);
    let r = base_config_dir_from(env, config);
    assert(path_result_view(r) == base_config_dir_spec(env@, c));
    r
}

/// Where prompts are installed, with the user's home directory from `dirs`.
pub fn prompt_install_dir(env: &DirEnv) -> (r: Result<String, ConfigError>)
    ensures
        exists|home: Option<Seq<char>>| path_result_view(r) == prompt_install_dir_spec(
            env@,
            home,
        ),
{
    let home = home_dir();
    let ghost h = opt_seq(home);
    let r = prompt_install_dir_from(env, home);
    assert(path_result_view(r) == prompt_install_dir_spec(env@, h));
    r
}

/// Where prompt files are stored, with the user's configuration directory
/// from `dirs`.
pub fn prompt_storage_dir(env: &DirEnv) -> (r: Result<String, ConfigError>)
    ensures
        exists|config: Option<Seq<char>>| path_result_view(r) == prompt_storage_dir_spec(
            env@,
            config,
        ),
{
    let config = config_dir();
    let ghost c = opt_seq(config);
    let r = prompt_storage_dir_from(env, config);
    assert(path_result_view(r) == prompt_storage_dir_spec(env@, c));
    r
}

/// `r` is the first of `ps` for which `probe` answered `true`, every one
/// before it having been answered `false`; `None` where all were.
pub open spec fn first_probed_spec<F: Fn(&str) -> bool>(
    probe: F,
    ps: Seq<Seq<char>>,
    r: Option<String>,
) -> bool {
    &&& r matches Some(p) ==> exists|i: int|
        0 <= i < ps.len() && p@ == ps[i] && probed(probe, ps[i], true) && forall|j: int|
            0 <= j < i ==> probed(probe, #[trigger] ps[j], false)
    &&& r is None ==> forall|j: int| 0 <= j < ps.len() ==> probed(probe, #[trigger] ps[j], false)
}

/// The first of `paths` for which `probe` answers `true`.
pub fn first_probed<F: Fn(&str) -> bool>(paths: &Vec<String>, probe: &F) -> (r: Option<String>)
    requires
        forall|s: &str| #[trigger] probe.requires((s,)),
    ensures
        first_probed_spec(*probe, paths@.map_values(|s: String| s@), r),
{
    let ghost ps = paths@.map_values(|s: String| s@);
    let mut i: usize = 0;
    while i < paths.len()
        invariant
            i <= paths@.len(),
            ps == paths@.map_values(|s: String| s@),
            forall|s: &str| #[trigger] probe.requires((s,)),
            forall|j: int| 0 <= j < i ==> probed(*probe, #[trigger] ps[j], false),
        decreases paths@.len() - i,
    {
        let s = paths[i].as_str();
        let b = probe(s);
        assert(ps[i as int] == paths@[i as int]@);
        if b {
            assert(probed(*probe, ps[i as int], true));
            return Some(string_of(s));
        }
        assert(probed(*probe, ps[i as int], false));
        i = i + 1;
    }
    None
}

/// A call of `probe` on the text `s` answered `b`.
pub open spec fn probed<F: Fn(&str) -> bool>(probe: F, s: Seq<char>, b: bool) -> bool {
    exists|t: &str| t@ == s && #[trigger] probe.ensures((t,), b)
}

} // verus!

verus! {

/// A directory set through its environment variable wins when it is a
/// directory, and is refused, naming the variable and the path, when it is
/// not; whatever the fallback would have given.
pub proof fn lemma_env_dir_wins(
    var: Seq<char>,
    path: Seq<char>,
    is_dir: bool,
    fallback: Result<Seq<char>, ConfigErrorView>,
)
    ensures
        is_dir ==> env_dir_spec(var, Some((path, is_dir)), fallback) == Ok::<
            Seq<char>,
            ConfigErrorView,
        >(path),
        !is_dir ==> env_dir_spec(var, Some((path, is_dir)), fallback) == Err::<
            Seq<char>,
            ConfigErrorView,
        >(ConfigErrorView::EnvDirDoesNotExist(var, path)),
{
}

/// A path joined with `p` ends with `p`.
pub proof fn lemma_joined_path_ends_with(base: Seq<char>, p: Seq<char>)
    ensures
        crate::text::ends_with_seq(path_join(base, p), p),
{
    let j = path_join(base, p);
    assert(j.subrange(j.len() - p.len(), j.len() as int) =~= p);
}

} // verus!
