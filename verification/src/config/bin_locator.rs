use vstd::prelude::*;

use crate::config::appconfig_locator::paths_view;
use crate::config::{
    first_probed, first_probed_spec, home_dir, join_path, opt_seq, path_join, path_result_view,
    prompt_install_dir_from, prompt_install_dir_spec, ConfigError, ConfigErrorView, DirEnv,
};
use crate::text::string_of;

verus! {

/// Why the directory of installed prompts could not be used.
#[derive(Debug)]
pub enum BinLocatorError {
    /// Creating it failed, with the system's message.
    CreateBinDirFailed(String),
    LocateBinDirFailed,
}

pub open spec fn opt_str(o: Option<&str>) -> Option<Seq<char>> {
    match o {
        Some(s) => Some(s@),
        None => None,
    }
}

/// Where executables are looked for: the install directory, with `bin`
/// joined to it where one is named.
pub open spec fn search_paths_spec(
    bin: Option<Seq<char>>,
    dir: Result<Seq<char>, ConfigErrorView>,
) -> Result<Seq<Seq<char>>, ConfigErrorView> {
    match dir {
        Ok(d) => Ok(
            match bin {
                Some(b) => seq![path_join(d, b)],
                None => seq![d],
            },
        ),
        Err(e) => Err(e),
    }
}

pub open spec fn paths_result_view(r: Result<Vec<String>, ConfigError>) -> Result<
    Seq<Seq<char>>,
    ConfigErrorView,
> {
    match r {
        Ok(v) => Ok(paths_view(v@)),
        Err(e) => Err(e@),
    }
}

/// The search paths, given the user's home directory `home`.
pub fn search_paths_from(bin: Option<&str>, env: &DirEnv, home: Option<String>) -> (r: Result<
    Vec<String>,
    ConfigError,
>)
    ensures
        paths_result_view(r) == search_paths_spec(
            opt_str(bin),
            prompt_install_dir_spec(env@, opt_seq(home)),
        ),
{
    let dir = prompt_install_dir_from(env, home);
    match dir {
        Ok(d) => {
            let mut paths: Vec<String> = Vec::new();
            match bin {
                Some(b) => paths.push(join_path(d.as_str(), b)),
                None => paths.push(d),
            }
            proof {
                assert(paths_view(paths@) =~= search_paths_spec(
                    opt_str(bin),
                    prompt_install_dir_spec(env@, opt_seq(home)),
                )->Ok_0);
            }
            Ok(paths)
        },
        Err(e) => Err(e),
    }
}

/// Where executables are looked for, with the user's home directory from
/// `dirs`.
pub fn search_paths(bin: Option<&str>, env: &DirEnv) -> (r: Result<Vec<String>, ConfigError>)
    ensures
        exists|home: Option<Seq<char>>| paths_result_view(r) == search_paths_spec(
            opt_str(bin),
            prompt_install_dir_spec(env@, home),
        ),
{
    let home = home_dir();
    let ghost h = opt_seq(home);
    let r = search_paths_from(bin, env, home);
    assert(paths_result_view(r) == search_paths_spec(opt_str(bin), prompt_install_dir_spec(env@, h)));
    r
}

/// The first search path.
pub open spec fn path_spec(paths: Result<Seq<Seq<char>>, ConfigErrorView>) -> Result<
    Seq<char>,
    ConfigErrorView,
> {
    match paths {
        Ok(ps) => if ps.len() > 0 {
            Ok(ps[0])
        } else {
            Err(ConfigErrorView::StorageDirectoryNotAvailable)
        },
        Err(e) => Err(e),
    }
}

/// The first search path for `bin`.
pub fn path(bin: Option<&str>, env: &DirEnv) -> (r: Result<String, ConfigError>)
    ensures
        exists|home: Option<Seq<char>>| path_result_view(r) == path_spec(
            search_paths_spec(opt_str(bin), prompt_install_dir_spec(env@, home)),
        ),
{
    let home = home_dir();
    let ghost h = opt_seq(home);
    let paths = search_paths_from(bin, env, home);
    let r = match paths {
        Ok(ps) => {
            if ps.len() > 0 {
                Ok(string_of(ps[0].as_str()))
            } else {
                Err(ConfigError::StorageDirectoryNotAvailable)
            }
        },
        Err(e) => Err(e),
    };
    assert(path_result_view(r) == path_spec(
        search_paths_spec(opt_str(bin), prompt_install_dir_spec(env@, h)),
    ));
    r
}

/// The first search path for `bin` at which `is_file` finds a file; `None`
/// where there is none or the install directory cannot be determined.
pub fn find<F: Fn(&str) -> bool>(bin: &str, env: &DirEnv, is_file: &F) -> (r: Option<String>)
    requires
        forall|s: &str| #[trigger] is_file.requires((s,)),
    ensures
        exists|home: Option<Seq<char>>|
            {
                let ps = #[trigger] search_paths_spec(
                    Some(bin@),
                    prompt_install_dir_spec(env@, home),
                );
                &&& ps is Err ==> r is None
                &&& ps matches Ok(ps) ==> first_probed_spec(*is_file, ps, r)
            },
{
    let home = home_dir();
    let ghost h = opt_seq(home);
    let paths = search_paths_from(Some(bin), env, home);
    let ghost spec = search_paths_spec(Some(bin@), prompt_install_dir_spec(env@, h));
    match paths {
        Ok(ps) => {
            let r = first_probed(&ps, is_file);
            assert(first_probed_spec(*is_file, spec->Ok_0, r));
            r
        },
        Err(_) => None,
    }
}

} // verus!

verus! {

/// `path` is the first of the search paths, and every search path for a
/// named executable ends with its name.
pub proof fn lemma_path_is_first_search_path(bin: Option<Seq<char>>, dir: Result<Seq<char>, ConfigErrorView>)
    ensures
        search_paths_spec(bin, dir) matches Ok(ps) ==> ps.len() > 0 && path_spec(
            search_paths_spec(bin, dir),
        ) == Ok::<Seq<char>, ConfigErrorView>(ps[0]),
        search_paths_spec(bin, dir) matches Err(e) ==> path_spec(search_paths_spec(bin, dir))
            == Err::<Seq<char>, ConfigErrorView>(e),
        bin matches Some(b) ==> search_paths_spec(bin, dir) matches Ok(ps) ==> forall|i: int|
            0 <= i < ps.len() ==> crate::text::ends_with_seq(#[trigger] ps[i], b),
{
    if let (Some(b), Ok(d)) = (bin, dir) {
        crate::config::lemma_joined_path_ends_with(d, b);
    }
}

} // verus!
