use vstd::prelude::*;

use crate::config::appconfig_locator::paths_view;
use crate::config::bin_locator::{opt_str, path_spec, paths_result_view};
use crate::config::{
    config_dir, first_probed, first_probed_spec, join_path, opt_seq, path_join, path_result_view, probed,
    prompt_storage_dir_from, prompt_storage_dir_spec, ConfigError, ConfigErrorView, DirEnv,
};
use crate::text::{push_str, string_of};

verus! {

pub const PROMPT_EXTENSION: &'static str = ".prompt";

/// Where prompt files are looked for: the storage directory, with
/// `<promptname>.prompt` joined to it where a name is given.
pub open spec fn search_paths_spec(
    promptname: Option<Seq<char>>,
    dir: Result<Seq<char>, ConfigErrorView>,
) -> Result<Seq<Seq<char>>, ConfigErrorView> {
    match dir {
        Ok(d) => Ok(
            match promptname {
                Some(n) => seq![path_join(d, n + PROMPT_EXTENSION@)],
                None => seq![d],
            },
        ),
        Err(e) => Err(e),
    }
}

/// The search paths, given the user's configuration directory `config`.
pub fn search_paths_from(promptname: Option<&str>, env: &DirEnv, config: Option<String>) -> (r:
    Result<Vec<String>, ConfigError>)
    ensures
        paths_result_view(r) == search_paths_spec(
            opt_str(promptname),
            prompt_storage_dir_spec(env@, opt_seq(config)),
        ),
{
    let dir = prompt_storage_dir_from(env, config);
    match dir {
        Ok(d) => {
            let mut paths: Vec<String> = Vec::new();
            match promptname {
                Some(n) => {
                    let mut file = string_of(n);
                    push_str(&mut file, PROMPT_EXTENSION);
                    paths.push(join_path(d.as_str(), file.as_str()));
                },
                None => paths.push(d),
            }
            proof {
                assert(paths_view(paths@) =~= search_paths_spec(
                    opt_str(promptname),
                    prompt_storage_dir_spec(env@, opt_seq(config)),
                )->Ok_0);
            }
            Ok(paths)
        },
        Err(e) => Err(e),
    }
}

/// Where prompt files are looked for, with the user's configuration
/// directory from `dirs`.
pub fn search_paths(promptname: Option<&str>, env: &DirEnv) -> (r: Result<
    Vec<String>,
    ConfigError,
>)
    ensures
        exists|config: Option<Seq<char>>| paths_result_view(r) == search_paths_spec(
            opt_str(promptname),
            prompt_storage_dir_spec(env@, config),
        ),
{
    let config = config_dir();
    let ghost c = opt_seq(config);
    let r = search_paths_from(promptname, env, config);
    assert(paths_result_view(r) == search_paths_spec(
        opt_str(promptname),
        prompt_storage_dir_spec(env@, c),
    ));
    r
}

/// The first search path for the prompt `promptname`.
pub fn path(promptname: &str, env: &DirEnv) -> (r: Result<String, ConfigError>)
    ensures
        exists|config: Option<Seq<char>>| path_result_view(r) == path_spec(
            search_paths_spec(Some(promptname@), prompt_storage_dir_spec(env@, config)),
        ),
{
    let config = config_dir();
    let ghost c = opt_seq(config);
    let paths = search_paths_from(Some(promptname), env, config);
    let r = match paths {
        Ok(ps) => {
            if ps.len() > 0 {
                Ok(string_of(ps[0].as_str()))
            } else {
                Err(ConfigError::StorageDirectoryNotAvailable)
            }
        },
        Err(e) => Err(e),
    };
    assert(path_result_view(r) == path_spec(
        search_paths_spec(Some(promptname@), prompt_storage_dir_spec(env@, c)),
    ));
    r
}

/// `promptname_or_path` itself where `present` finds something there; else
/// the first search path for it as a prompt name at which `is_file` finds a
/// file; `None` where there is none or the storage directory cannot be
/// determined.
pub fn find<F: Fn(&str) -> bool, G: Fn(&str) -> bool>(
    promptname_or_path: &str,
    env: &DirEnv,
    present: &F,
    is_file: &G,
) -> (r: Option<String>)
    requires
        forall|s: &str| #[trigger] present.requires((s,)),
        forall|s: &str| #[trigger] is_file.requires((s,)),
    ensures
        (r matches Some(p) && p@ == promptname_or_path@ && probed(
            *present,
            promptname_or_path@,
            true,
        )) || (probed(*present, promptname_or_path@, false) && exists|config: Option<Seq<char>>|
            {
                let ps = #[trigger] search_paths_spec(
                    Some(promptname_or_path@),
                    prompt_storage_dir_spec(env@, config),
                );
                &&& ps is Err ==> r is None
                &&& ps matches Ok(ps) ==> first_probed_spec(*is_file, ps, r)
            }),
{
    if present(promptname_or_path) {
        assert(probed(*present, promptname_or_path@, true));
        return Some(string_of(promptname_or_path));
    }
    assert(probed(*present, promptname_or_path@, false));
    let config = config_dir();
    let ghost c = opt_seq(config);
    let paths = search_paths_from(Some(promptname_or_path), env, config);
    let ghost spec = search_paths_spec(
        Some(promptname_or_path@),
        prompt_storage_dir_spec(env@, c),
    );
    match paths {
        Ok(ps) => {
            let r = first_probed(&ps, is_file);
            assert(first_probed_spec(*is_file, spec->Ok_0, r));
            r
        },
        Err(_) => None,
    }
}

} // verus!

verus! {

/// `path` is the first of the search paths, and every search path for a
/// prompt ends with `<promptname>.prompt`.
pub proof fn lemma_path_is_first_search_path(
    promptname: Option<Seq<char>>,
    dir: Result<Seq<char>, ConfigErrorView>,
)
    ensures
        search_paths_spec(promptname, dir) matches Ok(ps) ==> ps.len() > 0 && path_spec(
            search_paths_spec(promptname, dir),
        ) == Ok::<Seq<char>, ConfigErrorView>(ps[0]),
        search_paths_spec(promptname, dir) matches Err(e) ==> path_spec(
            search_paths_spec(promptname, dir),
        ) == Err::<Seq<char>, ConfigErrorView>(e),
        promptname matches Some(n) ==> search_paths_spec(promptname, dir) matches Ok(ps)
            ==> forall|i: int|
            0 <= i < ps.len() ==> crate::text::ends_with_seq(
                #[trigger] ps[i],
                n + PROMPT_EXTENSION@,
            ),
{
    if let (Some(n), Ok(d)) = (promptname, dir) {
        crate::config::lemma_joined_path_ends_with(d, n + PROMPT_EXTENSION@);
    }
}

} // verus!
