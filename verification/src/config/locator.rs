use vstd::prelude::*;

use crate::config::appconfig_locator::paths_view;
use crate::config::{config_dir, first_probed, first_probed_spec, join_path, opt_seq, path_join};
use crate::text::{push_str, string_of};

verus! {

pub const PROMPTS_NAMESPACE: &'static str = "prompts.d";

pub const LOCATOR_APP_NAME: &'static str = "aibox";

pub const SYSTEM_CONFIG_DIR: &'static str = "/etc";

/// `<promptname>.prompt`.
pub open spec fn promptfile_name(promptname: Seq<char>) -> Seq<char> {
    promptname + ".prompt"@
}

/// The prompt file of `promptname` in the user's configuration directory.
pub open spec fn user_promptfile_path_spec(config: Option<Seq<char>>, promptname: Seq<char>) -> Option<
    Seq<char>,
> {
    match config {
        Some(c) => Some(
            path_join(
                path_join(path_join(c, LOCATOR_APP_NAME@), PROMPTS_NAMESPACE@),
                promptfile_name(promptname),
            ),
        ),
        None => None,
    }
}

fn promptfile(promptname: &str) -> (r: String)
    ensures
        r@ == promptfile_name(promptname@),
{
    let mut f = string_of(promptname);
    push_str(&mut f, ".prompt");
    f
}

/// The prompt file of `promptname` in the user's configuration directory,
/// or the message that there is none.
pub fn get_user_promptfile_path(promptname: &str) -> (r: Result<String, String>)
    ensures
        exists|config: Option<Seq<char>>|
            {
                let p = #[trigger] user_promptfile_path_spec(config, promptname@);
                &&& p is None ==> r is Err && r->Err_0@ == "Could not get config dir"@
                &&& p matches Some(p) ==> r is Ok && r->Ok_0@ == p
            },
{
    let config = config_dir();
    let ghost c = opt_seq(config);
    match config {
        Some(c) => {
            let a = join_path(c.as_str(), LOCATOR_APP_NAME);
            let b = join_path(a.as_str(), PROMPTS_NAMESPACE);
            let f = promptfile(promptname);
            let r = join_path(b.as_str(), f.as_str());
            assert(user_promptfile_path_spec(opt_seq(config), promptname@) == Some(r@));
            Ok(r)
        },
        None => {
            assert(user_promptfile_path_spec(opt_seq(config), promptname@) is None);
            Err(string_of("Could not get config dir"))
        },
    }
}

/// The directories searched for prompt files, in order: the current
/// directory `cwd`; `aibox/prompts.d` and `aibox` under the user's
/// configuration directory `config`; `/etc/aibox/prompts.d` and `/etc/aibox`.
pub open spec fn prompt_search_dirs_spec(cwd: Option<Seq<char>>, config: Option<Seq<char>>) -> Seq<
    Seq<char>,
> {
    let a = match cwd {
        Some(d) => seq![d],
        None => Seq::empty(),
    };
    let b = match config {
        Some(c) => seq![
            path_join(path_join(c, LOCATOR_APP_NAME@), PROMPTS_NAMESPACE@),
            path_join(c, LOCATOR_APP_NAME@),
        ],
        None => Seq::empty(),
    };
    let e = path_join(SYSTEM_CONFIG_DIR@, LOCATOR_APP_NAME@);
    a + b + seq![path_join(e, PROMPTS_NAMESPACE@), e]
}

pub fn prompt_search_dirs_from(cwd: Option<String>, config: Option<String>) -> (r: Vec<String>)
    ensures
        paths_view(r@) == prompt_search_dirs_spec(opt_seq(cwd), opt_seq(config)),
{
    let mut paths: Vec<String> = Vec::new();
    if let Some(d) = cwd {
        paths.push(d);
    }
    if let Some(c) = config {
        let app = join_path(c.as_str(), LOCATOR_APP_NAME);
        paths.push(join_path(app.as_str(), PROMPTS_NAMESPACE));
        paths.push(app);
    }
    let etc = join_path(SYSTEM_CONFIG_DIR, LOCATOR_APP_NAME);
    paths.push(join_path(etc.as_str(), PROMPTS_NAMESPACE));
    paths.push(etc);
    proof {
        assert(paths_view(paths@) =~= prompt_search_dirs_spec(opt_seq(cwd), opt_seq(config)));
    }
    paths
}

/// The directories searched for prompt files, with the current directory
/// `cwd` as the caller found it and the user's configuration directory from
/// `dirs`.
pub fn get_prompt_search_dirs(cwd: Option<String>) -> (r: Vec<String>)
    ensures
        exists|config: Option<Seq<char>>| paths_view(r@) == prompt_search_dirs_spec(
            opt_seq(cwd),
            config,
        ),
{
    let config = config_dir();
    let ghost c = opt_seq(config);
    let r = prompt_search_dirs_from(cwd, config);
    assert(paths_view(r@) == prompt_search_dirs_spec(opt_seq(cwd), c));
    r
}

/// Each of `dirs` with `<promptname>.prompt` joined to it.
pub open spec fn promptfile_paths_spec(dirs: Seq<Seq<char>>, promptname: Seq<char>) -> Seq<
    Seq<char>,
> {
    dirs.map_values(|d: Seq<char>| path_join(d, promptfile_name(promptname)))
}

fn join_each(dirs: &Vec<String>, file: &str) -> (r: Vec<String>)
    ensures
        paths_view(r@) == paths_view(dirs@).map_values(|d: Seq<char>| path_join(d, file@)),
{
    let mut r: Vec<String> = Vec::new();
    let mut i: usize = 0;
    while i < dirs.len()
        invariant
            i <= dirs@.len(),
            paths_view(r@) == paths_view(dirs@.take(i as int)).map_values(
                |d: Seq<char>| path_join(d, file@),
            ),
        decreases dirs@.len() - i,
    {
        let ghost before = paths_view(r@);
        let j = join_path(dirs[i].as_str(), file);
        r.push(j);
        proof {
            assert(paths_view(r@) =~= before.push(j@));
            assert(dirs@.take(i + 1) =~= dirs@.take(i as int).push(dirs@[i as int]));
            assert(paths_view(dirs@.take(i + 1)) =~= paths_view(dirs@.take(i as int)).push(dirs@[i as int]@));
            assert(paths_view(r@) =~= paths_view(dirs@.take(i + 1)).map_values(
                |d: Seq<char>| path_join(d, file@),
            ));
        }
        i = i + 1;
    }
    proof {
        assert(dirs@.take(dirs@.len() as int) =~= dirs@);
    }
    r
}

/// All places where the prompt file of `promptname` may be, in order of
/// precedence.
pub fn get_promptfile_paths(promptname: &str, cwd: Option<String>) -> (r: Vec<String>)
    ensures
        exists|config: Option<Seq<char>>| paths_view(r@) == promptfile_paths_spec(
            prompt_search_dirs_spec(opt_seq(cwd), config),
            promptname@,
        ),
{
    let config = config_dir();
    let ghost c = opt_seq(config);
    let dirs = prompt_search_dirs_from(cwd, config);
    let f = promptfile(promptname);
    let r = join_each(&dirs, f.as_str());
    assert(paths_view(r@) =~= promptfile_paths_spec(
        prompt_search_dirs_spec(opt_seq(cwd), c),
        promptname@,
    ));
    r
}

/// The first place where `is_file` finds the prompt file of `promptname`.
pub fn find_promptfile<F: Fn(&str) -> bool>(promptname: &str, cwd: Option<String>, is_file: &F) -> (r:
    Option<String>)
    requires
        forall|s: &str| #[trigger] is_file.requires((s,)),
    ensures
        exists|config: Option<Seq<char>>|
            first_probed_spec(
                *is_file,
                #[trigger] promptfile_paths_spec(
                    prompt_search_dirs_spec(opt_seq(cwd), config),
                    promptname@,
                ),
                r,
            ),
{
    let config = config_dir();
    let ghost c = opt_seq(config);
    let ghost cw = opt_seq(cwd);
    let dirs = prompt_search_dirs_from(cwd, config);
    let f = promptfile(promptname);
    let paths = join_each(&dirs, f.as_str());
    let r = first_probed(&paths, is_file);
    proof {
        assert(paths_view(paths@) =~= promptfile_paths_spec(prompt_search_dirs_spec(cw, c), promptname@));
    }
    r
}

} // verus!
