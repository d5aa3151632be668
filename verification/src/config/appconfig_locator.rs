use vstd::prelude::*;

use crate::config::{config_dir, first_probed, first_probed_spec, join_path, opt_seq, path_join, APP_NAME};

verus! {

pub const CONFIG_NAME: &'static str = "config.toml";

pub open spec fn paths_view(v: Seq<String>) -> Seq<Seq<char>> {
    v.map_values(|s: String| s@)
}

/// Where the configuration file is looked for, given the user's
/// configuration directory: `promptcmd/config.toml` under it.
pub open spec fn search_paths_spec(config: Option<Seq<char>>) -> Seq<Seq<char>> {
    match config {
        Some(c) => seq![path_join(path_join(c, APP_NAME@), CONFIG_NAME@)],
        None => Seq::empty(),
    }
}

pub fn search_paths_from(config: Option<String>) -> (r: Vec<String>)
    ensures
        paths_view(r@) == search_paths_spec(opt_seq(config)),
{
    let mut paths: Vec<String> = Vec::new();
    if let Some(c) = config {
        let dir = join_path(c.as_str(), APP_NAME);
        paths.push(join_path(dir.as_str(), CONFIG_NAME));
    }
    proof {
        assert(paths_view(paths@) =~= search_paths_spec(opt_seq(config)));
    }
    paths
}

/// Where the configuration file is looked for, with the user's configuration
/// directory from `dirs`.
pub fn search_paths() -> (r: Vec<String>)
    ensures
        exists|config: Option<Seq<char>>| paths_view(r@) == search_paths_spec(config),
{
    let config = config_dir();
    let ghost c = opt_seq(config);
    let r = search_paths_from(config);
    assert(paths_view(r@) == search_paths_spec(c));
    r
}

/// The first search path at which `present` finds something.
pub fn path<F: Fn(&str) -> bool>(present: &F) -> (r: Option<String>)
    requires
        forall|s: &str| #[trigger] present.requires((s,)),
    ensures
        exists|config: Option<Seq<char>>|
            first_probed_spec(*present, #[trigger] search_paths_spec(config), r),
{
    let config = config_dir();
    let ghost c = opt_seq(config);
    let paths = search_paths_from(config);
    let r = first_probed(&paths, present);
    assert(first_probed_spec(*present, search_paths_spec(c), r));
    r
}

} // verus!
