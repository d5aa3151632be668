use vstd::prelude::*;

use crate::config::providers::{self, clone_opt_text, opt_text, ProviderKind, Temperature};
use crate::config::resolver::error::ResolveError;
use crate::dotprompt::Frontmatter;
use crate::text::{str_eq, string_of};

verus! {

/// Settings that apply to every provider.
#[derive(Debug, Default)]
pub struct GlobalProviderProperties {
    pub temperature: Option<Temperature>,
    pub max_tokens: Option<u32>,
    pub model: Option<String>,
    pub system: Option<String>,
    pub cache_ttl: Option<u32>,
    pub stream: Option<bool>,
}

pub struct GlobalProviderPropertiesView {
    pub temperature: Option<u32>,
    pub max_tokens: Option<u32>,
    pub model: Option<Seq<char>>,
    pub system: Option<Seq<char>>,
    pub cache_ttl: Option<u32>,
    pub stream: Option<bool>,
}

impl View for GlobalProviderProperties {
    type V = GlobalProviderPropertiesView;

    open spec fn view(&self) -> GlobalProviderPropertiesView {
        GlobalProviderPropertiesView {
            temperature: match self.temperature {
                Some(t) => Some(t.bits),
                None => None,
            },
            max_tokens: self.max_tokens,
            model: opt_text(self.model),
            system: opt_text(self.system),
            cache_ttl: self.cache_ttl,
            stream: self.stream,
        }
    }
}

impl GlobalProviderProperties {
    pub fn duplicate(&self) -> (r: Self)
        ensures
            r@ == self@,
    {
        GlobalProviderProperties {
            temperature: self.temperature,
            max_tokens: self.max_tokens,
            model: clone_opt_text(&self.model),
            system: clone_opt_text(&self.system),
            cache_ttl: self.cache_ttl,
            stream: self.stream,
        }
    }

    /// The settings that a prompt file gives: its model.
    pub fn from_frontmatter(fm: &Frontmatter) -> (r: Self)
        ensures
            r@.model == Some(fm.model@),
            r@.temperature is None && r@.max_tokens is None && r@.system is None,
            r@.cache_ttl is None && r@.stream is None,
    {
        GlobalProviderProperties {
            temperature: None,
            max_tokens: None,
            model: Some(string_of(fm.model.as_str())),
            system: None,
            cache_ttl: None,
            stream: None,
        }
    }
}

/// The `[providers]` table: the default, the settings for all providers, and
/// each provider's own table.
#[derive(Debug, Default)]
pub struct Providers {
    pub default: Option<String>,
    pub globals: GlobalProviderProperties,
    pub ollama: providers::Providers,
    pub openai: providers::Providers,
    pub anthropic: providers::Providers,
    pub google: providers::Providers,
    pub openrouter: providers::Providers,
}

pub struct ProvidersView {
    pub default: Option<Seq<char>>,
    pub globals: GlobalProviderPropertiesView,
    pub ollama: providers::ProvidersView,
    pub openai: providers::ProvidersView,
    pub anthropic: providers::ProvidersView,
    pub google: providers::ProvidersView,
    pub openrouter: providers::ProvidersView,
}

impl View for Providers {
    type V = ProvidersView;

    open spec fn view(&self) -> ProvidersView {
        ProvidersView {
            default: opt_text(self.default),
            globals: self.globals@,
            ollama: self.ollama@,
            openai: self.openai@,
            anthropic: self.anthropic@,
            google: self.google@,
            openrouter: self.openrouter@,
        }
    }
}

/// The table of one provider.
pub open spec fn provider_table(p: ProvidersView, k: ProviderKind) -> providers::ProvidersView {
    match k {
        ProviderKind::Ollama => p.ollama,
        ProviderKind::Anthropic => p.anthropic,
        ProviderKind::OpenAI => p.openai,
        ProviderKind::Google => p.google,
        ProviderKind::OpenRouter => p.openrouter,
    }
}

impl Providers {
    pub fn table(&self, k: ProviderKind) -> (r: &providers::Providers)
        ensures
            r@ == provider_table(self@, k),
    {
        match k {
            ProviderKind::Ollama => &self.ollama,
            ProviderKind::Anthropic => &self.anthropic,
            ProviderKind::OpenAI => &self.openai,
            ProviderKind::Google => &self.google,
            ProviderKind::OpenRouter => &self.openrouter,
        }
    }
}

/// A member of a group in its long form: a name and an optional weight.
#[derive(Debug, Default, Clone)]
pub struct LongGroupProviderConfig {
    pub name: String,
    pub weight: Option<u32>,
}

pub struct LongGroupProviderConfigView {
    pub name: Seq<char>,
    pub weight: Option<u32>,
}

impl View for LongGroupProviderConfig {
    type V = LongGroupProviderConfigView;

    open spec fn view(&self) -> LongGroupProviderConfigView {
        LongGroupProviderConfigView { name: self.name@, weight: self.weight }
    }
}

/// A member of a group: a bare name, or a name with a weight.
#[derive(Debug)]
pub enum GroupProviderConfig {
    Short(String),
    Long(LongGroupProviderConfig),
}

/// The long form of a member: a bare name has weight 1.
pub open spec fn to_long_spec(c: GroupProviderConfig) -> LongGroupProviderConfigView {
    match c {
        GroupProviderConfig::Short(name) => LongGroupProviderConfigView {
            name: name@,
            weight: Some(1),
        },
        GroupProviderConfig::Long(l) => l@,
    }
}

impl GroupProviderConfig {
    pub fn to_long(&self) -> (r: LongGroupProviderConfig)
        ensures
            r@ == to_long_spec(*self),
    {
        match self {
            GroupProviderConfig::Short(name) => LongGroupProviderConfig {
                name: string_of(name.as_str()),
                weight: Some(1),
            },
            GroupProviderConfig::Long(config) => LongGroupProviderConfig {
                name: string_of(config.name.as_str()),
                weight: config.weight,
            },
        }
    }
}

/// A `[groups.<name>]` table: the members, in order.
#[derive(Debug, Default)]
pub struct GroupConfig {
    pub providers: Vec<GroupProviderConfig>,
}

pub open spec fn group_members_view(g: GroupConfig) -> Seq<LongGroupProviderConfigView> {
    g.providers@.map_values(|c: GroupProviderConfig| to_long_spec(c))
}

/// A named group.
#[derive(Debug)]
pub struct NamedGroup {
    pub name: String,
    pub config: GroupConfig,
}

/// `[create]` settings.
#[derive(Debug, Default)]
pub struct Create {
    pub no_enable: bool,
    pub force: bool,
}

/// `[import]` settings.
#[derive(Debug, Default)]
pub struct Import {
    pub enable: bool,
    pub force: bool,
}

/// The application's configuration file.
#[derive(Debug, Default)]
pub struct AppConfig {
    pub create: Create,
    pub import: Import,
    pub providers: Providers,
    pub groups: Vec<NamedGroup>,
    pub ssh: Vec<Ssh>,
}

/// The members of the first group named `name`.
pub open spec fn group_find(groups: Seq<NamedGroup>, name: Seq<char>) -> Option<
    Seq<LongGroupProviderConfigView>,
>
    decreases groups.len(),
{
    if groups.len() == 0 {
        None
    } else {
        match group_find(groups.drop_last(), name) {
            Some(g) => Some(g),
            None => if groups.last().name@ == name {
                Some(group_members_view(groups.last().config))
            } else {
                None
            },
        }
    }
}

proof fn lemma_group_find_prefix(groups: Seq<NamedGroup>, name: Seq<char>, k: int)
    requires
        0 <= k <= groups.len(),
        group_find(groups.take(k), name) is Some,
    ensures
        group_find(groups, name) == group_find(groups.take(k), name),
    decreases groups.len(),
{
    if k < groups.len() {
        assert(groups.drop_last().take(k) =~= groups.take(k));
        lemma_group_find_prefix(groups.drop_last(), name, k);
    } else {
        assert(groups.take(k) =~= groups);
    }
}

impl AppConfig {
    /// The first group named `name` (a `HashMap::get` on the groups table).
    pub fn get_group(&self, name: &str) -> (r: Option<&GroupConfig>)
        ensures
            r matches Some(g) ==> group_find(self.groups@, name@) == Some(group_members_view(*g)),
            r is None ==> group_find(self.groups@, name@) is None,
    {
        let mut i: usize = 0;
        while i < self.groups.len()
            invariant
                i <= self.groups@.len(),
                group_find(self.groups@.take(i as int), name@) is None,
            decreases self.groups@.len() - i,
        {
            proof {
                assert(self.groups@.take(i + 1).drop_last() =~= self.groups@.take(i as int));
            }
            if str_eq(self.groups[i].name.as_str(), name) {
                proof {
                    lemma_group_find_prefix(self.groups@, name@, i + 1);
                }
                return Some(&self.groups[i].config);
            }
            i = i + 1;
        }
        proof {
            assert(self.groups@.take(self.groups@.len() as int) =~= self.groups@);
        }
        None
    }
}

} // verus!

verus! {

/// How environment variables are exported to a remote bash.
#[derive(Debug, PartialEq, Eq, Clone, Copy, Structural)]
pub enum BashMethod {
    Posix,
    Rc,
    Exports,
}

impl Default for BashMethod {
    fn default() -> (r: Self)
        ensures
            r == BashMethod::Exports,
    {
        BashMethod::Exports
    }
}

/// The remote shell.
#[derive(Debug, PartialEq, Eq, Clone, Copy, Structural)]
pub enum ShellOptions {
    Auto,
    Bash,
    Zsh,
    Sh,
    Ash,
    Dash,
    Fish,
}

impl Default for ShellOptions {
    fn default() -> (r: Self)
        ensures
            r == ShellOptions::Auto,
    {
        ShellOptions::Auto
    }
}

/// How the remote side talks back.
#[derive(Debug, PartialEq, Eq, Clone, Copy, Structural)]
pub enum ChannelOptions {
    Auto,
    Nc,
    Socat,
    BashTcp,
    Fifo,
    FifoSingle,
}

impl Default for ChannelOptions {
    fn default() -> (r: Self)
        ensures
            r == ChannelOptions::Auto,
    {
        ChannelOptions::Auto
    }
}

pub fn default_port_start() -> (r: u32)
    ensures
        r == 49152,
{
    49152
}

pub fn default_port_end() -> (r: u32)
    ensures
        r == 65535,
{
    65535
}

pub fn default_socket_path() -> (r: String)
    ensures
        r@ == "/tmp/"@,
{
    string_of("/tmp/")
}

pub fn default_socket_random() -> (r: bool)
    ensures
        r,
{
    true
}

pub fn default_motd() -> (r: bool)
    ensures
        !r,
{
    false
}

/// Where the remote socket is made.
#[derive(Debug)]
pub struct RemoteSocket {
    pub path: String,
    pub random: bool,
}

impl Default for RemoteSocket {
    fn default() -> (r: Self)
        ensures
            r.path@ == "/tmp/"@,
            r.random,
    {
        RemoteSocket { random: default_socket_random(), path: default_socket_path() }
    }
}

/// A range of ports.
#[derive(Debug)]
pub struct PortSettings {
    pub start: u32,
    pub end: u32,
}

impl Default for PortSettings {
    fn default() -> (r: Self)
        ensures
            r.start == 49152,
            r.end == 65535,
    {
        PortSettings { start: default_port_start(), end: default_port_end() }
    }
}

/// An `[[ssh]]` entry: the settings for the remotes it matches.
#[derive(Debug)]
pub struct Ssh {
    pub host: Option<String>,
    pub user: Option<String>,
    pub bash_method: BashMethod,
    pub shell: ShellOptions,
    pub channel: ChannelOptions,
    pub remote_socket: RemoteSocket,
    pub remote_ports: PortSettings,
    pub local_ports: PortSettings,
    pub motd: bool,
}

impl Default for Ssh {
    fn default() -> (r: Self)
        ensures
            r.host is None,
            r.user is None,
            r.bash_method == BashMethod::Exports,
            r.shell == ShellOptions::Auto,
            r.channel == ChannelOptions::Auto,
            r.remote_socket.path@ == "/tmp/"@,
            r.remote_socket.random,
            r.remote_ports.start == 49152 && r.remote_ports.end == 65535,
            r.local_ports.start == 49152 && r.local_ports.end == 65535,
            r.motd,
    {
        Ssh {
            host: None,
            user: None,
            bash_method: BashMethod::Exports,
            shell: ShellOptions::Auto,
            channel: ChannelOptions::Auto,
            remote_socket: RemoteSocket::default(),
            remote_ports: PortSettings::default(),
            local_ports: PortSettings::default(),
            motd: true,
        }
    }
}

/// The host and the user of an entry.
pub open spec fn ssh_target(s: Ssh) -> (Option<Seq<char>>, Option<Seq<char>>) {
    (opt_text(s.host), opt_text(s.user))
}

/// An entry applies to a remote when its host is the remote's host or
/// unset, and its user is the remote's user, or either is unset.
pub open spec fn ssh_applies(t: (Option<Seq<char>>, Option<Seq<char>>), host: Seq<char>, user: Option<
    Seq<char>,
>) -> bool {
    (t.0 == Some(host) || t.0 is None) && (t.1 == user || t.1 is None || user is None)
}

/// Two points for each of host and user that is equal, one for each that
/// is not (but unset).
pub open spec fn ssh_score(t: (Option<Seq<char>>, Option<Seq<char>>), host: Seq<char>, user: Option<
    Seq<char>,
>) -> int {
    (if t.0 == Some(host) {
        2int
    } else {
        1int
    }) + (if t.1 == user {
        2int
    } else {
        1int
    })
}

/// The position of the applicable entry with the highest score, the last of
/// those that tie.
pub open spec fn ssh_best(ts: Seq<(Option<Seq<char>>, Option<Seq<char>>)>, host: Seq<char>, user: Option<
    Seq<char>,
>) -> Option<int>
    decreases ts.len(),
{
    if ts.len() == 0 {
        None
    } else {
        let b = ssh_best(ts.drop_last(), host, user);
        let x = ts.last();
        if ssh_applies(x, host, user) && (b is None || ssh_score(x, host, user) >= ssh_score(
            ts[b->0],
            host,
            user,
        )) {
            Some(ts.len() - 1)
        } else {
            b
        }
    }
}

pub proof fn lemma_ssh_best(ts: Seq<(Option<Seq<char>>, Option<Seq<char>>)>, host: Seq<char>, user: Option<Seq<char>>)
    ensures
        ssh_best(ts, host, user) matches Some(i) ==> 0 <= i < ts.len() && ssh_applies(ts[i], host, user)
            && forall|j: int|
            0 <= j < ts.len() && ssh_applies(#[trigger] ts[j], host, user) ==> ssh_score(ts[j], host, user)
                <= ssh_score(ts[i], host, user),
        ssh_best(ts, host, user) is None ==> forall|j: int|
            0 <= j < ts.len() ==> !ssh_applies(#[trigger] ts[j], host, user),
    decreases ts.len(),
{
    if ts.len() > 0 {
        let t = ts.drop_last();
        lemma_ssh_best(t, host, user);
        assert(forall|j: int| 0 <= j < t.len() ==> t[j] == ts[j]);
    }
}

/// An entry is chosen exactly where some entry fits the remote: its host is
/// the remote's host or unset, and its user is the remote's user or unset,
/// or the remote names no user.
pub proof fn lemma_ssh_chosen_iff_some_fits(
    ts: Seq<(Option<Seq<char>>, Option<Seq<char>>)>,
    host: Seq<char>,
    user: Option<Seq<char>>,
)
    ensures
        ssh_best(ts, host, user) is Some <==> exists|j: int|
            0 <= j < ts.len() && (#[trigger] ts[j].0 == Some(host) || ts[j].0 is None) && (ts[j].1
                == user || ts[j].1 is None || user is None),
{
    lemma_ssh_best(ts, host, user);
    if let Some(i) = ssh_best(ts, host, user) {
        assert(ts[i].0 == Some(host) || ts[i].0 is None);
    }
}

/// Where the remote names no user, every entry whose host is the remote's
/// host or unset applies, whatever user it names: so an entry is chosen
/// whenever one such entry exists, the one chosen fits the host, and it
/// scores at least as well as every such entry.
pub proof fn lemma_ssh_no_user_takes_host_entries(
    ts: Seq<(Option<Seq<char>>, Option<Seq<char>>)>,
    host: Seq<char>,
)
    ensures
        (exists|j: int| 0 <= j < ts.len() && (#[trigger] ts[j].0 == Some(host) || ts[j].0 is None))
            ==> ssh_best(ts, host, None) is Some,
        ssh_best(ts, host, None) matches Some(i) ==> {
            &&& 0 <= i < ts.len()
            &&& ts[i].0 == Some(host) || ts[i].0 is None
            &&& forall|j: int|
                0 <= j < ts.len() && (#[trigger] ts[j].0 == Some(host) || ts[j].0 is None)
                    ==> ssh_score(ts[j], host, None) <= ssh_score(ts[i], host, None)
        },
{
    lemma_ssh_best(ts, host, None);
    if exists|j: int| 0 <= j < ts.len() && (#[trigger] ts[j].0 == Some(host) || ts[j].0 is None) {
        let j = choose|j: int| 0 <= j < ts.len() && (#[trigger] ts[j].0 == Some(host) || ts[j].0 is None);
        assert(ssh_applies(ts[j], host, None));
    }
    if let Some(i) = ssh_best(ts, host, None) {
        assert forall|j: int|
            0 <= j < ts.len() && (#[trigger] ts[j].0 == Some(host) || ts[j].0 is None) implies ssh_score(
            ts[j],
            host,
            None,
        ) <= ssh_score(ts[i], host, None) by {
            assert(ssh_applies(ts[j], host, None));
        }
    }
}

fn opt_eq(a: &Option<String>, b: Option<&str>) -> (r: bool)
    ensures
        r == (opt_text(*a) == match b {
            Some(s) => Some(s@),
            None => None::<Seq<char>>,
        }),
{
    match (a, b) {
        (Some(x), Some(y)) => str_eq(x.as_str(), y),
        (None, None) => true,
        _ => false,
    }
}

pub open spec fn opt_str_view(o: Option<&str>) -> Option<Seq<char>> {
    match o {
        Some(s) => Some(s@),
        None => None,
    }
}

impl AppConfig {
    /// The `[[ssh]]` entry that best fits `host` and `user`: of those that
    /// apply, the one with the highest score, the last of those that tie.
    pub fn find_ssh_best_match(&self, host: &str, user: Option<&str>) -> (r: Option<&Ssh>)
        ensures
            match ssh_best(self.ssh@.map_values(|s: Ssh| ssh_target(s)), host@, opt_str_view(user)) {
                Some(i) => r matches Some(s) && *s == self.ssh@[i],
                None => r is None,
            },
    {
        let ghost ts = self.ssh@.map_values(|s: Ssh| ssh_target(s));
        let ghost u = opt_str_view(user);
        let mut best: Option<usize> = None;
        let mut best_score: u32 = 0;
        let mut i: usize = 0;
        proof {
            assert(ts.take(0) =~= Seq::<(Option<Seq<char>>, Option<Seq<char>>)>::empty());
        }
        while i < self.ssh.len()
            invariant
                i <= self.ssh@.len(),
                ts == self.ssh@.map_values(|s: Ssh| ssh_target(s)),
                u == opt_str_view(user),
                match ssh_best(ts.take(i as int), host@, u) {
                    Some(b) => best == Some(b as usize) && best_score == ssh_score(ts[b], host@, u),
                    None => best is None,
                },
            decreases self.ssh@.len() - i,
        {
            let remote = &self.ssh[i];
            let host_equal = opt_eq(&remote.host, Some(host));
            let user_equal = opt_eq(&remote.user, user);
            let host_matches = host_equal || remote.host.is_none();
            let user_matches = user_equal || remote.user.is_none() || user.is_none();
            proof {
                assert(ts.take(i + 1).drop_last() =~= ts.take(i as int));
                assert(ts.take(i + 1).last() == ts[i as int]);
                assert(ts[i as int] == ssh_target(self.ssh@[i as int]));
                let b = ssh_best(ts.take(i as int), host@, u);
                if b is Some {
                    lemma_ssh_best(ts.take(i as int), host@, u);
                    assert(ts.take(i as int)[b->0] == ts[b->0]);
                }
            }
            if host_matches && user_matches {
                let score: u32 = (if host_equal { 2 } else { 1 }) + (if user_equal { 2 } else { 1 });
                if best.is_none() || score >= best_score {
                    best = Some(i);
                    best_score = score;
                }
            }
            i = i + 1;
        }
        proof {
            assert(ts.take(self.ssh@.len() as int) =~= ts);
            lemma_ssh_best(ts, host@, u);
        }
        match best {
            Some(b) => Some(&self.ssh[b]),
            None => None,
        }
    }
}

/// Why the configuration file could not be read, with the parser's message.
#[derive(Debug)]
pub enum AppConfigError {
    ReadConfigError(String),
}

/// Why a model could not be determined.
#[derive(Debug)]
pub enum ModelError {
    ParseNameError(String),
    ResolveFailed(ResolveError),
    NoDefaultModelConfigured(String),
}


impl AppConfigError {
    /// The error's message.
    pub fn message(&self) -> (r: String)
        ensures
            r@ == match self {
                AppConfigError::ReadConfigError(e) => "Config file has invalid format: "@ + e@,
            },
    {
        match self {
            AppConfigError::ReadConfigError(e) => {
                let mut m = string_of("Config file has invalid format: ");
                crate::text::push_str(&mut m, e.as_str());
                m
            },
        }
    }
}

} // verus!
