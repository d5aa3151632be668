use promptcmd::config::appconfig::{
    default_motd, default_port_end, default_port_start, default_socket_path, default_socket_random, AppConfig,
    BashMethod, ChannelOptions, GroupConfig, GroupProviderConfig, LongGroupProviderConfig, NamedGroup,
    ShellOptions, Ssh,
};

fn ssh(host: Option<&str>, user: Option<&str>, motd: bool) -> Ssh {
    let mut s = Ssh::default();
    s.host = host.map(|h| h.to_string());
    s.user = user.map(|u| u.to_string());
    s.motd = motd;
    s
}

#[test]
fn ssh_defaults() {
    let s = Ssh::default();
    assert!(s.host.is_none() && s.user.is_none());
    assert_eq!(s.bash_method, BashMethod::Exports);
    assert_eq!(s.shell, ShellOptions::Auto);
    assert_eq!(s.channel, ChannelOptions::Auto);
    assert_eq!(s.remote_socket.path, "/tmp/");
    assert!(s.remote_socket.random);
    assert_eq!((s.remote_ports.start, s.remote_ports.end), (49152, 65535));
    assert_eq!((s.local_ports.start, s.local_ports.end), (49152, 65535));
    assert!(s.motd);
    assert_eq!(default_port_start(), 49152);
    assert_eq!(default_port_end(), 65535);
    assert_eq!(default_socket_path(), "/tmp/");
    assert!(default_socket_random());
    assert!(!default_motd());
}

#[test]
fn ssh_best_match_prefers_exact() {
    let mut cfg = AppConfig::default();
    cfg.ssh = vec![
        ssh(None, None, true),
        ssh(Some("web"), None, false),
        ssh(Some("web"), Some("root"), true),
        ssh(Some("db"), Some("root"), false),
    ];
    let m = cfg.find_ssh_best_match("web", Some("root")).unwrap();
    assert_eq!(m.host.as_deref(), Some("web"));
    assert_eq!(m.user.as_deref(), Some("root"));
    let m = cfg.find_ssh_best_match("web", Some("alice")).unwrap();
    assert_eq!(m.host.as_deref(), Some("web"));
    assert_eq!(m.user, None);
    let m = cfg.find_ssh_best_match("other", None).unwrap();
    assert_eq!(m.host, None);
}

#[test]
fn ssh_best_match_ties_go_to_last() {
    let mut cfg = AppConfig::default();
    cfg.ssh = vec![ssh(Some("h"), None, true), ssh(Some("h"), None, false)];
    assert!(!cfg.find_ssh_best_match("h", None).unwrap().motd);
}

#[test]
fn ssh_best_match_none_applies() {
    let mut cfg = AppConfig::default();
    cfg.ssh = vec![ssh(Some("a"), None, true), ssh(None, Some("bob"), true)];
    assert!(cfg.find_ssh_best_match("b", Some("alice")).is_none());
    assert!(AppConfig::default().find_ssh_best_match("x", None).is_none());
}

#[test]
fn group_member_to_long() {
    let short = GroupProviderConfig::Short("openai".to_string()).to_long();
    assert_eq!(short.name, "openai");
    assert_eq!(short.weight, Some(1));
    let long = GroupProviderConfig::Long(LongGroupProviderConfig { name: "ollama".to_string(), weight: Some(2) }).to_long();
    assert_eq!(long.name, "ollama");
    assert_eq!(long.weight, Some(2));
}

#[test]
fn get_group_by_name() {
    let mut cfg = AppConfig::default();
    cfg.groups.push(NamedGroup {
        name: "group1".to_string(),
        config: GroupConfig { providers: vec![GroupProviderConfig::Short("openai".to_string())] },
    });
    assert_eq!(cfg.get_group("group1").unwrap().providers.len(), 1);
    assert!(cfg.get_group("group2").is_none());
}
