use promptcmd::installer::symlink::{DirEntryInfo, SymlinkInstaller};
use promptcmd::installer::{InstallError, IoError, IoErrorKind, UninstallError};
use std::cell::RefCell;
use std::collections::BTreeSet;

/// Resolves `.` and `..` without touching the disk, as canonicalization of
/// existing directories would.
fn lexical_canonicalize(p: &str) -> Result<String, IoError> {
    let mut parts: Vec<&str> = Vec::new();
    for c in p.split('/') {
        match c {
            "" | "." => {}
            ".." => {
                parts.pop();
            }
            other => parts.push(other),
        }
    }
    Ok(format!("/{}", parts.join("/")))
}

fn failing_canonicalize(_p: &str) -> Result<String, IoError> {
    Err(IoError { kind: IoErrorKind::NotFound, message: "missing".to_string() })
}

fn installer() -> SymlinkInstaller {
    SymlinkInstaller::new("/opt/app/target_binary".to_string(), "/opt/app/install".to_string())
}

#[test]
fn test_new_creates_installer() {
    let installer = SymlinkInstaller::new("/t/target_binary".to_string(), "/t/install".to_string());

    assert_eq!(installer.target, "/t/target_binary");
    assert_eq!(installer.install_dir, "/t/install");
}

#[test]
fn test_safe_resolve_normal_path() {
    let resolved = installer().safe_resolve("mycommand", &lexical_canonicalize).unwrap();
    assert!(resolved.ends_with("mycommand"));
    assert!(resolved.starts_with("/opt/app/install"));
    assert_eq!(resolved, "/opt/app/install/mycommand");
}

#[test]
fn test_safe_resolve_prevents_path_traversal() {
    let result = installer().safe_resolve("../../../etc/passwd", &lexical_canonicalize);
    assert!(result.is_err());
    assert_eq!(result.unwrap_err().kind, IoErrorKind::PermissionDenied);
}

#[test]
fn test_safe_resolve_with_dot_dot_in_name() {
    let traversal_attempts = vec!["../escape", "../../dangerous", "../../../etc/passwd"];
    for attempt in traversal_attempts {
        let result = installer().safe_resolve(attempt, &lexical_canonicalize);
        assert!(result.is_err(), "Should reject path traversal: {}", attempt);
    }
}

#[test]
fn safe_resolve_rejects_sibling_with_common_prefix() {
    let result = installer().safe_resolve("../install2/x", &lexical_canonicalize);
    assert_eq!(result.unwrap_err().kind, IoErrorKind::PermissionDenied);
}

#[test]
fn safe_resolve_rejects_name_ending_in_dot_dot() {
    let result = installer().safe_resolve("a/..", &lexical_canonicalize);
    assert_eq!(result.unwrap_err().kind, IoErrorKind::InvalidInput);
}

#[test]
fn safe_resolve_passes_canonicalization_failure_on() {
    let result = installer().safe_resolve("x", &failing_canonicalize);
    let e = result.unwrap_err();
    assert_eq!(e.kind, IoErrorKind::NotFound);
    assert_eq!(e.message, "missing");
}

#[test]
fn test_install_already_exists() {
    match installer().install_path("dup", &lexical_canonicalize, &|_p: &str| true) {
        Err(InstallError::AlreadyExists(name, path)) => {
            assert_eq!(name, "dup");
            assert_eq!(path, "/opt/app/install/dup");
        }
        other => panic!("unexpected {:?}", other),
    }
    assert_eq!(
        installer().install_path("new", &lexical_canonicalize, &|_p: &str| false).unwrap(),
        "/opt/app/install/new"
    );
}

#[test]
fn test_install_prevents_path_traversal() {
    match installer().install_path("../evil", &lexical_canonicalize, &|_p: &str| false) {
        Err(InstallError::IOError(e)) => assert_eq!(e.kind, IoErrorKind::PermissionDenied),
        other => panic!("unexpected {:?}", other),
    }
}

#[test]
fn test_uninstall_not_installed() {
    match installer().uninstall_path("nonexistent", &lexical_canonicalize, &|_p: &str| false) {
        Err(UninstallError::NotInstalled(name)) => assert_eq!(name, "nonexistent"),
        other => panic!("unexpected {:?}", other),
    }
    match installer().uninstall_path("../../x", &lexical_canonicalize, &|_p: &str| true) {
        Err(UninstallError::IOError(e)) => assert_eq!(e.kind, IoErrorKind::PermissionDenied),
        other => panic!("unexpected {:?}", other),
    }
}

#[test]
fn is_installed_answers_path() {
    assert_eq!(
        installer().is_installed("cmd", &lexical_canonicalize, &|_p: &str| true),
        Some("/opt/app/install/cmd".to_string())
    );
    assert_eq!(installer().is_installed("cmd", &lexical_canonicalize, &|_p: &str| false), None);
    assert_eq!(installer().is_installed("../cmd", &lexical_canonicalize, &|_p: &str| true), None);
}

#[test]
fn test_list_ignores_symlinks_to_different_targets() {
    let entries = vec![
        DirEntryInfo {
            path: "/opt/app/install/a".to_string(),
            is_file: true,
            link_target: Some("/opt/app/target_binary".to_string()),
            file_name: Some("a".to_string()),
        },
        DirEntryInfo {
            path: "/opt/app/install/b".to_string(),
            is_file: true,
            link_target: Some("/elsewhere".to_string()),
            file_name: Some("b".to_string()),
        },
        DirEntryInfo {
            path: "/opt/app/install/c".to_string(),
            is_file: true,
            link_target: None,
            file_name: Some("c".to_string()),
        },
        DirEntryInfo {
            path: "/opt/app/install/d".to_string(),
            is_file: false,
            link_target: Some("/opt/app/target_binary".to_string()),
            file_name: Some("d".to_string()),
        },
    ];
    let listed = installer().list_entries(&entries);
    assert_eq!(listed, vec![("a".to_string(), "/opt/app/install/a".to_string())]);
}

#[test]
fn test_is_installed_when_not_installed() {
    assert!(installer().is_installed("nonexistent", &lexical_canonicalize, &|_p: &str| false).is_none());
}

#[test]
fn test_is_installed_with_path_traversal() {
    assert!(installer().is_installed("../../../etc/passwd", &lexical_canonicalize, &|_p: &str| true).is_none());
}

#[test]
fn test_uninstall_prevents_path_traversal() {
    match installer().uninstall_path("../evil", &lexical_canonicalize, &|_p: &str| true) {
        Err(UninstallError::IOError(e)) => assert_eq!(e.kind, IoErrorKind::PermissionDenied),
        other => panic!("unexpected {:?}", other),
    }
}

#[test]
fn test_list_ignores_non_symlinks() {
    let entries = vec![DirEntryInfo {
        path: "/opt/app/install/plain".to_string(),
        is_file: true,
        link_target: None,
        file_name: Some("plain".to_string()),
    }];
    assert!(installer().list_entries(&entries).is_empty());
}

#[test]
fn test_list_empty() {
    assert!(installer().list_entries(&Vec::new()).is_empty());
}

/// Links made in a simulated install directory, by path.
struct FakeDir {
    links: RefCell<BTreeSet<String>>,
}

impl FakeDir {
    fn new() -> Self {
        FakeDir { links: RefCell::new(BTreeSet::new()) }
    }

    fn install(&self, i: &SymlinkInstaller, name: &str) -> Result<String, InstallError> {
        let p = i.install_path(name, &lexical_canonicalize, &|p: &str| self.links.borrow().contains(p))?;
        self.links.borrow_mut().insert(p.clone());
        Ok(p)
    }

    fn uninstall(&self, i: &SymlinkInstaller, name: &str) -> Result<String, UninstallError> {
        let p = i.uninstall_path(name, &lexical_canonicalize, &|p: &str| self.links.borrow().contains(p))?;
        self.links.borrow_mut().remove(&p);
        Ok(p)
    }

    fn entries(&self, target: &str) -> Vec<DirEntryInfo> {
        self.links
            .borrow()
            .iter()
            .map(|p| DirEntryInfo {
                path: p.clone(),
                is_file: true,
                link_target: Some(target.to_string()),
                file_name: p.rsplit('/').next().map(|s| s.to_string()),
            })
            .collect()
    }
}

#[test]
fn test_uninstall_success() {
    let dir = FakeDir::new();
    let i = installer();
    dir.install(&i, "removeme").unwrap();
    let path = dir.uninstall(&i, "removeme").unwrap();
    assert_eq!(path, "/opt/app/install/removeme");
    assert!(!dir.links.borrow().contains(&path));
    match dir.uninstall(&i, "removeme") {
        Err(UninstallError::NotInstalled(name)) => assert_eq!(name, "removeme"),
        other => panic!("unexpected {:?}", other),
    }
}

#[test]
fn test_is_installed_when_installed() {
    let dir = FakeDir::new();
    let i = installer();
    dir.install(&i, "installed").unwrap();
    let result = i.is_installed("installed", &lexical_canonicalize, &|p: &str| dir.links.borrow().contains(p));
    assert_eq!(result, Some("/opt/app/install/installed".to_string()));
}

#[test]
fn test_list_with_installed_commands() {
    let dir = FakeDir::new();
    let i = installer();
    dir.install(&i, "cmd1").unwrap();
    dir.install(&i, "cmd2").unwrap();
    dir.install(&i, "cmd3").unwrap();
    let list = i.list_entries(&dir.entries("/opt/app/target_binary"));
    assert_eq!(list.len(), 3);
    for name in ["cmd1", "cmd2", "cmd3"] {
        assert!(list.iter().any(|(n, _)| n == name));
    }
}

#[test]
fn test_special_name() {
    let dir = FakeDir::new();
    let i = installer();
    dir.install(&i, "READFORME.md").unwrap();
    let list = i.list_entries(&dir.entries("/opt/app/target_binary"));
    assert_eq!(list.len(), 1);
    assert_eq!(list[0].0, "READFORME.md");
}

#[test]
fn list_compares_link_targets_as_paths() {
    let entries = vec![
        DirEntryInfo {
            path: "/opt/app/install/a".to_string(),
            is_file: true,
            link_target: Some("/opt/app//target_binary/".to_string()),
            file_name: Some("a".to_string()),
        },
        DirEntryInfo {
            path: "/opt/app/install/b".to_string(),
            is_file: true,
            link_target: Some("/opt/app/target_binary2".to_string()),
            file_name: Some("b".to_string()),
        },
    ];
    let listed = installer().list_entries(&entries);
    assert_eq!(listed, vec![("a".to_string(), "/opt/app/install/a".to_string())]);
}
