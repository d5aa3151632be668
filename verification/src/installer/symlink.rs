use vstd::prelude::*;

use crate::config::{join_path, path_join, probed};
use crate::installer::{InstallError, IoError, IoErrorKind, UninstallError};
use crate::text::{starts_with, starts_with_seq, str_eq, string_of};

verus! {

/// Installs prompts as symbolic links to one target in one directory.
#[derive(Debug)]
pub struct SymlinkInstaller {
    pub target: String,
    pub install_dir: String,
}

/// What `Path::parent` returns for `p`: `p` without its final component,
/// if it has one.
pub uninterp spec fn path_parent(p: Seq<char>) -> Option<Seq<char>>;

/// What `Path::file_name` returns for `p`: its final component, unless that
/// is `..` or there is none.
pub uninterp spec fn path_file_name(p: Seq<char>) -> Option<Seq<char>>;

/// `Path::parent`. The contract names the result.
#[verifier::external_body]
fn parent_of(p: &str) -> (r: Option<String>)
    ensures
        path_parent(p@) == match r {
            Some(s) => Some(s@),
            None => None::<Seq<char>>,
        },
{
    std::path::Path::new(p).parent().map(|q| q.to_string_lossy().into_owned())
}

/// `Path::file_name`. The contract names the result.
#[verifier::external_body]
fn file_name_of(p: &str) -> (r: Option<String>)
    ensures
        path_file_name(p@) == match r {
            Some(s) => Some(s@),
            None => None::<Seq<char>>,
        },
{
    std::path::Path::new(p).file_name().map(|q| q.to_string_lossy().into_owned())
}

/// What `==` on `Path` answers for `a` and `b`: whether their components
/// are the same, so that repeated and trailing separators and `.`
/// components in between make no difference.
pub uninterp spec fn same_path_spec(a: Seq<char>, b: Seq<char>) -> bool;

/// `==` on `Path`. The contract names the answer.
#[verifier::external_body]
fn same_path(a: &str, b: &str) -> (r: bool)
    ensures
        r == same_path_spec(a@, b@),
{
    std::path::Path::new(a) == std::path::Path::new(b)
}

/// `Path::starts_with` for paths in canonical form (absolute, no `.` or
/// `..`, no repeated or trailing `/`): `p` is `base` or lies below it.
pub open spec fn path_within(p: Seq<char>, base: Seq<char>) -> bool {
    p == base || (base.len() > 0 && base.last() == '/' && starts_with_seq(p, base))
        || starts_with_seq(p, base + seq!['/'])
}

fn within(p: &str, base: &str) -> (r: bool)
    ensures
        r == path_within(p@, base@),
{
    if str_eq(p, base) {
        return true;
    }
    let bc = crate::text::chars_of(base);
    if bc.len() > 0 && bc[bc.len() - 1] == '/' && starts_with(p, base) {
        return true;
    }
    let mut with_sep = string_of(base);
    crate::text::push_char(&mut with_sep, '/');
    assert(with_sep@ =~= base@ + seq!['/']);
    starts_with(p, with_sep.as_str())
}

pub open spec fn io_error_view(e: IoError) -> (IoErrorKind, Seq<char>) {
    (e.kind, e.message@)
}

/// The outcome of a canonicalization: the canonical path, or the failure.
pub open spec fn canon_view(r: Result<String, IoError>) -> Result<Seq<char>, (IoErrorKind, Seq<char>)> {
    match r {
        Ok(s) => Ok(s@),
        Err(e) => Err(io_error_view(e)),
    }
}

/// A call of `canonicalize` on the path `p` answered `o`.
pub open spec fn canonicalized<F: Fn(&str) -> Result<String, IoError>>(
    canonicalize: F,
    p: Seq<char>,
    o: Result<Seq<char>, (IoErrorKind, Seq<char>)>,
) -> bool {
    exists|t: &str, r: Result<String, IoError>|
        t@ == p && #[trigger] canonicalize.ensures((t,), r) && canon_view(r) == o
}

/// Where `name` is installed, given the canonical install directory `base`
/// and, where the path `base/name` has a parent, that parent in canonical
/// form `parent`: the parent joined with the file name, which must lie
/// within `base`.
pub open spec fn safe_resolve_spec(
    name: Seq<char>,
    base: Result<Seq<char>, (IoErrorKind, Seq<char>)>,
    parent: Result<Seq<char>, (IoErrorKind, Seq<char>)>,
) -> Result<Seq<char>, (IoErrorKind, Seq<char>)> {
    match base {
        Err(e) => Err(e),
        Ok(b) => {
            let raw = path_join(b, name);
            match path_parent(raw) {
                None => Err((IoErrorKind::InvalidInput, "no parent"@)),
                Some(_) => match parent {
                    Err(e) => Err(e),
                    Ok(pc) => match path_file_name(raw) {
                        None => Err((IoErrorKind::InvalidInput, "no file name"@)),
                        Some(f) => {
                            let resolved = path_join(pc, f);
                            if path_within(resolved, b) {
                                Ok(resolved)
                            } else {
                                Err((IoErrorKind::PermissionDenied, "path traversal detected"@))
                            }
                        },
                    },
                },
            }
        },
    }
}

/// `safe_resolve` answered `r` for `name`, with canonicalizations that
/// `canonicalize` gave for the install directory and for the parent.
pub open spec fn safe_resolved<F: Fn(&str) -> Result<String, IoError>>(
    canonicalize: F,
    install_dir: Seq<char>,
    name: Seq<char>,
    r: Result<Seq<char>, (IoErrorKind, Seq<char>)>,
) -> bool {
    exists|
        c1: Result<Seq<char>, (IoErrorKind, Seq<char>)>,
        c2: Result<Seq<char>, (IoErrorKind, Seq<char>)>,
    |
        #[trigger] safe_resolve_spec(name, c1, c2) == r && canonicalized(canonicalize, install_dir, c1)
            && match c1 {
            Ok(b) => match path_parent(path_join(b, name)) {
                Some(p) => canonicalized(canonicalize, p, c2),
                None => true,
            },
            Err(_) => true,
        }
}

fn io_error(kind: IoErrorKind, message: &str) -> (r: IoError)
    ensures
        r.kind == kind && r.message@ == message@,
{
    IoError { kind, message: string_of(message) }
}

impl SymlinkInstaller {
    pub fn new(target: String, install_dir: String) -> (r: Self)
        ensures
            r.target == target && r.install_dir == install_dir,
    {
        SymlinkInstaller { target, install_dir }
    }

    /// Where `name` is to be installed: `name` joined to the canonical
    /// install directory, with its parent made canonical, refused where it
    /// does not lie within the install directory.
    pub fn safe_resolve<F: Fn(&str) -> Result<String, IoError>>(&self, name: &str, canonicalize: &F) -> (r:
        Result<String, IoError>)
        requires
            forall|s: &str| #[trigger] canonicalize.requires((s,)),
        ensures
            safe_resolved(*canonicalize, self.install_dir@, name@, canon_view(r)),
    {
        let base_r = canonicalize(self.install_dir.as_str());
        let ghost c1 = canon_view(base_r);
        assert(canonicalized(*canonicalize, self.install_dir@, c1));
        let base = match base_r {
            Ok(b) => b,
            Err(e) => {
                assert(safe_resolve_spec(name@, c1, c1) == canon_view(Err::<String, IoError>(e)));
                return Err(e);
            },
        };
        let raw = join_path(base.as_str(), name);
        let parent = match parent_of(raw.as_str()) {
            Some(p) => p,
            None => {
                let e = io_error(IoErrorKind::InvalidInput, "no parent");
                assert(safe_resolve_spec(name@, c1, c1) == canon_view(Err::<String, IoError>(e)));
                return Err(e);
            },
        };
        let parent_r = canonicalize(parent.as_str());
        let ghost c2 = canon_view(parent_r);
        assert(canonicalized(*canonicalize, parent@, c2));
        let parent_c = match parent_r {
            Ok(p) => p,
            Err(e) => {
                assert(safe_resolve_spec(name@, c1, c2) == canon_view(Err::<String, IoError>(e)));
                return Err(e);
            },
        };
        let file_name = match file_name_of(raw.as_str()) {
            Some(f) => f,
            None => {
                let e = io_error(IoErrorKind::InvalidInput, "no file name");
                assert(safe_resolve_spec(name@, c1, c2) == canon_view(Err::<String, IoError>(e)));
                return Err(e);
            },
        };
        let resolved = join_path(parent_c.as_str(), file_name.as_str());
        if !within(resolved.as_str(), base.as_str()) {
            let e = io_error(IoErrorKind::PermissionDenied, "path traversal detected");
            assert(safe_resolve_spec(name@, c1, c2) == canon_view(Err::<String, IoError>(e)));
            return Err(e);
        }
        assert(safe_resolve_spec(name@, c1, c2) == canon_view(Ok::<String, IoError>(resolved)));
        Ok(resolved)
    }

    /// Where to make the link for `name`: refused where something is there
    /// already, as `present` finds.
    pub fn install_path<F: Fn(&str) -> Result<String, IoError>, G: Fn(&str) -> bool>(
        &self,
        name: &str,
        canonicalize: &F,
        present: &G,
    ) -> (r: Result<String, InstallError>)
        requires
            forall|s: &str| #[trigger] canonicalize.requires((s,)),
            forall|s: &str| #[trigger] present.requires((s,)),
        ensures
            exists|p: Result<Seq<char>, (IoErrorKind, Seq<char>)>|
                #[trigger] safe_resolved(*canonicalize, self.install_dir@, name@, p) && match p {
                    Err(e) => r matches Err(InstallError::IOError(x)) && io_error_view(x) == e,
                    Ok(path) => (probed(*present, path, true) && (r matches Err(
                        InstallError::AlreadyExists(n, q),
                    ) && n@ == name@ && q@ == path)) || (probed(*present, path, false) && (r matches Ok(
                        q,
                    ) && q@ == path)),
                },
    {
        match self.safe_resolve(name, canonicalize) {
            Err(e) => Err(InstallError::IOError(e)),
            Ok(path) => {
                if present(path.as_str()) {
                    assert(probed(*present, path@, true));
                    Err(InstallError::AlreadyExists(string_of(name), path))
                } else {
                    assert(probed(*present, path@, false));
                    Ok(path)
                }
            },
        }
    }

    /// Where the link for `name` is to be removed: refused where nothing is
    /// there, as `present` finds.
    pub fn uninstall_path<F: Fn(&str) -> Result<String, IoError>, G: Fn(&str) -> bool>(
        &self,
        name: &str,
        canonicalize: &F,
        present: &G,
    ) -> (r: Result<String, UninstallError>)
        requires
            forall|s: &str| #[trigger] canonicalize.requires((s,)),
            forall|s: &str| #[trigger] present.requires((s,)),
        ensures
            exists|p: Result<Seq<char>, (IoErrorKind, Seq<char>)>|
                #[trigger] safe_resolved(*canonicalize, self.install_dir@, name@, p) && match p {
                    Err(e) => r matches Err(UninstallError::IOError(x)) && io_error_view(x) == e,
                    Ok(path) => (probed(*present, path, false) && (r matches Err(
                        UninstallError::NotInstalled(n),
                    ) && n@ == name@)) || (probed(*present, path, true) && (r matches Ok(q) && q@
                        == path)),
                },
    {
        match self.safe_resolve(name, canonicalize) {
            Err(e) => Err(UninstallError::IOError(e)),
            Ok(path) => {
                if !present(path.as_str()) {
                    assert(probed(*present, path@, false));
                    Err(UninstallError::NotInstalled(string_of(name)))
                } else {
                    assert(probed(*present, path@, true));
                    Ok(path)
                }
            },
        }
    }

    /// Where `name` is installed: its resolved path, where `present` finds
    /// something there.
    pub fn is_installed<F: Fn(&str) -> Result<String, IoError>, G: Fn(&str) -> bool>(
        &self,
        name: &str,
        canonicalize: &F,
        present: &G,
    ) -> (r: Option<String>)
        requires
            forall|s: &str| #[trigger] canonicalize.requires((s,)),
            forall|s: &str| #[trigger] present.requires((s,)),
        ensures
            exists|p: Result<Seq<char>, (IoErrorKind, Seq<char>)>|
                #[trigger] safe_resolved(*canonicalize, self.install_dir@, name@, p) && match p {
                    Err(_) => r is None,
                    Ok(path) => (probed(*present, path, false) && r is None) || (probed(
                        *present,
                        path,
                        true,
                    ) && (r matches Some(q) && q@ == path)),
                },
    {
        match self.safe_resolve(name, canonicalize) {
            Err(_) => None,
            Ok(path) => {
                if present(path.as_str()) {
                    assert(probed(*present, path@, true));
                    Some(path)
                } else {
                    assert(probed(*present, path@, false));
                    None
                }
            },
        }
    }
}

} // verus!

verus! {

/// An entry of the install directory: its path, whether it is a file,
/// where it links to if it is a link, and its file name.
#[derive(Debug)]
pub struct DirEntryInfo {
    pub path: String,
    pub is_file: bool,
    pub link_target: Option<String>,
    pub file_name: Option<String>,
}

/// An entry is an installed prompt when it is a file that links to the
/// target, as paths compare, and has a file name.
pub open spec fn is_installed_entry(e: DirEntryInfo, target: Seq<char>) -> bool {
    e.is_file && (e.link_target matches Some(t) && same_path_spec(t@, target)) && e.file_name is Some
}

/// The installed prompts among the entries, as name and path, in order.
pub open spec fn installed_entries(es: Seq<DirEntryInfo>, target: Seq<char>) -> Seq<(Seq<char>, Seq<char>)>
    decreases es.len(),
{
    if es.len() == 0 {
        Seq::empty()
    } else {
        let rest = installed_entries(es.drop_last(), target);
        let e = es.last();
        if is_installed_entry(e, target) {
            rest.push((e.file_name->0@, e.path@))
        } else {
            rest
        }
    }
}

impl SymlinkInstaller {
    /// The installed prompts among the entries of the install directory.
    pub fn list_entries(&self, entries: &Vec<DirEntryInfo>) -> (r: Vec<(String, String)>)
        ensures
            r@.map_values(|p: (String, String)| (p.0@, p.1@)) == installed_entries(
                entries@,
                self.target@,
            ),
    {
        let mut r: Vec<(String, String)> = Vec::new();
        let mut i: usize = 0;
        while i < entries.len()
            invariant
                i <= entries@.len(),
                r@.map_values(|p: (String, String)| (p.0@, p.1@)) == installed_entries(
                    entries@.take(i as int),
                    self.target@,
                ),
            decreases entries@.len() - i,
        {
            let e = &entries[i];
            proof {
                assert(entries@.take(i + 1).drop_last() =~= entries@.take(i as int));
            }
            let linked = match &e.link_target {
                Some(t) => same_path(t.as_str(), self.target.as_str()),
                None => false,
            };
            if e.is_file && linked {
                if let Some(f) = &e.file_name {
                    let ghost before = r@.map_values(|p: (String, String)| (p.0@, p.1@));
                    r.push((string_of(f.as_str()), string_of(e.path.as_str())));
                    proof {
                        assert(r@.map_values(|p: (String, String)| (p.0@, p.1@)) =~= before.push(
                            (f@, e.path@),
                        ));
                    }
                }
            }
            i = i + 1;
        }
        proof {
            assert(entries@.take(entries@.len() as int) =~= entries@);
        }
        r
    }
}

} // verus!

verus! {

/// Whatever the name, a resolved install path lies within the canonical
/// install directory.
pub proof fn lemma_resolved_within_install_dir(
    name: Seq<char>,
    base: Seq<char>,
    parent: Result<Seq<char>, (IoErrorKind, Seq<char>)>,
)
    ensures
        safe_resolve_spec(name, Ok(base), parent) matches Ok(p) ==> path_within(p, base),
{
}

} // verus!
