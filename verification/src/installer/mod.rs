pub mod symlink;

use vstd::prelude::*;

verus! {

/// The kinds of input and output failure that installing tells apart.
#[derive(Debug, Clone, Copy, PartialEq, Eq, Structural)]
pub enum IoErrorKind {
    NotFound,
    InvalidInput,
    PermissionDenied,
    Other,
}

/// A failure of input or output: its kind and its message.
#[derive(Debug)]
pub struct IoError {
    pub kind: IoErrorKind,
    pub message: String,
}

/// Why a prompt could not be installed.
#[derive(Debug)]
pub enum InstallError {
    /// The prompt's name and where it is installed already.
    AlreadyExists(String, String),
    IOError(IoError),
}

/// Why a prompt could not be uninstalled.
#[derive(Debug)]
pub enum UninstallError {
    /// The prompt's name.
    NotInstalled(String),
    IOError(IoError),
}

/// Why the installed prompts could not be listed.
#[derive(Debug)]
pub enum ListError {
    IOError(IoError),
}

/// A place where prompts are installed as commands.
pub trait DotPromptInstaller {
    /// Installs `name`, answering where.
    fn install(&mut self, name: &str) -> Result<String, InstallError>;

    /// Uninstalls `name`, answering where it was.
    fn uninstall(&mut self, name: &str) -> Result<String, UninstallError>;

    /// Where `name` is installed, if it is.
    fn is_installed(&self, name: &str) -> Option<String>;

    /// The installed prompts and where each is, by name.
    fn list(&self) -> Result<Vec<(String, String)>, ListError>;
}


impl InstallError {
    /// The error's message.
    pub fn message(&self) -> (r: String)
        ensures
            r@ == match self {
                InstallError::AlreadyExists(n, p) => n@ + " is already installed at "@ + p@,
                InstallError::IOError(_) => "IO Error"@,
            },
    {
        match self {
            InstallError::AlreadyExists(n, p) => {
                let mut m = crate::text::string_of(n.as_str());
                crate::text::push_str(&mut m, " is already installed at ");
                crate::text::push_str(&mut m, p.as_str());
                m
            },
            InstallError::IOError(_) => crate::text::string_of("IO Error"),
        }
    }
}

impl UninstallError {
    /// The error's message.
    pub fn message(&self) -> (r: String)
        ensures
            r@ == match self {
                UninstallError::NotInstalled(n) => n@ + " is not installed"@,
                UninstallError::IOError(_) => "IO Error"@,
            },
    {
        match self {
            UninstallError::NotInstalled(n) => {
                let mut m = crate::text::string_of(n.as_str());
                crate::text::push_str(&mut m, " is not installed");
                m
            },
            UninstallError::IOError(_) => crate::text::string_of("IO Error"),
        }
    }
}

impl ListError {
    /// The error's message.
    pub fn message(&self) -> (r: String)
        ensures
            r@ == "IO Error"@,
    {
        crate::text::string_of("IO Error")
    }
}

} // verus!
