use promptcmd::config::appconfig::AppConfigError;
use promptcmd::config::resolver::error::ResolveError;
use promptcmd::config::{ConfigError};
use promptcmd::dotprompt::ParseDotPromptError;
use promptcmd::installer::{InstallError, UninstallError};
use promptcmd::lb::LBError;

#[test]
fn resolve_error_messages() {
    assert_eq!(ResolveError::NotFound("x".to_string()).message(), "'x' not found");
    let nested = ResolveError::GroupMemberError("g".to_string(), Box::new(ResolveError::NotFound("m".to_string())));
    assert_eq!(nested.message(), "Group 'g' failed to load member: 'm' not found");
    assert_eq!(
        ResolveError::GroupMemberNotFound("g".to_string(), "m".to_string()).message(),
        "Group 'g' references 'm' which is not found"
    );
    assert_eq!(ResolveError::NoNameToResolve.message(), "Found no name to resolve");
}

#[test]
fn other_error_messages() {
    assert_eq!(ParseDotPromptError("bad".to_string()).message(), "ParseDotPromptError: bad");
    assert_eq!(
        InstallError::AlreadyExists("a".to_string(), "/x/a".to_string()).message(),
        "a is already installed at /x/a"
    );
    assert_eq!(UninstallError::NotInstalled("a".to_string()).message(), "a is not installed");
    assert_eq!(LBError::Other("AAA").message(), "LBError:AAA");
    assert_eq!(AppConfigError::ReadConfigError("oops".to_string()).message(), "Config file has invalid format: oops");
    assert_eq!(
        ConfigError::EnvDirDoesNotExist("PROMPTCMD_HOME_DIR", "/n".to_string()).message(),
        "Path set in Environment PROMPTCMD_HOME_DIR=/n does not exist"
    );
}
