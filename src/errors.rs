use vstd::prelude::*;

verus! {

/// Declares url's parse error so that it can travel inside `CliError`.
#[verifier::external_type_specification]
#[verifier::external_body]
pub struct ExParseError(url::ParseError);

/// Everything that can stop a command. Paths and the messages of the
/// underlying I/O, git and TOML failures are carried as text.
#[derive(Debug)]
pub enum CliError {
    HomeDirNotFound,
    CreatingDirs(String),
    ReadFile(String, String),
    WriteFile(String, String),
    Deserialize(String, String),
    SerializeConfig(String, String),
    WrongUrlFormat(url::ParseError),
    RepositoryNotSet,
    CloneRepo(String),
    OpenRepo(String),
    RemoteNotFound(String),
    TokenNotSet,
    AuthNotSupported,
    PushFailed(String),
}

} // verus!
