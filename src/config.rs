use vstd::prelude::*;
use crate::errors::CliError;
use crate::source::opt_str_view;
use crate::urls::{parse_error_text, parse_url, url_parsed};

verus! {

/// Name of the application's directory under the user's config directory.
pub const APP_NAME: &'static str = "pinbox";

/// Name of the settings file inside the application's directory.
pub const CONFIG_FILE: &'static str = "config.toml";

/// The application's own settings: the remote to clone from (kept as the
/// parsed URL's serialization) and the token used when pushing.
#[derive(Clone, Debug)]
pub struct Config {
    pub repository: Option<String>,
    pub token: Option<String>,
}

impl Default for Config {
    fn default() -> (r: Config)
        ensures
            r.repository is None,
            r.token is None,
    {
        Config { repository: None, token: None }
    }
}

pub open spec fn repository_key() -> Seq<char> {
    "git.repository"@
}

pub open spec fn token_key() -> Seq<char> {
    "git.token"@
}

/// What a `config <key> <value>` command did to the settings.
#[derive(Debug, PartialEq, Eq, Structural)]
pub enum ConfigChange {
    Updated,
    UnknownKey,
}

/// Stores a repository URL once its parse is known: on success the parsed
/// form replaces the repository and the token is kept; a parse error leaves
/// the settings as they were and is returned as `WrongUrlFormat`.
pub fn set_repository_from_parsed(
    config: &mut Config,
    parsed: Result<(String, String), url::ParseError>,
) -> (r: Result<(), CliError>)
    ensures
        match parsed {
            Ok(p) => r is Ok && opt_str_view(final(config).repository) == Some(p.0@)
                && final(config).token == old(config).token,
            Err(e) => r == Err::<(), CliError>(CliError::WrongUrlFormat(e)) && *final(config)
                == *old(config),
        },
{
    match parsed {
        Ok(p) => {
            config.repository = Some(p.0);
            Ok(())
        },
        Err(e) => Err(CliError::WrongUrlFormat(e)),
    }
}

/// Applies `config <key> <value>` to `config`. `git.repository` takes a URL,
/// stored in its parsed form; `git.token` takes any text; any other key
/// leaves the settings as they were.
pub fn process_config_cmd(config: &mut Config, key: &str, value: &str) -> (r: Result<
    ConfigChange,
    CliError,
>)
    ensures
        key@ == repository_key() ==> match url_parsed(value@) {
            Some(p) => r == Ok::<ConfigChange, CliError>(ConfigChange::Updated)
                && opt_str_view(final(config).repository) == Some(p.0)
                && final(config).token == old(config).token,
            None => r matches Err(CliError::WrongUrlFormat(_)) && *final(config) == *old(config),
        },
        key@ == token_key() ==> r == Ok::<ConfigChange, CliError>(ConfigChange::Updated)
            && opt_str_view(final(config).token) == Some(value@)
            && final(config).repository == old(config).repository,
        key@ != repository_key() && key@ != token_key() ==> r == Ok::<ConfigChange, CliError>(
            ConfigChange::UnknownKey,
        ) && *final(config) == *old(config),
{
    proof {
        reveal_strlit("git.repository");
        reveal_strlit("git.token");
        assert(repository_key().len() != token_key().len());
    }
    let k = key.to_owned();
    if k == "git.repository".to_owned() {
        match set_repository_from_parsed(config, parse_url(value)) {
            Ok(()) => Ok(ConfigChange::Updated),
            Err(e) => Err(e),
        }
    } else if k == "git.token".to_owned() {
        config.token = Some(value.to_owned());
        Ok(ConfigChange::Updated)
    } else {
        Ok(ConfigChange::UnknownKey)
    }
}

/// Checks settings read from the file at `path`: a stored repository must
/// parse as a URL, and is kept in its parsed form; otherwise the file is
/// refused with `Deserialize`, naming the path and the parse failure.
/// Settings without a repository are taken as they are.
pub fn check_loaded_config(config: Config, path: &str) -> (r: Result<Config, CliError>)
    ensures
        config.repository is None ==> r == Ok::<Config, CliError>(config),
        config.repository is Some ==> match url_parsed(config.repository.unwrap()@) {
            Some(p) => r is Ok && opt_str_view(r->Ok_0.repository) == Some(p.0)
                && r->Ok_0.token == config.token,
            None => (r matches Err(CliError::Deserialize(p, _)) && p@ == path@),
        },
{
    let parsed = match &config.repository {
        None => None,
        Some(u) => Some(parse_url(u.as_str())),
    };
    let mut checked = config;
    match parsed {
        None => Ok(checked),
        Some(Ok(p)) => {
            checked.repository = Some(p.0);
            Ok(checked)
        },
        Some(Err(e)) => Err(CliError::Deserialize(path.to_owned(), parse_error_text(e))),
    }
}

} // verus!
