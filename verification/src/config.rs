//! The config file's contents (`~/.config/keentools-cloud/config.toml`).
use vstd::prelude::*;

verus! {

/// The whole config file.
#[derive(Debug, Clone)]
pub struct Config {
    pub auth: AuthConfig,
}

/// The `[auth]` table.
#[derive(Debug, Clone)]
pub struct AuthConfig {
    pub token: Option<String>,
}

impl Config {
    /// A config with no token, as when no file exists yet.
    pub fn empty() -> (c: Config)
        ensures
            c.auth.token is None,
    {
        Config { auth: AuthConfig { token: None } }
    }

    /// The config after `auth login` saved `token`.
    pub fn with_token(self, token: String) -> (c: Config)
        ensures
            c.auth.token == Some(token),
    {
        Config { auth: AuthConfig { token: Some(token) } }
    }

    /// The config after `auth logout` removed the token.
    pub fn without_token(self) -> (c: Config)
        ensures
            c.auth.token is None,
    {
        Config { auth: AuthConfig { token: None } }
    }
}

} // verus!
