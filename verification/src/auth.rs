//! API-token resolution, token masking and the token report of `auth status`.
use vstd::prelude::*;
use vstd::string::*;
use vstd::utf8::*;

use crate::config::Config;
use crate::json::{entries_view, field, json_view, object, text, text_owned, JsonSpec, JsonValue};
use crate::text::concat;

verus! {

broadcast use vstd::utf8::group_utf8_lib;

/// Arguments of `auth`.
pub struct AuthArgs {
    pub command: AuthCommand,
}

/// The `auth` subcommands.
pub enum AuthCommand {
    /// Save an API token to the config file; without one, the
    /// `KEENTOOLS_API_TOKEN` environment variable is saved.
    Login { token: Option<String> },
    /// Remove the stored API token.
    Logout,
    /// Show the current token source and the masked token.
    Status,
}

/// Why no token could be had.
#[derive(Debug, Clone, PartialEq, Eq)]
pub enum AuthError {
    /// Neither the flag (or its environment variable) nor the config file gave a
    /// non-empty token.
    NoToken,
    /// `auth login` was given no token and the environment variable is unset.
    NoTokenGiven,
}

/// The token chosen: a non-empty flag value first, then a non-empty token of
/// the config file (when it could be read), else none.
pub open spec fn resolved_token(flag: Option<Seq<char>>, config_token: Option<Seq<char>>) -> Option<Seq<char>> {
    if flag matches Some(t) && t.len() > 0 {
        flag
    } else if config_token matches Some(t) && t.len() > 0 {
        config_token
    } else {
        None
    }
}

/// The token of a config file that could be read, by its view.
pub open spec fn config_token_of(config: Option<&Config>) -> Option<Seq<char>> {
    match config {
        Some(c) => match c.auth.token {
            Some(t) => Some(t@),
            None => None,
        },
        None => None,
    }
}

/// Resolves the API token. `token_flag` is the value of `--token` (or of
/// `KEENTOOLS_API_TOKEN`); `config` is the loaded config file, `None` when it
/// could not be read.
pub fn resolve_token(token_flag: Option<&str>, config: Option<&Config>) -> (r: Result<String, AuthError>)
    ensures
        match resolved_token(
            match token_flag {
                Some(t) => Some(t@),
                None => None,
            },
            config_token_of(config),
        ) {
            Some(t) => r matches Ok(s) && s@ == t,
            None => r == Err::<String, AuthError>(AuthError::NoToken),
        },
{
    if let Some(t) = token_flag {
        if !t.is_empty() {
            return Ok(String::from_str(t));
        }
    }
    if let Some(cfg) = config {
        if let Some(t) = &cfg.auth.token {
            if !t.as_str().is_empty() {
                return Ok(t.clone());
            }
        }
    }
    Err(AuthError::NoToken)
}

/// The token that `auth login` saves: the argument, else the environment variable.
pub fn login_token(arg: Option<String>, env_token: Option<String>) -> (r: Result<String, AuthError>)
    ensures
        match arg {
            Some(t) => r == Ok::<String, AuthError>(t),
            None => match env_token {
                Some(t) => r == Ok::<String, AuthError>(t),
                None => r == Err::<String, AuthError>(AuthError::NoTokenGiven),
            },
        },
{
    match arg {
        Some(t) => Ok(t),
        None => match env_token {
            Some(t) => Ok(t),
            None => Err(AuthError::NoTokenGiven),
        },
    }
}

/// A token can be masked without splitting a character: short tokens always
/// can; longer ones when byte 4 and the fourth byte from the end start characters.
pub open spec fn maskable(token: Seq<char>) -> bool {
    let b = encode_utf8(token);
    b.len() > 8 ==> is_char_boundary(b, 4) && is_char_boundary(b, b.len() - 4)
}

/// The masked form of a token: one `*` per byte when it has at most 8 bytes,
/// else its first 4 bytes, `...`, and its last 4 bytes.
pub open spec fn masked(token: Seq<char>) -> Seq<char> {
    let b = encode_utf8(token);
    if b.len() <= 8 {
        Seq::new(b.len(), |_i: int| '*')
    } else {
        decode_utf8(b.subrange(0, 4)) + "..."@ + decode_utf8(b.subrange(b.len() - 4, b.len() as int))
    }
}

/// Whether a token can be masked without splitting a character.
pub fn is_maskable(token: &str) -> (b: bool)
    ensures
        b == maskable(token@),
{
    let n = token.as_bytes().len();
    n <= 8 || (token.is_char_boundary(4) && token.is_char_boundary(n - 4))
}

/// `n` stars.
fn stars(n: usize) -> (s: String)
    ensures
        s@ == Seq::new(n as nat, |_i: int| '*'),
{
    let mut s = String::new();
    let mut i: usize = 0;
    while i < n
        invariant
            i <= n,
            s@ == Seq::new(i as nat, |_i: int| '*'),
        decreases n - i,
    {
        crate::text::push_char(&mut s, '*');
        i = i + 1;
        assert(s@ =~= Seq::new(i as nat, |_i: int| '*'));
    }
    s
}

/// Masks a token for display.
pub fn mask_token(token: &str) -> (r: String)
    requires
        maskable(token@),
    ensures
        r@ == masked(token@),
{
    let bytes = token.as_bytes();
    let n = bytes.len();
    if n <= 8 {
        return stars(n);
    }
    let (head, _) = token.split_at(4);
    let (_, tail) = token.split_at(n - 4);
    proof {
        encode_utf8_decode_utf8(head@);
        encode_utf8_decode_utf8(tail@);
        reveal_strlit("...");
    }
    let mut s = concat(head, "...");
    s.append(tail);
    s
}

/// Where the reported token came from.
#[derive(Debug, Clone, Copy, PartialEq, Eq)]
pub enum TokenSource {
    /// `KEENTOOLS_API_TOKEN` is set.
    EnvVar,
    /// The config file holds a token.
    ConfigFile,
    /// No token is configured.
    Unset,
}

impl TokenSource {
    /// The label that `auth status` prints for the source in human output.
    pub fn label(&self) -> (s: &'static str)
        ensures
            s@ == match self {
                TokenSource::EnvVar => "KEENTOOLS_API_TOKEN (env var)"@,
                TokenSource::ConfigFile => "config file"@,
                TokenSource::Unset => "none"@,
            },
    {
        match self {
            TokenSource::EnvVar => "KEENTOOLS_API_TOKEN (env var)",
            TokenSource::ConfigFile => "config file",
            TokenSource::Unset => "none",
        }
    }

    /// The name of the source in the JSON output of `auth status`:
    /// `env_var`, `config_file` or `none`.
    pub fn json_name(&self) -> (s: &'static str)
        ensures
            s@ == source_name(*self),
    {
        match self {
            TokenSource::EnvVar => "env_var",
            TokenSource::ConfigFile => "config_file",
            TokenSource::Unset => "none",
        }
    }
}

/// The name of a token source in JSON output.
pub open spec fn source_name(s: TokenSource) -> Seq<char> {
    match s {
        TokenSource::EnvVar => "env_var"@,
        TokenSource::ConfigFile => "config_file"@,
        TokenSource::Unset => "none"@,
    }
}

/// The JSON document of `auth status`: `status` (`authenticated` when a
/// token is configured, else `not_configured`), `source` and
/// `token_preview` (the masked token), and nothing more.
pub open spec fn status_document_spec(source: TokenSource, masked: Seq<char>) -> JsonSpec {
    JsonSpec::Object(seq![
        ("status"@, JsonSpec::Str(if source == TokenSource::Unset { "not_configured"@ } else { "authenticated"@ })),
        ("source"@, JsonSpec::Str(source_name(source))),
        ("token_preview"@, JsonSpec::Str(masked)),
    ])
}

/// Builds the JSON document of `auth status`.
pub fn status_document(status: TokenStatus) -> (d: JsonValue)
    ensures
        json_view(d) == status_document_spec(status.source, status.masked@),
{
    let ghost src = status.source;
    let ghost m = status.masked@;
    let word = match status.source {
        TokenSource::Unset => "not_configured",
        _ => "authenticated",
    };
    assert(word@ == (if status.source == TokenSource::Unset { "not_configured"@ } else { "authenticated"@ }));
    let es = vec![
        field("status", text(word)),
        field("source", text(status.source.json_name())),
        field("token_preview", text_owned(status.masked)),
    ];
    assert(entries_view(es@) =~= seq![
        ("status"@, JsonSpec::Str(word@)),
        ("source"@, JsonSpec::Str(source_name(status.source))),
        ("token_preview"@, JsonSpec::Str(status.masked@)),
    ]);
    assert(entries_view(es@) =~= status_document_spec(src, m)->Object_0);
    let d = object(es);
    d
}

/// What `auth status` reports.
pub struct TokenStatus {
    pub source: TokenSource,
    /// The masked token, or `not configured`.
    pub masked: String,
}

/// The report of `auth status`: the environment variable wins over the config
/// file; the token shown is masked.
pub fn token_status(env_token: Option<&str>, config: &Config) -> (r: TokenStatus)
    requires
        env_token matches Some(t) ==> maskable(t@),
        env_token is None && config.auth.token is Some ==> maskable(config.auth.token->0@),
    ensures
        match env_token {
            Some(t) => r.source == TokenSource::EnvVar && r.masked@ == masked(t@),
            None => match &config.auth.token {
                Some(t) => r.source == TokenSource::ConfigFile && r.masked@ == masked(t@),
                None => r.source == TokenSource::Unset && r.masked@ == "not configured"@,
            },
        },
{
    match env_token {
        Some(t) => TokenStatus { source: TokenSource::EnvVar, masked: mask_token(t) },
        None => match &config.auth.token {
            Some(t) => TokenStatus { source: TokenSource::ConfigFile, masked: mask_token(t.as_str()) },
            None => {
                let s = String::from_str("not configured");
                TokenStatus { source: TokenSource::Unset, masked: s }
            },
        },
    }
}

} // verus!
