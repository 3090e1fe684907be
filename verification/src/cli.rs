//! The command line: global options, the subcommands and the value enums they share.
use vstd::prelude::*;

use crate::auth::{resolve_token, resolved_token, config_token_of, AuthArgs, AuthError};
use crate::config::Config;
use crate::download::DownloadArgs;
use crate::output::OutputFormat;
use crate::pipeline::RunArgs;
use crate::request::{EphemeralArgs, InitArgs, ProcessArgs};
use crate::schema::SchemaArgs;
use crate::self_update::SelfUpdateArgs;
use crate::status::{InfoArgs, StatusArgs};
use crate::upload::UploadArgs;

verus! {

/// Focal length handling mode.
#[derive(Clone, Copy, Debug, PartialEq, Eq, Structural)]
pub enum FocalLengthType {
    /// Estimate one shared focal length for all photos (all must have the same resolution).
    EstimateCommon,
    /// Estimate an individual focal length per photo.
    EstimatePerImage,
    /// Explicit focal lengths (requires `--focal-lengths`).
    Manual,
}

/// The API spelling of a focal length mode.
pub open spec fn focal_api_str(t: FocalLengthType) -> Seq<char> {
    match t {
        FocalLengthType::EstimateCommon => "estimate_common"@,
        FocalLengthType::EstimatePerImage => "estimate_per_image"@,
        FocalLengthType::Manual => "manual"@,
    }
}

impl FocalLengthType {
    /// The API spelling: `estimate_common`, `estimate_per_image` or `manual`.
    pub fn as_api_str(&self) -> (s: &'static str)
        ensures
            s@ == focal_api_str(*self),
    {
        match self {
            FocalLengthType::EstimateCommon => "estimate_common",
            FocalLengthType::EstimatePerImage => "estimate_per_image",
            FocalLengthType::Manual => "manual",
        }
    }
}

/// Mesh output format.
#[derive(Clone, Copy, Debug, PartialEq, Eq, Structural)]
pub enum MeshFormat {
    /// glTF binary: a single file with embedded textures. Recommended.
    Glb,
    /// Wavefront OBJ: always delivered as a ZIP archive.
    Obj,
}

/// The API spelling of a mesh format.
pub open spec fn mesh_api_str(f: MeshFormat) -> Seq<char> {
    match f {
        MeshFormat::Glb => "glb"@,
        MeshFormat::Obj => "obj"@,
    }
}

impl MeshFormat {
    /// The API spelling: `glb` or `obj`.
    pub fn as_api_str(&self) -> (s: &'static str)
        ensures
            s@ == mesh_api_str(*self),
    {
        match self {
            MeshFormat::Glb => "glb",
            MeshFormat::Obj => "obj",
        }
    }
}

/// Blendshape groups (GLB only).
#[derive(Clone, Copy, Debug, PartialEq, Eq, Structural)]
pub enum Blendshape {
    /// The 51 ARKit-compatible morph targets.
    Arkit,
    /// Numbered expression morphs (requires `--expressions` during `process`).
    Expression,
    /// Nose shape controls.
    Nose,
}


/// The command line: global options and the subcommand.
pub struct Cli {
    /// API authentication token (`--token`, or `KEENTOOLS_API_TOKEN`).
    pub token: Option<String>,
    /// Output format.
    pub output: Option<OutputFormat>,
    /// API base URL (`--api-url`, or `KEENTOOLS_API_URL`).
    pub api_url: Option<String>,
    pub command: Commands,
}

/// The subcommands.
pub enum Commands {
    /// Initialize a new avatar reconstruction session.
    Init(InitArgs),
    /// Upload photos to the pre-signed URLs obtained from `init`.
    Upload(UploadArgs),
    /// Start reconstruction after all photos are uploaded.
    Process(ProcessArgs),
    /// Check reconstruction status.
    Status(StatusArgs),
    /// Download the completed 3D model.
    Download(DownloadArgs),
    /// Get reconstruction metadata.
    Info(InfoArgs),
    /// Run the full pipeline: init → upload → process → wait → download.
    Run(RunArgs),
    /// Ephemeral pipeline: zero data retention, results sent to your URLs.
    Ephemeral(EphemeralArgs),
    /// Dump the CLI schema as JSON.
    Schema(SchemaArgs),
    /// Manage the authentication token.
    Auth(AuthArgs),
    /// Update the program to the latest (or a given) release.
    SelfUpdate(SelfUpdateArgs),
}

/// The commands that talk to the reconstruction API, and so need a token
/// and a base URL: all but `schema`, `auth` and `self-update`.
pub open spec fn needs_api(c: Commands) -> bool {
    !(c is Schema || c is Auth || c is SelfUpdate)
}

impl Commands {
    /// Whether the command needs an API token and base URL.
    pub fn needs_api(&self) -> (b: bool)
        ensures
            b == needs_api(*self),
    {
        match self {
            Commands::Schema(_) => false,
            Commands::Auth(_) => false,
            Commands::SelfUpdate(_) => false,
            _ => true,
        }
    }
}

/// What an API command runs with.
pub struct Session {
    pub token: String,
    pub base_url: String,
}

/// Why an API command could not start.
#[derive(Debug)]
pub enum SetupError {
    /// No token was found.
    Auth(AuthError),
    /// No API base URL was given.
    MissingApiUrl,
}

/// Sets up an API command: the token is resolved first (the flag, then the
/// config file), then the base URL is required.
pub fn session(token_flag: Option<&str>, config: Option<&Config>, api_url: Option<String>) -> (r: Result<Session, SetupError>)
    ensures
        match resolved_token(
            match token_flag {
                Some(t) => Some(t@),
                None => None,
            },
            config_token_of(config),
        ) {
            None => r matches Err(SetupError::Auth(AuthError::NoToken)),
            Some(t) => match api_url {
                None => r matches Err(SetupError::MissingApiUrl),
                Some(u) => r matches Ok(s) && s.token@ == t && s.base_url == u,
            },
        },
{
    let token = match resolve_token(token_flag, config) {
        Ok(t) => t,
        Err(e) => {
            return Err(SetupError::Auth(e));
        },
    };
    match api_url {
        None => Err(SetupError::MissingApiUrl),
        Some(base_url) => Ok(Session { token, base_url }),
    }
}

} // verus!
