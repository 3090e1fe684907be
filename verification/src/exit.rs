//! The program's exit status: 0 on success, 1 for an API or runtime error, 2
//! for an input validation error, 3 for an authentication error.
use vstd::prelude::*;

use crate::auth::AuthError;
use crate::cli::SetupError;
use crate::client::ApiError;
use crate::download::DownloadError;
use crate::pipeline::RunError;
use crate::request::InputError;
use crate::self_update::UpdateError;

verus! {

/// What kind of failure ended the program, as its exit status tells it.
#[derive(Debug, Clone, Copy, PartialEq, Eq)]
pub enum FailureKind {
    /// The API refused a request, or the network, a file or an archive failed.
    Runtime,
    /// An argument or an input file was refused before anything was sent.
    Validation,
    /// No token was found, or the API refused the token.
    Authentication,
}

/// The exit status for each kind of failure.
pub open spec fn exit_code_of(k: FailureKind) -> i32 {
    match k {
        FailureKind::Runtime => 1,
        FailureKind::Validation => 2,
        FailureKind::Authentication => 3,
    }
}

/// How the introspection schema describes each kind of failure.
pub open spec fn kind_description(k: FailureKind) -> Seq<char> {
    match k {
        FailureKind::Runtime => "API or runtime error"@,
        FailureKind::Validation => "input validation error"@,
        FailureKind::Authentication => "authentication error"@,
    }
}

/// The exit status for a kind of failure.
pub fn exit_code(k: FailureKind) -> (c: i32)
    ensures
        c == exit_code_of(k),
{
    match k {
        FailureKind::Runtime => 1,
        FailureKind::Validation => 2,
        FailureKind::Authentication => 3,
    }
}

/// Every refused command argument is a validation error.
pub fn input_kind(_e: &InputError) -> (k: FailureKind)
    ensures
        k == FailureKind::Validation,
{
    FailureKind::Validation
}

/// A missing token is an authentication error.
pub fn auth_kind(_e: &AuthError) -> (k: FailureKind)
    ensures
        k == FailureKind::Authentication,
{
    FailureKind::Authentication
}

/// The kind of a setup failure: a missing token is an authentication error,
/// a missing API URL a validation error.
pub open spec fn setup_kind_of(e: SetupError) -> FailureKind {
    match e {
        SetupError::Auth(_) => FailureKind::Authentication,
        SetupError::MissingApiUrl => FailureKind::Validation,
    }
}

/// The kind of a setup failure.
pub fn setup_kind(e: &SetupError) -> (k: FailureKind)
    ensures
        k == setup_kind_of(*e),
{
    match e {
        SetupError::Auth(_) => FailureKind::Authentication,
        SetupError::MissingApiUrl => FailureKind::Validation,
    }
}

/// The kind of an API error: a refused token (401 or 403) is an
/// authentication error, any other refusal a runtime error.
pub open spec fn api_kind_of(e: ApiError) -> FailureKind {
    if e is Auth {
        FailureKind::Authentication
    } else {
        FailureKind::Runtime
    }
}

/// The kind of an API error.
pub fn api_kind(e: &ApiError) -> (k: FailureKind)
    ensures
        k == api_kind_of(*e),
{
    match e {
        ApiError::Auth { .. } => FailureKind::Authentication,
        _ => FailureKind::Runtime,
    }
}

/// The kind of a download failure: a refused avatar ID is a validation
/// error; content that cannot be unpacked is a runtime error.
pub open spec fn download_kind_of(e: DownloadError) -> FailureKind {
    if e is Invalid {
        FailureKind::Validation
    } else {
        FailureKind::Runtime
    }
}

/// The kind of a download failure.
pub fn download_kind(e: &DownloadError) -> (k: FailureKind)
    ensures
        k == download_kind_of(*e),
{
    match e {
        DownloadError::Invalid(_) => FailureKind::Validation,
        _ => FailureKind::Runtime,
    }
}

/// The kind of a pipeline failure: a refused argument is a validation error;
/// a failed or deleted reconstruction is a runtime error.
pub open spec fn run_kind_of(e: RunError) -> FailureKind {
    if e is Input {
        FailureKind::Validation
    } else {
        FailureKind::Runtime
    }
}

/// The kind of a pipeline failure.
pub fn run_kind(e: &RunError) -> (k: FailureKind)
    ensures
        k == run_kind_of(*e),
{
    match e {
        RunError::Input(_) => FailureKind::Validation,
        _ => FailureKind::Runtime,
    }
}

/// A failed self-update is a runtime error.
pub fn update_kind(_e: &UpdateError) -> (k: FailureKind)
    ensures
        k == FailureKind::Runtime,
{
    FailureKind::Runtime
}

} // verus!
