//! `status` and `info`: the avatar endpoints that report on a reconstruction,
//! and when polling stops.
use vstd::prelude::*;

use crate::client::{avatar_path, avatar_path_of};
use crate::request::InputError;
use crate::validate::{avatar_id, avatar_id_check};

verus! {

/// Arguments of `status`.
pub struct StatusArgs {
    /// Avatar ID.
    pub avatar_id: String,
    /// Keep polling until reconstruction completes or fails.
    pub poll: bool,
    /// Seconds between poll requests.
    pub poll_interval: u64,
}

/// Progress of a running reconstruction: a fraction in 0.0–1.0, carried as
/// its IEEE-754 single-precision bit pattern.
pub struct RunningData {
    pub progress_bits: u32,
}

/// Why a reconstruction failed.
pub struct FailedData {
    pub error_message: String,
}

/// The state of a reconstruction.
pub enum StatusResponse {
    NotStarted,
    Running { data: RunningData },
    Completed,
    Failed { data: FailedData },
    Deleted,
}

/// A status after which nothing more will happen: completed, failed or deleted.
pub open spec fn is_final(s: StatusResponse) -> bool {
    s is Completed || s is Failed || s is Deleted
}

/// What `status` does after printing an answer.
#[derive(Debug, PartialEq, Eq, Structural)]
pub enum PollStep {
    /// Stop.
    Stop,
    /// Sleep `secs` seconds and ask again.
    Sleep { secs: u64 },
}

/// Whether a status is final.
pub fn is_final_status(s: &StatusResponse) -> (b: bool)
    ensures
        b == is_final(*s),
{
    match s {
        StatusResponse::Completed => true,
        StatusResponse::Failed { .. } => true,
        StatusResponse::Deleted => true,
        _ => false,
    }
}

/// Without `--poll` one answer is printed; with it, polling goes on until a
/// final status.
pub fn status_step(resp: &StatusResponse, poll: bool, poll_interval: u64) -> (step: PollStep)
    ensures
        step == (if !poll || is_final(*resp) { PollStep::Stop } else { PollStep::Sleep { secs: poll_interval } }),
{
    if !poll || is_final_status(resp) {
        PollStep::Stop
    } else {
        PollStep::Sleep { secs: poll_interval }
    }
}

/// The path that `status` asks, after checking the avatar ID.
pub fn status_path(args: &StatusArgs) -> (r: Result<String, InputError>)
    ensures
        match avatar_id_check(args.avatar_id@) {
            Some(e) => r matches Err(InputError::Invalid(x)) && x == e,
            None => r matches Ok(p) && p@ == avatar_path_of(args.avatar_id@, "get-status"@),
        },
{
    match avatar_id(args.avatar_id.as_str()) {
        Err(e) => Err(InputError::Invalid(e)),
        Ok(()) => Ok(avatar_path(args.avatar_id.as_str(), "get-status")),
    }
}

/// Arguments of `info`.
pub struct InfoArgs {
    /// Avatar ID.
    pub avatar_id: String,
}

/// The path that `info` asks, after checking the avatar ID.
pub fn info_path(args: &InfoArgs) -> (r: Result<String, InputError>)
    ensures
        match avatar_id_check(args.avatar_id@) {
            Some(e) => r matches Err(InputError::Invalid(x)) && x == e,
            None => r matches Ok(p) && p@ == avatar_path_of(args.avatar_id@, "get-info"@),
        },
{
    match avatar_id(args.avatar_id.as_str()) {
        Err(e) => Err(InputError::Invalid(e)),
        Ok(()) => Ok(avatar_path(args.avatar_id.as_str(), "get-info")),
    }
}

} // verus!
