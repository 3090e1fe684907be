//! `run`: the whole pipeline (init → upload → process → wait → download) as a
//! state machine. The caller performs each action and reports what came of
//! it; this module decides what happens next.
use vstd::prelude::*;

use crate::cli::{FocalLengthType, MeshFormat};
use crate::client::{avatar_path, avatar_path_of};
use crate::download::{opt_views, DownloadArgs, TextureFormat};
use crate::json::{field, json_view, object, JsonSpec, JsonValue, entries_view};
use crate::request::{build_focal_payload, focal_values, process_body_spec, InitResponse, InputError};
use crate::status::{is_final, StatusResponse};
use crate::upload::{check_photos, first_error, lemma_photos_outcome_exists, photos_outcome, some_outcomes};
use crate::validate::{https_url, https_url_check, photo_count, photo_count_verdict, ValidationError};

verus! {

/// Arguments of `run`. The focal lengths are carried as their IEEE-754
/// single-precision bit patterns.
pub struct RunArgs {
    /// Photo files to reconstruct (2–15).
    pub photos: Vec<String>,
    /// Where to save the resulting model.
    pub output_path: String,
    pub focal_length_type: FocalLengthType,
    pub focal_lengths: Option<Vec<u32>>,
    /// Enable facial expression blendshapes.
    pub expressions: bool,
    pub format: MeshFormat,
    pub blendshapes: Option<Vec<String>>,
    pub texture: Option<TextureFormat>,
    pub edges: bool,
    /// Validate locally without calling the API.
    pub dry_run: bool,
    /// Seconds between status polls.
    pub poll_interval: u64,
}

/// `r` is the verdict of the local checks of `run` when checking the photo
/// paths gave `photos_ok`: the photo count first, then the photos.
pub open spec fn preflight_outcome(r: Result<(), InputError>, args: RunArgs, photos_ok: Result<(), ValidationError>) -> bool {
    if photo_count_verdict(args.photos@.len() as usize) is Some {
        r matches Err(InputError::Invalid(e)) && photo_count_verdict(args.photos@.len() as usize) == Some(e)
    } else if photos_ok is Err {
        r matches Err(InputError::Invalid(e)) && photos_ok == Err::<(), ValidationError>(e)
    } else {
        r is Ok
    }
}

/// The local checks of `run`, from the verdict on the photo paths.
pub fn preflight_verdict(args: &RunArgs, photos_ok: Result<(), ValidationError>) -> (r: Result<(), InputError>)
    ensures
        preflight_outcome(r, *args, photos_ok),
{
    match photo_count(args.photos.len()) {
        Err(e) => {
            return Err(InputError::Invalid(e));
        },
        Ok(()) => {},
    }
    match photos_ok {
        Err(e) => Err(InputError::Invalid(e)),
        Ok(()) => Ok(()),
    }
}

/// The local checks of `run`: the photo count, then each photo path on the
/// file system (only when the count is accepted).
pub fn preflight(args: &RunArgs) -> (r: Result<(), InputError>)
    ensures
        exists|photos_ok: Result<(), ValidationError>| preflight_outcome(r, *args, photos_ok)
            && photos_outcome(args.photos@, photos_ok),
{
    match photo_count(args.photos.len()) {
        Err(e) => {
            let r = Err(InputError::Invalid(e));
            proof {
                lemma_photos_outcome_exists(args.photos@);
                assert(preflight_outcome(r, *args, first_error(some_outcomes(args.photos@))));
            }
            return r;
        },
        Ok(()) => {},
    }
    let photos_ok = check_photos(&args.photos);
    let r = preflight_verdict(args, photos_ok);
    assert(preflight_outcome(r, *args, photos_ok));
    r
}

/// Where the pipeline stands.
pub enum RunStage {
    /// The init request is under way.
    Init,
    /// Photos `0..next` have been sent to their upload URLs.
    Upload { avatar_id: String, urls: Vec<String>, next: usize },
    /// The process request is under way.
    Process { avatar_id: String },
    /// Waiting for the reconstruction to finish.
    Poll { avatar_id: String },
    /// The download is under way.
    Download { avatar_id: String },
    /// Everything is done.
    Done,
}

/// What came of the last action.
pub enum RunEvent {
    /// The init request answered.
    Initialized(InitResponse),
    /// The last photo upload finished.
    Uploaded,
    /// The process request finished.
    Processed,
    /// A status request answered.
    Status(StatusResponse),
    /// The sleep between status requests is over.
    Slept,
    /// The download finished.
    Downloaded,
}

/// What to do next.
pub enum RunAction {
    /// PUT the photo to its pre-signed URL.
    UploadPhoto { photo: String, url: String },
    /// POST the process request.
    StartProcess { path: String, body: JsonValue },
    /// GET the reconstruction status.
    CheckStatus { path: String },
    /// Sleep between status requests.
    Sleep { secs: u64 },
    /// Download the model, polling until it is ready.
    Download(DownloadArgs),
    /// The pipeline is complete.
    Finish,
}

/// Why the pipeline stopped.
pub enum RunError {
    /// A URL or the focal lengths were refused.
    Input(InputError),
    /// The reconstruction failed with this message.
    ReconstructionFailed { message: String },
    /// The avatar was deleted before its reconstruction completed.
    AvatarDeleted,
}

/// The body of the init request of `run`: `{"image_count": <number of photos>}`.
pub open spec fn run_init_body_spec(photos: nat) -> JsonSpec {
    JsonSpec::Object(seq![("image_count"@, JsonSpec::Int(photos as int))])
}

/// Starts the pipeline once the local checks passed: the stage, and the body
/// of the init request.
pub fn begin(args: &RunArgs) -> (r: (RunStage, JsonValue))
    requires
        photo_count_verdict(args.photos@.len() as usize) is None,
    ensures
        r.0 is Init,
        json_view(r.1) == run_init_body_spec(args.photos@.len()),
{
    let n: i64 = args.photos.len() as i64;
    let es = vec![field("image_count", JsonValue::Int(n))];
    assert(entries_view(es@) =~= seq![("image_count"@, JsonSpec::Int(args.photos@.len() as int))]);
    (RunStage::Init, object(es))
}

/// `run` goes on waiting after a status that is not final, as `status --poll` does.
pub open spec fn run_keeps_polling(s: StatusResponse) -> bool {
    !is_final(s)
}

/// An event that can follow the action issued at `stage`.
pub open spec fn event_fits(stage: RunStage, event: RunEvent) -> bool {
    match stage {
        RunStage::Init => event is Initialized,
        RunStage::Upload { .. } => event is Uploaded,
        RunStage::Process { .. } => event is Processed,
        RunStage::Poll { .. } => event is Status || event is Slept,
        RunStage::Download { .. } => event is Downloaded,
        RunStage::Done => false,
    }
}

/// The number of photos uploaded: photos and URLs are paired by position, as
/// far as both go.
pub open spec fn upload_count(args: RunArgs, urls: Seq<String>) -> int {
    if args.photos@.len() < urls.len() { args.photos@.len() as int } else { urls.len() as int }
}

/// `r` is what follows once photos `0..next` of `args` were sent to `urls`:
/// the next photo goes to the URL at its position (after that URL is
/// checked); when all are sent, the process request follows.
pub open spec fn upload_advance(r: Result<(RunStage, RunAction), RunError>, args: RunArgs, avatar_id: Seq<char>, urls: Seq<String>, next: int) -> bool {
    if next < upload_count(args, urls) {
        match https_url_check(urls[next]@) {
            Some(e) => r matches Err(RunError::Input(InputError::Invalid(x))) && x == e,
            None => r matches Ok((RunStage::Upload { avatar_id: a, urls: u, next: n }, RunAction::UploadPhoto { photo, url }))
                && a@ == avatar_id && u@ == urls && n == next + 1
                && photo@ == args.photos@[next]@ && url@ == urls[next]@,
        }
    } else if args.focal_length_type == FocalLengthType::Manual && args.focal_lengths is None {
        r matches Err(RunError::Input(InputError::MissingFocalLengths))
    } else {
        r matches Ok((RunStage::Process { avatar_id: a }, RunAction::StartProcess { path, body }))
            && a@ == avatar_id && path@ == avatar_path_of(avatar_id, "process"@)
            && json_view(body) == process_body_spec(args.focal_length_type, focal_values(args.focal_lengths), args.expressions)
    }
}

fn advance_upload(args: &RunArgs, avatar_id: String, urls: Vec<String>, next: usize) -> (r: Result<(RunStage, RunAction), RunError>)
    requires
        next <= upload_count(*args, urls@),
    ensures
        upload_advance(r, *args, avatar_id@, urls@, next as int),
{
    let n = if args.photos.len() < urls.len() { args.photos.len() } else { urls.len() };
    if next < n {
        match https_url(urls[next].as_str()) {
            Err(e) => {
                return Err(RunError::Input(InputError::Invalid(e)));
            },
            Ok(()) => {},
        }
        let photo = args.photos[next].clone();
        let url = urls[next].clone();
        return Ok((RunStage::Upload { avatar_id, urls, next: next + 1 }, RunAction::UploadPhoto { photo, url }));
    }
    let body = match build_focal_payload(args.focal_length_type, &args.focal_lengths, args.expressions) {
        Ok(b) => b,
        Err(e) => {
            return Err(RunError::Input(e));
        },
    };
    let path = avatar_path(avatar_id.as_str(), "process");
    Ok((RunStage::Process { avatar_id }, RunAction::StartProcess { path, body }))
}

fn clone_strings(v: &Vec<String>) -> (r: Vec<String>)
    ensures
        r@ == v@,
{
    let mut r: Vec<String> = Vec::new();
    let mut i: usize = 0;
    while i < v.len()
        invariant
            i <= v@.len(),
            r@ == v@.subrange(0, i as int),
        decreases v.len() - i,
    {
        r.push(v[i].clone());
        i = i + 1;
        assert(r@ =~= v@.subrange(0, i as int));
    }
    assert(v@.subrange(0, v@.len() as int) =~= v@);
    r
}

/// The download that ends the pipeline: the model of `args`, polling until ready.
pub open spec fn final_download(d: DownloadArgs, args: RunArgs, avatar_id: Seq<char>) -> bool {
    &&& d.avatar_id@ == avatar_id
    &&& d.output_path@ == args.output_path@
    &&& d.format == args.format
    &&& opt_views(d.blendshapes) == opt_views(args.blendshapes)
    &&& d.texture == args.texture
    &&& d.edges == args.edges
    &&& d.poll
}

fn download_args_for(args: &RunArgs, avatar_id: String) -> (d: DownloadArgs)
    ensures
        final_download(d, *args, avatar_id@),
{
    let blendshapes = match &args.blendshapes {
        Some(b) => Some(clone_strings(b)),
        None => None,
    };
    DownloadArgs {
        avatar_id,
        output_path: args.output_path.clone(),
        format: args.format,
        blendshapes,
        texture: args.texture,
        edges: args.edges,
        poll: true,
    }
}

/// Decides the next step of the pipeline after `event`, from `stage`.
///
/// The init answer starts the uploads; each finished upload starts the next
/// one, then the process request; the process request starts polling; a
/// completed status starts the download, a failed one stops the pipeline with
/// its message, any other status is followed by a sleep and a new request.
pub fn run_step(args: &RunArgs, stage: RunStage, event: RunEvent) -> (r: Result<(RunStage, RunAction), RunError>)
    requires
        event_fits(stage, event),
        stage matches RunStage::Upload { urls, next, .. } ==> next <= upload_count(*args, urls@),
    ensures
        match (stage, event) {
            (RunStage::Init, RunEvent::Initialized(resp)) => upload_advance(r, *args, resp.avatar_id@, resp.img_urls@, 0),
            (RunStage::Upload { avatar_id, urls, next }, RunEvent::Uploaded) => upload_advance(r, *args, avatar_id@, urls@, next as int),
            (RunStage::Process { avatar_id }, RunEvent::Processed) => r matches Ok((RunStage::Poll { avatar_id: a }, RunAction::CheckStatus { path }))
                && a@ == avatar_id@ && path@ == avatar_path_of(avatar_id@, "get-status"@),
            (RunStage::Poll { avatar_id }, RunEvent::Status(s)) => if run_keeps_polling(s) {
                r matches Ok((RunStage::Poll { avatar_id: a }, RunAction::Sleep { secs }))
                    && a@ == avatar_id@ && secs == args.poll_interval
            } else {
                match s {
                    StatusResponse::Completed => r matches Ok((RunStage::Download { avatar_id: a }, RunAction::Download(d)))
                        && a@ == avatar_id@ && final_download(d, *args, avatar_id@),
                    StatusResponse::Failed { data } => r matches Err(RunError::ReconstructionFailed { message })
                        && message@ == data.error_message@,
                    StatusResponse::Deleted => r matches Err(RunError::AvatarDeleted),
                    _ => false,
                }
            },
            (RunStage::Poll { avatar_id }, RunEvent::Slept) => r matches Ok((RunStage::Poll { avatar_id: a }, RunAction::CheckStatus { path }))
                && a@ == avatar_id@ && path@ == avatar_path_of(avatar_id@, "get-status"@),
            (RunStage::Download { .. }, RunEvent::Downloaded) => r matches Ok((RunStage::Done, RunAction::Finish)),
            _ => false,
        },
        r matches Ok((_, RunAction::Download(_))) ==> (stage is Poll && event matches RunEvent::Status(StatusResponse::Completed)),
        r matches Ok((RunStage::Upload { urls, next, .. }, _)) ==> next <= upload_count(*args, urls@),
{
    match stage {
        RunStage::Init => match event {
            RunEvent::Initialized(resp) => {
                let InitResponse { avatar_id, img_urls } = resp;
                advance_upload(args, avatar_id, img_urls, 0)
            },
            _ => {
                proof {
                    assert(false);
                }
                Ok((RunStage::Done, RunAction::Finish))
            },
        },
        RunStage::Upload { avatar_id, urls, next } => advance_upload(args, avatar_id, urls, next),
        RunStage::Process { avatar_id } => {
            let path = avatar_path(avatar_id.as_str(), "get-status");
            Ok((RunStage::Poll { avatar_id }, RunAction::CheckStatus { path }))
        },
        RunStage::Poll { avatar_id } => match event {
            RunEvent::Status(s) => match s {
                StatusResponse::Completed => {
                    let d = download_args_for(args, avatar_id.clone());
                    Ok((RunStage::Download { avatar_id }, RunAction::Download(d)))
                },
                StatusResponse::Failed { data } => Err(RunError::ReconstructionFailed { message: data.error_message }),
                StatusResponse::Deleted => Err(RunError::AvatarDeleted),
                _ => Ok((RunStage::Poll { avatar_id }, RunAction::Sleep { secs: args.poll_interval })),
            },
            _ => {
                let path = avatar_path(avatar_id.as_str(), "get-status");
                Ok((RunStage::Poll { avatar_id }, RunAction::CheckStatus { path }))
            },
        },
        RunStage::Download { .. } => Ok((RunStage::Done, RunAction::Finish)),
        RunStage::Done => {
            proof {
                assert(false);
            }
            Ok((RunStage::Done, RunAction::Finish))
        },
    }
}

} // verus!
