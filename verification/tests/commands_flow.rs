use keentools_cloud::auth::AuthError;
use keentools_cloud::cli::{session, Commands, FocalLengthType, MeshFormat, SetupError};
use keentools_cloud::config::Config;
use keentools_cloud::download::TextureFormat;
use keentools_cloud::pipeline::{begin, preflight_verdict, run_step, RunAction, RunArgs, RunError, RunEvent, RunStage};
use keentools_cloud::request::{InitResponse, InputError};
use keentools_cloud::schema::SchemaArgs;
use keentools_cloud::status::{info_path, is_final_status, status_path, status_step, FailedData, InfoArgs, PollStep, RunningData, StatusArgs, StatusResponse};
use keentools_cloud::upload::{check_photos, first_photo_error, upload_pairs, UploadArgs};
use keentools_cloud::validate::ValidationError;
use keentools_cloud::json::JsonValue;

fn run_args() -> RunArgs {
    RunArgs {
        photos: vec!["a.jpg".to_string(), "b.jpg".to_string()],
        output_path: "head.glb".to_string(),
        focal_length_type: FocalLengthType::EstimatePerImage,
        focal_lengths: None,
        expressions: false,
        format: MeshFormat::Glb,
        blendshapes: Some(vec!["arkit".to_string()]),
        texture: Some(TextureFormat::Png),
        edges: true,
        dry_run: false,
        poll_interval: 5,
    }
}

#[test]
fn status_polling_stops_on_final_states() {
    let running = StatusResponse::Running { data: RunningData { progress_bits: 0.5f32.to_bits() } };
    assert_eq!(status_step(&running, false, 5), PollStep::Stop);
    assert_eq!(status_step(&running, true, 5), PollStep::Sleep { secs: 5 });
    assert_eq!(status_step(&StatusResponse::NotStarted, true, 9), PollStep::Sleep { secs: 9 });
    assert_eq!(status_step(&StatusResponse::Completed, true, 5), PollStep::Stop);
    assert_eq!(status_step(&StatusResponse::Deleted, true, 5), PollStep::Stop);
    let failed = StatusResponse::Failed { data: FailedData { error_message: "bad".to_string() } };
    assert_eq!(status_step(&failed, true, 5), PollStep::Stop);
    assert!(is_final_status(&failed));
    assert!(!is_final_status(&StatusResponse::NotStarted));
}

#[test]
fn status_and_info_paths() {
    let a = StatusArgs { avatar_id: "av1".to_string(), poll: false, poll_interval: 5 };
    assert_eq!(status_path(&a).ok().unwrap(), "/v1/avatar/av1/get-status");
    let a = InfoArgs { avatar_id: "av1".to_string() };
    assert_eq!(info_path(&a).ok().unwrap(), "/v1/avatar/av1/get-info");
    let a = InfoArgs { avatar_id: "".to_string() };
    assert!(matches!(info_path(&a), Err(InputError::Invalid(ValidationError::EmptyId))));
}

#[test]
fn upload_pairs_by_position() {
    let a = UploadArgs {
        avatar_id: "av1".to_string(),
        urls: Some(vec!["https://s3/1".to_string(), "https://s3/2".to_string()]),
        photos: vec!["a.jpg".to_string(), "b.jpg".to_string()],
    };
    let pairs = upload_pairs(&a, Ok(())).ok().unwrap();
    assert_eq!(pairs, vec![("a.jpg".to_string(), "https://s3/1".to_string()), ("b.jpg".to_string(), "https://s3/2".to_string())]);
}

#[test]
fn upload_refusals_in_order() {
    let mut a = UploadArgs { avatar_id: "av/1".to_string(), urls: None, photos: vec!["a.jpg".to_string()] };
    assert!(matches!(upload_pairs(&a, Err(ValidationError::NotAFile)), Err(InputError::Invalid(ValidationError::ForbiddenChar { ch: '/' }))));
    a.avatar_id = "av1".to_string();
    assert!(matches!(upload_pairs(&a, Err(ValidationError::NotAFile)), Err(InputError::Invalid(ValidationError::NotAFile))));
    assert!(matches!(upload_pairs(&a, Ok(())), Err(InputError::MissingUploadUrls)));
    a.urls = Some(vec!["https://s3/1".to_string(), "https://s3/2".to_string()]);
    assert!(matches!(upload_pairs(&a, Ok(())), Err(InputError::UrlCountMismatch { urls: 2, photos: 1 })));
    a.urls = Some(vec!["http://s3/1".to_string()]);
    assert!(matches!(upload_pairs(&a, Ok(())), Err(InputError::Invalid(ValidationError::NotHttps))));
}

#[test]
fn pipeline_preflight() {
    let a = run_args();
    assert!(preflight_verdict(&a, Ok(())).is_ok());
    assert!(matches!(preflight_verdict(&a, Err(ValidationError::NotAFile)), Err(InputError::Invalid(ValidationError::NotAFile))));
    let mut one = run_args();
    one.photos.truncate(1);
    assert!(matches!(preflight_verdict(&one, Ok(())), Err(InputError::Invalid(ValidationError::PhotoCount { count: 1 }))));
}

#[test]
fn pipeline_runs_in_order() {
    let a = run_args();
    let (stage, body) = begin(&a);
    assert!(matches!(body.get("image_count"), Some(JsonValue::Int(2))));
    let init = InitResponse { avatar_id: "av9".to_string(), img_urls: vec!["https://s3/1".to_string(), "https://s3/2".to_string()] };
    let (stage, action) = run_step(&a, stage, RunEvent::Initialized(init)).ok().unwrap();
    assert!(matches!(action, RunAction::UploadPhoto { ref photo, ref url } if photo == "a.jpg" && url == "https://s3/1"));
    let (stage, action) = run_step(&a, stage, RunEvent::Uploaded).ok().unwrap();
    assert!(matches!(action, RunAction::UploadPhoto { ref photo, ref url } if photo == "b.jpg" && url == "https://s3/2"));
    let (stage, action) = run_step(&a, stage, RunEvent::Uploaded).ok().unwrap();
    match &action {
        RunAction::StartProcess { path, body } => {
            assert_eq!(path, "/v1/avatar/av9/process");
            assert!(body.get("focal_length_type").is_some());
        }
        _ => panic!("expected process"),
    }
    let (stage, action) = run_step(&a, stage, RunEvent::Processed).ok().unwrap();
    assert!(matches!(action, RunAction::CheckStatus { ref path } if path == "/v1/avatar/av9/get-status"));
    let (stage, action) = run_step(&a, stage, RunEvent::Status(StatusResponse::NotStarted)).ok().unwrap();
    assert!(matches!(action, RunAction::Sleep { secs: 5 }));
    let (stage, action) = run_step(&a, stage, RunEvent::Slept).ok().unwrap();
    assert!(matches!(action, RunAction::CheckStatus { .. }));
    let (stage, action) = run_step(&a, stage, RunEvent::Status(StatusResponse::Completed)).ok().unwrap();
    match &action {
        RunAction::Download(d) => {
            assert_eq!(d.avatar_id, "av9");
            assert_eq!(d.output_path, "head.glb");
            assert!(d.poll);
            assert_eq!(d.blendshapes, Some(vec!["arkit".to_string()]));
            assert!(d.edges);
        }
        _ => panic!("expected download"),
    }
    let (stage, action) = run_step(&a, stage, RunEvent::Downloaded).ok().unwrap();
    assert!(matches!(stage, RunStage::Done));
    assert!(matches!(action, RunAction::Finish));
}

#[test]
fn pipeline_stops_on_failure() {
    let a = run_args();
    let stage = RunStage::Poll { avatar_id: "av9".to_string() };
    let failed = StatusResponse::Failed { data: FailedData { error_message: "no face".to_string() } };
    assert!(matches!(run_step(&a, stage, RunEvent::Status(failed)), Err(RunError::ReconstructionFailed { ref message }) if message == "no face"));
}

#[test]
fn pipeline_checks_upload_urls() {
    let a = run_args();
    let init = InitResponse { avatar_id: "av9".to_string(), img_urls: vec!["http://s3/1".to_string()] };
    assert!(matches!(run_step(&a, RunStage::Init, RunEvent::Initialized(init)), Err(RunError::Input(InputError::Invalid(ValidationError::NotHttps)))));
}

#[test]
fn pipeline_manual_needs_focal_lengths_after_upload() {
    let mut a = run_args();
    a.focal_length_type = FocalLengthType::Manual;
    let init = InitResponse { avatar_id: "av9".to_string(), img_urls: vec![] };
    assert!(matches!(run_step(&a, RunStage::Init, RunEvent::Initialized(init)), Err(RunError::Input(InputError::MissingFocalLengths))));
}

#[test]
fn session_setup() {
    let cfg = Config::empty().with_token("tok".to_string());
    let s = session(None, Some(&cfg), Some("https://api".to_string())).ok().unwrap();
    assert_eq!(s.token, "tok");
    assert_eq!(s.base_url, "https://api");
    assert!(matches!(session(None, Some(&cfg), None), Err(SetupError::MissingApiUrl)));
    assert!(matches!(session(None, None, Some("https://api".to_string())), Err(SetupError::Auth(AuthError::NoToken))));
}

#[test]
fn commands_that_need_the_api() {
    assert!(!Commands::Schema(SchemaArgs { command: None }).needs_api());
    assert!(Commands::Info(InfoArgs { avatar_id: "a".to_string() }).needs_api());
    assert_eq!(FocalLengthType::Manual.as_api_str(), "manual");
    assert_eq!(FocalLengthType::EstimateCommon.as_api_str(), "estimate_common");
    assert_eq!(FocalLengthType::EstimatePerImage.as_api_str(), "estimate_per_image");
    assert_eq!(MeshFormat::Obj.as_api_str(), "obj");
    assert_eq!(TextureFormat::Jpg.as_api_str(), "jpg");
}

#[test]
fn pipeline_stops_on_deleted_avatar() {
    let a = run_args();
    let stage = RunStage::Poll { avatar_id: "av9".to_string() };
    assert!(matches!(run_step(&a, stage, RunEvent::Status(StatusResponse::Deleted)), Err(RunError::AvatarDeleted)));
}

#[test]
fn first_photo_error_picks_the_first() {
    assert_eq!(first_photo_error(vec![]), Ok(()));
    assert_eq!(first_photo_error(vec![Ok(()), Ok(())]), Ok(()));
    assert_eq!(
        first_photo_error(vec![Ok(()), Err(ValidationError::NotAFile), Err(ValidationError::ParentComponent)]),
        Err(ValidationError::NotAFile)
    );
    assert_eq!(check_photos(&vec![]), Ok(()));
    assert_eq!(check_photos(&vec!["/".to_string()]), Err(ValidationError::NotAFile));
    assert_eq!(check_photos(&vec!["a/../b.jpg".to_string(), "/".to_string()]), Err(ValidationError::ParentComponent));
}
