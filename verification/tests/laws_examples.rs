use keentools_cloud::auth::mask_token;
use keentools_cloud::cli::{FocalLengthType, MeshFormat};
use keentools_cloud::download::{join_path, path_within};
use keentools_cloud::pipeline::{run_step, RunAction, RunArgs, RunEvent, RunStage};
use keentools_cloud::request::{parse_result_url, process_request, ProcessArgs};
use keentools_cloud::self_update::{release_tag, trim_tag};
use keentools_cloud::status::{status_step, PollStep, RunningData, StatusResponse};
use keentools_cloud::validate::avatar_id;

fn run_args() -> RunArgs {
    RunArgs {
        photos: vec!["a.jpg".to_string(), "b.jpg".to_string()],
        output_path: "head.glb".to_string(),
        focal_length_type: FocalLengthType::EstimateCommon,
        focal_lengths: None,
        expressions: false,
        format: MeshFormat::Glb,
        blendshapes: None,
        texture: None,
        edges: false,
        dry_run: false,
        poll_interval: 3,
    }
}

fn run_waits(s: StatusResponse) -> bool {
    let stage = RunStage::Poll { avatar_id: "av".to_string() };
    matches!(run_step(&run_args(), stage, RunEvent::Status(s)), Ok((_, RunAction::Sleep { .. })))
}

fn status_waits(s: &StatusResponse) -> bool {
    matches!(status_step(s, true, 3), PollStep::Sleep { .. })
}

#[test]
fn run_and_status_poll_agree() {
    let cases = vec![
        StatusResponse::NotStarted,
        StatusResponse::Running { data: RunningData { progress_bits: 0.25f32.to_bits() } },
        StatusResponse::Completed,
        StatusResponse::Deleted,
        StatusResponse::Failed { data: keentools_cloud::status::FailedData { error_message: "x".to_string() } },
    ];
    for s in cases {
        let expected = status_waits(&s);
        assert_eq!(run_waits(s), expected);
    }
}

#[test]
fn release_tags_normalise_once() {
    for v in ["0.2.0", "v0.2.0", "vv1.0.0", ""] {
        let t = release_tag(v);
        assert_eq!(release_tag(&t), t);
        assert_eq!(trim_tag(&t), trim_tag(v));
    }
}

#[test]
fn relative_entries_stay_in_dir() {
    for (d, n) in [("out", "a/b.obj"), ("out/", "c.png"), ("", "x")] {
        assert!(path_within(&join_path(d, n), d));
    }
    assert_eq!(join_path("out", "/etc/passwd"), "/etc/passwd");
    assert!(!path_within(&join_path("out", "/etc/passwd"), "out"));
}

#[test]
fn result_url_round_trip() {
    let (f, u) = parse_result_url("Obj:https://h/p?x=1:2").ok().unwrap();
    assert_eq!(f, "obj");
    assert_eq!(u, "https://h/p?x=1:2");
}

#[test]
fn accepted_ids_are_single_segments() {
    for id in ["abc", "a.b-c_d", "ÄÖÜ"] {
        assert!(avatar_id(id).is_ok());
        assert!(!id.contains('/') && !id.contains("..") && !id.contains('?'));
    }
}

#[test]
fn pieces_of_accepted_ids_are_accepted() {
    let id = "av-é12.3_x";
    let cs: Vec<char> = id.chars().collect();
    for i in 0..cs.len() {
        for j in (i + 1)..=cs.len() {
            let piece: String = cs[i..j].iter().collect();
            assert!(avatar_id(&piece).is_ok(), "{}", piece);
        }
    }
}

#[test]
fn masks_show_only_length_and_ends() {
    assert_eq!(mask_token("abcdXXXXwxyz"), mask_token("abcdYYYYwxyz"));
    assert_eq!(mask_token("short12"), mask_token("other34"));
    assert_eq!(mask_token("short12").len(), 7);
}

#[test]
fn ascii_masks_have_eleven_chars() {
    assert_eq!(mask_token("abcd1234efghwxyz"), "abcd...wxyz");
    assert_eq!(mask_token("abcd1234efghwxyz").chars().count(), 11);
    assert_eq!(mask_token("abcd1234efghwxyz"), mask_token("abcdZZZZZZZZwxyz"));
    assert_eq!(mask_token("12345678"), "********");
}

#[test]
fn run_starts_processing_as_process_does() {
    let mut args = run_args();
    args.focal_length_type = FocalLengthType::Manual;
    args.focal_lengths = Some(vec![35.0f32.to_bits(), 50.0f32.to_bits()]);
    args.expressions = true;
    let stage = RunStage::Upload {
        avatar_id: "av1".to_string(),
        urls: vec!["https://u.example/1".to_string(), "https://u.example/2".to_string()],
        next: 2,
    };
    let (path, body) = match run_step(&args, stage, RunEvent::Uploaded) {
        Ok((RunStage::Process { .. }, RunAction::StartProcess { path, body })) => (path, body),
        _ => panic!("run did not start processing"),
    };
    let pa = ProcessArgs {
        avatar_id: "av1".to_string(),
        focal_length_type: FocalLengthType::Manual,
        focal_lengths: Some(vec![35.0f32.to_bits(), 50.0f32.to_bits()]),
        expressions: true,
        dry_run: false,
    };
    let (ppath, pbody) = process_request(&pa).ok().unwrap();
    assert_eq!(path, ppath);
    assert_eq!(format!("{:?}", body), format!("{:?}", pbody));
}
