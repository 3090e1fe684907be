use std::io::Write;

use keentools_cloud::cli::MeshFormat;
use keentools_cloud::download::{
    archive_result, classify_download, detect_file_type, extraction_dir, join_path, model_path, model_step, path_within, planned_paths, primary_file,
    single_file_result, unwrap_gzip, zip_extraction_plan, DetectedFileType, DownloadArgs, DownloadError, ModelResponse, ModelStep,
    TextureFormat,
};
use keentools_cloud::validate::ValidationError;

fn args(blendshapes: Option<Vec<String>>, texture: Option<TextureFormat>, edges: bool) -> DownloadArgs {
    DownloadArgs {
        avatar_id: "av1".to_string(),
        output_path: "out/head.glb".to_string(),
        format: MeshFormat::Glb,
        blendshapes,
        texture,
        edges,
        poll: false,
    }
}

fn gzip(data: &[u8]) -> Vec<u8> {
    let mut e = flate2::write::GzEncoder::new(Vec::new(), flate2::Compression::default());
    e.write_all(data).unwrap();
    e.finish().unwrap()
}

fn zip_of(entries: &[(&str, &[u8])]) -> Vec<u8> {
    let mut w = zip::ZipWriter::new(std::io::Cursor::new(Vec::new()));
    let opts = zip::write::SimpleFileOptions::default().compression_method(zip::CompressionMethod::Stored);
    for (name, data) in entries {
        w.start_file(*name, opts).unwrap();
        w.write_all(data).unwrap();
    }
    w.finish().unwrap().into_inner()
}

#[test]
fn model_path_minimal() {
    let p = model_path(&args(None, None, false)).ok().unwrap();
    assert_eq!(p, "/v1/avatar/av1/get-3d-model?mesh_format=glb&mesh_lod=high_poly");
}

#[test]
fn model_path_full() {
    let a = args(Some(vec!["arkit".to_string(), "nose".to_string()]), Some(TextureFormat::Png), true);
    let p = model_path(&a).ok().unwrap();
    assert_eq!(p, "/v1/avatar/av1/get-3d-model?mesh_format=glb&mesh_lod=high_poly&blendshapes=arkit,nose&texture=png&edges=true");
}

#[test]
fn model_path_obj_empty_blendshapes() {
    let mut a = args(Some(vec![]), Some(TextureFormat::Jpg), false);
    a.format = MeshFormat::Obj;
    let p = model_path(&a).ok().unwrap();
    assert_eq!(p, "/v1/avatar/av1/get-3d-model?mesh_format=obj&mesh_lod=high_poly&texture=jpg");
}

#[test]
fn model_path_checks_avatar_id() {
    let mut a = args(None, None, false);
    a.avatar_id = "../x".to_string();
    assert!(matches!(model_path(&a), Err(DownloadError::Invalid(ValidationError::ForbiddenChar { ch: '/' }))));
}

#[test]
fn retry_protocol() {
    assert!(matches!(model_step(ModelResponse::Redirect { url: "https://dl".to_string() }, false), Ok(ModelStep::Fetch { url }) if url == "https://dl"));
    assert!(matches!(model_step(ModelResponse::RetryAfter { time_sec: 7 }, true), Ok(ModelStep::Wait { secs: 7 })));
    assert!(matches!(model_step(ModelResponse::RetryAfter { time_sec: 7 }, false), Err(DownloadError::StillGenerating { retry_in: 7 })));
}

#[test]
fn magic_bytes() {
    assert_eq!(detect_file_type(b""), DetectedFileType::Unknown);
    assert_eq!(detect_file_type(b"v"), DetectedFileType::Unknown);
    assert_eq!(detect_file_type(&[0x1f, 0x8b]), DetectedFileType::Gzip);
    assert_eq!(detect_file_type(b"v 1"), DetectedFileType::Obj);
    assert_eq!(detect_file_type(&[0x80, 0x81, 0x82]), DetectedFileType::Unknown);
    assert_eq!(detect_file_type(b"PK\x03\x04rest"), DetectedFileType::Zip);
    assert_eq!(detect_file_type(b"PK\x05\x06"), DetectedFileType::Zip);
    assert_eq!(detect_file_type(b"glTF\x02\x00"), DetectedFileType::Glb);
    assert_eq!(detect_file_type(b"# obj file"), DetectedFileType::Obj);
    assert_eq!(detect_file_type(&[b'v', b' ', 0xff, b'1']), DetectedFileType::Unknown);
}

#[test]
fn gzip_layers_are_removed() {
    let obj = b"v 1 2 3\n".to_vec();
    assert_eq!(unwrap_gzip(obj.clone()).ok().unwrap(), obj);
    assert_eq!(unwrap_gzip(gzip(&obj)).ok().unwrap(), obj);
    assert_eq!(unwrap_gzip(gzip(&gzip(&obj))).ok().unwrap(), obj);
    let (t, d) = classify_download(gzip(&gzip(&obj))).ok().unwrap();
    assert_eq!(t, DetectedFileType::Obj);
    assert_eq!(d, obj);
}

#[test]
fn triple_gzip_is_refused() {
    let obj = b"v 1 2 3\n";
    assert!(matches!(classify_download(gzip(&gzip(&gzip(obj)))), Err(DownloadError::StillCompressed)));
}

#[test]
fn corrupt_gzip_is_refused() {
    assert!(matches!(classify_download(vec![0x1f, 0x8b, 0, 1, 2, 3]), Err(DownloadError::DecompressFailed)));
}

#[test]
fn corrupt_inner_gzip_is_refused_as_double_gzip() {
    let outer = gzip(&[0x1f, 0x8b, 0, 1, 2, 3]);
    assert!(matches!(classify_download(outer.clone()), Err(DownloadError::InnerDecompressFailed)));
    assert!(matches!(unwrap_gzip(outer), Err(DownloadError::InnerDecompressFailed)));
}

#[test]
fn zip_plan_extracts_entries() {
    let z = zip_of(&[("neutral.obj", b"v 1 2 3"), ("tex/neutral.png", b"png")]);
    let (t, d) = classify_download(z).ok().unwrap();
    assert_eq!(t, DetectedFileType::Zip);
    let plan = zip_extraction_plan("out", d).ok().unwrap();
    assert!(plan.failure.is_none());
    assert_eq!(plan.writes.len(), 2);
    assert_eq!(plan.writes[0].0, "out/neutral.obj");
    assert_eq!(plan.writes[0].1, b"v 1 2 3".to_vec());
    assert_eq!(plan.writes[1].0, "out/tex/neutral.png");
    assert_eq!(planned_paths(&plan), vec!["out/neutral.obj".to_string(), "out/tex/neutral.png".to_string()]);
}

#[test]
fn zip_slip_is_stopped() {
    let z = zip_of(&[("a.mtl", b"m"), ("../evil.obj", b"x"), ("b.obj", b"v")]);
    let plan = zip_extraction_plan("", z).ok().unwrap();
    assert_eq!(plan.writes.len(), 1);
    assert_eq!(plan.writes[0].0, "a.mtl");
    assert!(matches!(plan.failure, Some(DownloadError::Traversal { ref name }) if name == "../evil.obj"));
}

#[test]
fn not_a_zip_is_refused() {
    assert!(matches!(zip_extraction_plan("out", b"PK\x03\x04garbage".to_vec()), Err(DownloadError::BadArchive)));
}

#[test]
fn join_rules() {
    assert_eq!(join_path("out", "a.obj"), "out/a.obj");
    assert_eq!(join_path("out/", "a.obj"), "out/a.obj");
    assert_eq!(join_path("", "a.obj"), "a.obj");
    assert_eq!(join_path("out", "/etc/x"), "/etc/x");
    for (d, n) in [("out", "a.obj"), ("out/", "a.obj"), ("", "a.obj"), ("out", "/etc/x"), (".", "t/x.png")] {
        let expected = std::path::Path::new(d).join(n).display().to_string();
        assert_eq!(join_path(d, n), expected);
    }
}

#[test]
fn primary_file_choice() {
    let files = vec!["o/neutral.mtl".to_string(), "o/neutral.OBJ".to_string(), "o/x.glb".to_string()];
    assert_eq!(primary_file(&files), "o/neutral.OBJ");
    let files = vec!["o/a.png".to_string(), "o/b.mtl".to_string()];
    assert_eq!(primary_file(&files), "o/a.png");
    assert_eq!(primary_file(&vec![]), "");
    let r = archive_result(vec!["o/t.png".to_string(), "o/m.Glb".to_string()]);
    assert_eq!(r.primary_path, "o/m.Glb");
    assert_eq!(r.extracted.len(), 2);
    let r = single_file_result("head.glb".to_string());
    assert_eq!(r.primary_path, "head.glb");
    assert!(r.extracted.is_empty());
}

#[test]
fn containment_follows_std_for_canonical_paths() {
    let cases = [
        ("/home/u/out/a.obj", "/home/u/out"),
        ("/home/u/out", "/home/u/out"),
        ("/home/u/outside/a.obj", "/home/u/out"),
        ("/home/u", "/home/u/out"),
        ("/etc/passwd", "/home/u/out"),
        ("/a/b", "/"),
        ("rel/a", "rel"),
        ("rel/a", "/rel"),
    ];
    for (p, b) in cases {
        assert_eq!(path_within(p, b), std::path::Path::new(p).starts_with(b), "{} in {}", p, b);
    }
}

#[test]
fn absolute_zip_entries_are_stopped() {
    let z = zip_of(&[("ok.obj", b"v"), ("/tmp/evil.txt", b"x")]);
    let plan = zip_extraction_plan("out", z).ok().unwrap();
    assert_eq!(plan.writes.len(), 1);
    assert!(matches!(plan.failure, Some(DownloadError::Traversal { ref name }) if name == "/tmp/evil.txt"));
}

#[test]
fn extraction_directory_choice() {
    assert_eq!(extraction_dir("head.obj"), ".");
    assert_eq!(extraction_dir("out/head.obj"), "out");
    assert_eq!(extraction_dir("/head.obj"), "/");
    assert_eq!(extraction_dir("a/b/head.obj"), "a/b");
}
