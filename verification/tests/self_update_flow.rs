use std::io::Write;

use keentools_cloud::self_update::{
    archive_kind, extract_binary, find_asset, release_tag, release_url, trim_tag, update_plan, ArchiveKind, GithubAsset, GithubRelease,
    SelfUpdateArgs, UpdateAction, UpdateError,
};

fn args(check: bool, force: bool) -> SelfUpdateArgs {
    SelfUpdateArgs { check, version: None, force }
}

fn asset(name: &str) -> GithubAsset {
    GithubAsset { name: name.to_string(), browser_download_url: format!("https://dl/{}", name) }
}

fn tar_gz_of(entries: &[(&str, &[u8])]) -> Vec<u8> {
    let enc = flate2::write::GzEncoder::new(Vec::new(), flate2::Compression::default());
    let mut b = tar::Builder::new(enc);
    for (name, data) in entries {
        let mut h = tar::Header::new_gnu();
        h.set_size(data.len() as u64);
        h.set_mode(0o755);
        h.set_cksum();
        b.append_data(&mut h, name, *data).unwrap();
    }
    b.into_inner().unwrap().finish().unwrap()
}

fn zip_of(entries: &[(&str, &[u8])]) -> Vec<u8> {
    let mut w = zip::ZipWriter::new(std::io::Cursor::new(Vec::new()));
    let opts = zip::write::SimpleFileOptions::default().compression_method(zip::CompressionMethod::Stored);
    for (name, data) in entries {
        w.start_file(*name, opts).unwrap();
        w.write_all(data).unwrap();
    }
    w.finish().unwrap().into_inner()
}

#[test]
fn tags_and_urls() {
    assert_eq!(release_tag("0.2.0"), "v0.2.0");
    assert_eq!(release_tag("v0.2.0"), "v0.2.0");
    assert_eq!(release_url(None), "https://api.github.com/repos/loonghao/keentools_cloud_cli/releases/latest");
    assert_eq!(release_url(Some("0.3.1")), "https://api.github.com/repos/loonghao/keentools_cloud_cli/releases/tags/v0.3.1");
    assert_eq!(trim_tag("vv1.2.3"), "1.2.3");
    assert_eq!(trim_tag("1.2.3"), "1.2.3");
}

#[test]
fn update_decisions() {
    let p = update_plan(&args(false, false), "v0.2.0", "0.1.1").ok().unwrap();
    assert_eq!(p.latest, "0.2.0");
    assert!(p.update_available);
    assert_eq!(p.action, UpdateAction::Install);
    let p = update_plan(&args(true, false), "v0.2.0", "0.1.1").ok().unwrap();
    assert_eq!(p.action, UpdateAction::Report);
    let p = update_plan(&args(false, false), "v0.1.1", "0.1.1").ok().unwrap();
    assert!(!p.update_available);
    assert_eq!(p.action, UpdateAction::UpToDate);
    let p = update_plan(&args(false, true), "v0.1.1", "0.1.1").ok().unwrap();
    assert_eq!(p.action, UpdateAction::Install);
    let p = update_plan(&args(false, false), "v0.1.0", "0.1.1").ok().unwrap();
    assert_eq!(p.action, UpdateAction::UpToDate);
    let p = update_plan(&args(false, false), "v0.2.0-rc.1", "0.2.0").ok().unwrap();
    assert!(!p.update_available);
    assert!(matches!(update_plan(&args(false, false), "release-1", "0.1.1"), Err(UpdateError::BadTag)));
    assert!(matches!(update_plan(&args(false, false), "v1.0.0", "dev"), Err(UpdateError::BadCurrentVersion)));
}

#[test]
fn asset_selection() {
    let release = GithubRelease {
        tag_name: "v0.2.0".to_string(),
        assets: vec![
            asset("keentools-cloud-x86_64-unknown-linux-gnu.sha256"),
            asset("keentools-cloud-aarch64-apple-darwin.tar.gz"),
            asset("keentools-cloud-x86_64-unknown-linux-gnu.tar.gz"),
            asset("keentools-cloud-x86_64-unknown-linux-gnu.zip"),
        ],
        body: None,
    };
    let a = find_asset(&release, "x86_64-unknown-linux-gnu").unwrap();
    assert_eq!(a.name, "keentools-cloud-x86_64-unknown-linux-gnu.tar.gz");
    assert!(find_asset(&release, "x86_64-pc-windows-msvc").is_none());
    assert_eq!(archive_kind("a.tar.gz"), Some(ArchiveKind::TarGz));
    assert_eq!(archive_kind("a.zip"), Some(ArchiveKind::Zip));
    assert_eq!(archive_kind("a.tgz"), None);
}

#[test]
fn binary_from_tar_gz() {
    let data = tar_gz_of(&[("pkg/README.md", b"readme"), ("pkg/keentools-cloud", b"\x7fELF-binary")]);
    assert_eq!(extract_binary("x.tar.gz", data).ok().unwrap(), b"\x7fELF-binary".to_vec());
    let data = tar_gz_of(&[("pkg/README.md", b"readme")]);
    assert!(matches!(extract_binary("x.tar.gz", data), Err(UpdateError::BinaryNotFound)));
}

#[test]
fn binary_from_zip() {
    let data = zip_of(&[("LICENSE", b"mit"), ("keentools-cloud.exe", b"MZ-binary")]);
    assert_eq!(extract_binary("x.zip", data).ok().unwrap(), b"MZ-binary".to_vec());
    let data = zip_of(&[("dir/keentools-cloud", b"elf")]);
    assert!(matches!(extract_binary("x.zip", data), Err(UpdateError::BinaryNotFound)));
    assert!(matches!(extract_binary("x.zip", b"not a zip".to_vec()), Err(UpdateError::BadArchive)));
    assert!(matches!(extract_binary("x.rar", vec![]), Err(UpdateError::UnsupportedArchive)));
}
