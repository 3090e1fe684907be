//! `self-update`: which release to fetch, whether to install it, which asset
//! matches this platform, and how the binary is found in the asset's archive.
use vstd::prelude::*;

use crate::archive::{zip_contents, zip_entry, zip_len, zip_open, zip_parse};
use crate::client::{file_name, file_name_of};
use crate::text::{chars_of, concat, ends_with, is_suffix, spells, string_of};

verus! {

/// The GitHub repository that publishes the releases.
pub const REPO: &'static str = "loonghao/keentools_cloud_cli";

/// The GitHub API base URL.
pub const GITHUB_API: &'static str = "https://api.github.com";

/// Arguments of `self-update`.
pub struct SelfUpdateArgs {
    /// Check for updates without installing.
    pub check: bool,
    /// Install a specific version (e.g. `v0.2.0`).
    pub version: Option<String>,
    /// Reinstall even if already on the latest version.
    pub force: bool,
}

/// A downloadable file of a release.
pub struct GithubAsset {
    pub name: String,
    pub browser_download_url: String,
}

/// A GitHub release.
pub struct GithubRelease {
    pub tag_name: String,
    pub assets: Vec<GithubAsset>,
    pub body: Option<String>,
}

/// Why an update could not be made.
#[derive(Debug)]
pub enum UpdateError {
    /// The release tag is not a semantic version.
    BadTag,
    /// The running program's version is not a semantic version.
    BadCurrentVersion,
    /// No asset of the release matches this platform.
    NoAsset,
    /// The asset is neither `.tar.gz` nor `.zip`.
    UnsupportedArchive,
    /// The archive cannot be read.
    BadArchive,
    /// An archive entry cannot be read.
    BadEntry,
    /// A tar entry has an unreadable path.
    BadEntryPath,
    /// The binary's contents cannot be read.
    ReadFailed,
    /// The archive holds no `keentools-cloud` binary.
    BinaryNotFound,
}

/// The release tag for a requested version: as given when it starts with
/// `v`, else with `v` put in front.
pub open spec fn tag_for(version: Seq<char>) -> Seq<char> {
    if version.len() > 0 && version[0] == 'v' {
        version
    } else {
        "v"@ + version
    }
}

/// Normalises a requested version to a release tag.
pub fn release_tag(version: &str) -> (t: String)
    ensures
        t@ == tag_for(version@),
{
    let cs = chars_of(version);
    if cs.len() > 0 && cs[0] == 'v' {
        String::from_str(version)
    } else {
        concat("v", version)
    }
}

/// The API URL of the release to fetch: the latest one, or the one tagged
/// for the requested version.
pub open spec fn release_url_of(version: Option<Seq<char>>) -> Seq<char> {
    match version {
        None => GITHUB_API@ + "/repos/"@ + REPO@ + "/releases/latest"@,
        Some(v) => GITHUB_API@ + "/repos/"@ + REPO@ + "/releases/tags/"@ + tag_for(v),
    }
}

/// Builds the API URL of the release to fetch.
pub fn release_url(version: Option<&str>) -> (u: String)
    ensures
        u@ == release_url_of(match version {
            Some(v) => Some(v@),
            None => None,
        }),
{
    let mut u = concat(GITHUB_API, "/repos/");
    u.append(REPO);
    match version {
        None => {
            u.append("/releases/latest");
        },
        Some(v) => {
            u.append("/releases/tags/");
            let t = release_tag(v);
            u.append(t.as_str());
        },
    }
    u
}

/// `s` without its leading `v` characters.
pub open spec fn strip_v(s: Seq<char>) -> Seq<char>
    decreases s.len(),
{
    if s.len() > 0 && s[0] == 'v' {
        strip_v(s.drop_first())
    } else {
        s
    }
}

/// Removes every leading `v` of a release tag.
pub fn trim_tag(tag: &str) -> (v: String)
    ensures
        v@ == strip_v(tag@),
{
    let cs = chars_of(tag);
    let mut i: usize = 0;
    assert(cs@.subrange(0, cs@.len() as int) =~= cs@);
    while i < cs.len() && cs[i] == 'v'
        invariant
            i <= cs@.len(),
            strip_v(cs@) == strip_v(cs@.subrange(i as int, cs@.len() as int)),
        decreases cs.len() - i,
    {
        assert(cs@.subrange(i as int, cs@.len() as int).drop_first() =~= cs@.subrange(i + 1, cs@.len() as int));
        i = i + 1;
    }
    let n = cs.len();
    let rest = crate::text::slice_chars(&cs, i, n);
    string_of(&rest)
}

/// `s` is accepted by `semver::Version::parse`.
pub uninterp spec fn semver_valid(s: Seq<char>) -> bool;

/// The version parsed from `a` orders after the one parsed from `b`, by
/// `semver::Version`'s ordering.
pub uninterp spec fn semver_greater(a: Seq<char>, b: Seq<char>) -> bool;

/// `semver::Version::parse` on both strings, then `>` on the versions: the
/// parse results are named `semver_valid`, the comparison `semver_greater`.
#[verifier::external_body]
fn newer_than(latest: &str, current: &str) -> (r: Result<bool, UpdateError>)
    ensures
        r == (if !semver_valid(latest@) {
            Err(UpdateError::BadTag)
        } else if !semver_valid(current@) {
            Err(UpdateError::BadCurrentVersion)
        } else {
            Ok(semver_greater(latest@, current@))
        }),
{
    match semver::Version::parse(latest) {
        Err(_) => Err(UpdateError::BadTag),
        Ok(l) => match semver::Version::parse(current) {
            Err(_) => Err(UpdateError::BadCurrentVersion),
            Ok(c) => Ok(l > c),
        },
    }
}

/// What `self-update` does once the release is known.
#[derive(Debug, PartialEq, Eq, Structural)]
pub enum UpdateAction {
    /// `--check`: only report.
    Report,
    /// Already on the latest version, and not forced.
    UpToDate,
    /// Download and install the release.
    Install,
}

/// The decision on a release.
pub struct UpdatePlan {
    /// The release's version, without its leading `v`.
    pub latest: String,
    /// The release is newer than the running program.
    pub update_available: bool,
    pub action: UpdateAction,
}

/// The action for a release: `--check` only reports; otherwise install when
/// the release is newer, or when forced.
pub open spec fn action_for(check: bool, force: bool, newer: bool) -> UpdateAction {
    if check {
        UpdateAction::Report
    } else if !newer && !force {
        UpdateAction::UpToDate
    } else {
        UpdateAction::Install
    }
}

/// Decides what to do with the release tagged `tag` when the running program
/// is at version `current`.
pub fn update_plan(args: &SelfUpdateArgs, tag: &str, current: &str) -> (r: Result<UpdatePlan, UpdateError>)
    ensures
        !semver_valid(strip_v(tag@)) ==> r matches Err(UpdateError::BadTag),
        semver_valid(strip_v(tag@)) && !semver_valid(current@) ==> r matches Err(UpdateError::BadCurrentVersion),
        semver_valid(strip_v(tag@)) && semver_valid(current@) ==> (r matches Ok(p)
            && p.latest@ == strip_v(tag@)
            && p.update_available == semver_greater(strip_v(tag@), current@)
            && p.action == action_for(args.check, args.force, semver_greater(strip_v(tag@), current@))),
{
    let latest = trim_tag(tag);
    let newer = newer_than(latest.as_str(), current)?;
    let action = if args.check {
        UpdateAction::Report
    } else if !newer && !args.force {
        UpdateAction::UpToDate
    } else {
        UpdateAction::Install
    };
    Ok(UpdatePlan { latest, update_available: newer, action })
}

/// `t` occurs in `s`.
pub open spec fn has_substring(s: Seq<char>, t: Seq<char>) -> bool {
    exists|i: int| 0 <= i && i + t.len() <= s.len() && #[trigger] s.subrange(i, i + t.len()) == t
}

fn contains_str(s: &Vec<char>, t: &Vec<char>) -> (b: bool)
    ensures
        b == has_substring(s@, t@),
{
    if t.len() == 0 {
        assert(s@.subrange(0int, 0int + t@.len()) =~= t@);
        return true;
    }
    if t.len() > s.len() {
        return false;
    }
    let slen = s.len();
    let tlen = t.len();
    let end = slen - tlen + 1;
    let mut i: usize = 0;
    while i < end
        invariant
            slen == s@.len(),
            tlen == t@.len(),
            tlen >= 1,
            end + tlen == slen + 1,
            i <= end,
            forall|k: int| 0 <= k < i ==> #[trigger] s@.subrange(k, k + t@.len()) != t@,
        decreases end - i,
    {
        let mut j: usize = 0;
        let mut same = true;
        while j < tlen
            invariant
                slen == s@.len(),
                tlen == t@.len(),
                i < end,
                end + tlen == slen + 1,
                j <= tlen,
                same == (forall|m: int| 0 <= m < j ==> s@[i + m] == t@[m]),
            decreases tlen - j,
        {
            if s[i + j] != t[j] {
                same = false;
            }
            j = j + 1;
        }
        if same {
            assert(s@.subrange(i as int, i + t@.len()) =~= t@);
            return true;
        }
        assert(s@.subrange(i as int, i + t@.len()) != t@) by {
            let m = choose|m: int| 0 <= m < t@.len() && s@[i + m] != t@[m];
            assert(s@.subrange(i as int, i + t@.len())[m] != t@[m]);
        }
        i = i + 1;
    }
    false
}

/// An asset fits the platform: its name holds the target triple and it is a
/// `.tar.gz` or `.zip` archive.
pub open spec fn asset_fits(name: Seq<char>, target: Seq<char>) -> bool {
    has_substring(name, target) && (is_suffix(".tar.gz"@, name) || is_suffix(".zip"@, name))
}

/// The first asset of the release that fits the platform `target`.
pub fn find_asset<'a>(release: &'a GithubRelease, target: &str) -> (r: Option<&'a GithubAsset>)
    ensures
        match r {
            Some(a) => exists|i: int| 0 <= i < release.assets@.len() && *a == release.assets@[i]
                && asset_fits(release.assets@[i].name@, target@)
                && forall|j: int| 0 <= j < i ==> !asset_fits(#[trigger] release.assets@[j].name@, target@),
            None => forall|j: int| 0 <= j < release.assets@.len() ==> !asset_fits(#[trigger] release.assets@[j].name@, target@),
        },
{
    let t = chars_of(target);
    let tgz = chars_of(".tar.gz");
    let zip = chars_of(".zip");
    let mut i: usize = 0;
    while i < release.assets.len()
        invariant
            t@ == target@,
            tgz@ == ".tar.gz"@,
            zip@ == ".zip"@,
            i <= release.assets@.len(),
            forall|j: int| 0 <= j < i ==> !asset_fits(#[trigger] release.assets@[j].name@, target@),
        decreases release.assets.len() - i,
    {
        let name = chars_of(release.assets[i].name.as_str());
        if contains_str(&name, &t) && (ends_with(&name, &tgz) || ends_with(&name, &zip)) {
            return Some(&release.assets[i]);
        }
        i = i + 1;
    }
    None
}

/// The kind of a release archive, by its name.
#[derive(Debug, PartialEq, Eq, Structural)]
pub enum ArchiveKind {
    TarGz,
    Zip,
}

/// The archive kind named by an asset name: `.tar.gz` first, then `.zip`.
pub open spec fn archive_kind_of(name: Seq<char>) -> Option<ArchiveKind> {
    if is_suffix(".tar.gz"@, name) {
        Some(ArchiveKind::TarGz)
    } else if is_suffix(".zip"@, name) {
        Some(ArchiveKind::Zip)
    } else {
        None
    }
}

/// Tells the archive kind of an asset from its name.
pub fn archive_kind(name: &str) -> (k: Option<ArchiveKind>)
    ensures
        k == archive_kind_of(name@),
{
    let cs = chars_of(name);
    if ends_with(&cs, &chars_of(".tar.gz")) {
        Some(ArchiveKind::TarGz)
    } else if ends_with(&cs, &chars_of(".zip")) {
        Some(ArchiveKind::Zip)
    } else {
        None
    }
}

/// The name of the program's binary inside a release archive.
pub open spec fn is_binary_name(n: Seq<char>) -> bool {
    n == "keentools-cloud"@ || n == "keentools-cloud.exe"@
}

/// The outcome of looking for the binary in ZIP entries: the first entry
/// that does not open is an error; the first one named like the binary gives
/// its contents (or a read error); none at all is an error.
pub open spec fn zip_binary(es: Seq<Option<(Seq<char>, Option<Seq<u8>>)>>) -> Result<Seq<u8>, UpdateError>
    decreases es.len(),
{
    if es.len() == 0 {
        Err(UpdateError::BinaryNotFound)
    } else {
        match es[0] {
            None => Err(UpdateError::BadEntry),
            Some((n, d)) => if is_binary_name(n) {
                match d {
                    Some(b) => Ok(b),
                    None => Err(UpdateError::ReadFailed),
                }
            } else {
                zip_binary(es.drop_first())
            },
        }
    }
}

/// The view of an extraction result.
pub open spec fn bytes_result_view(r: Result<Vec<u8>, UpdateError>) -> Result<Seq<u8>, UpdateError> {
    match r {
        Ok(v) => Ok(v@),
        Err(e) => Err(e),
    }
}

/// Takes the program's binary out of a `.zip` release archive.
pub fn extract_from_zip(data: Vec<u8>) -> (r: Result<Vec<u8>, UpdateError>)
    ensures
        match zip_parse(data@) {
            None => r matches Err(UpdateError::BadArchive),
            Some(es) => bytes_result_view(r) == zip_binary(es),
        },
{
    let ghost bytes_in = data@;
    let mut archive = match zip_open(data) {
        Some(a) => a,
        None => {
            return Err(UpdateError::BadArchive);
        },
    };
    let ghost es = zip_contents(archive);
    let n = zip_len(&archive);
    let mut i: usize = 0;
    assert(es.subrange(0, es.len() as int) =~= es);
    while i < n
        invariant
            zip_parse(bytes_in) == Some(es),
            bytes_in == data@,
            zip_contents(archive) == es,
            n == es.len(),
            i <= n,
            zip_binary(es) == zip_binary(es.subrange(i as int, es.len() as int)),
        decreases n - i,
    {
        let ghost rest = es.subrange(i as int, es.len() as int);
        assert(rest.drop_first() =~= es.subrange(i + 1, es.len() as int));
        assert(rest[0] == es[i as int]);
        match zip_entry(&mut archive, i) {
            None => {
                return Err(UpdateError::BadEntry);
            },
            Some((name, contents)) => {
                let cs = chars_of(name.as_str());
                if spells(&cs, "keentools-cloud") || spells(&cs, "keentools-cloud.exe") {
                    return match contents {
                        Some(b) => Ok(b),
                        None => Err(UpdateError::ReadFailed),
                    };
                }
            },
        }
        i = i + 1;
    }
    assert(es.subrange(i as int, es.len() as int).len() == 0);
    Err(UpdateError::BinaryNotFound)
}


/// The entries of a `.tar.gz` archive as `tar::Archive` over
/// `flate2::read::GzDecoder` reads them, in order: `None` when the entries
/// cannot be listed at all; an entry that fails to read is `None` and ends
/// the list; otherwise its path (`None` when unreadable) and its contents
/// (`None` when unreadable).
pub uninterp spec fn tar_gz_listing(data: Seq<u8>) -> Option<Seq<Option<(Option<Seq<char>>, Option<Seq<u8>>)>>>;

/// The view of the entries read from a `.tar.gz` archive.
pub open spec fn tar_items_view(v: Seq<Option<(Option<String>, Option<Vec<u8>>)>>) -> Seq<Option<(Option<Seq<char>>, Option<Seq<u8>>)>> {
    v.map_values(|x: Option<(Option<String>, Option<Vec<u8>>)>| match x {
        None => None,
        Some((p, d)) => Some((
            match p {
                Some(s) => Some(s@),
                None => None,
            },
            match d {
                Some(b) => Some(b@),
                None => None,
            },
        )),
    })
}

/// `tar::Archive::entries` over `flate2::read::GzDecoder`: every entry's
/// path (lossily made text) and contents, as `tar_gz_listing` names them.
#[verifier::external_body]
fn tar_gz_entries(data: &[u8]) -> (r: Option<Vec<Option<(Option<String>, Option<Vec<u8>>)>>>)
    ensures
        match r {
            None => tar_gz_listing(data@) is None,
            Some(v) => tar_gz_listing(data@) == Some(tar_items_view(v@)),
        },
{
    let mut archive = tar::Archive::new(flate2::read::GzDecoder::new(data));
    let entries = archive.entries().ok()?;
    let mut items = Vec::new();
    for entry in entries {
        items.push(entry.ok().map(|mut e| {
            let path = e.path().ok().map(|p| p.to_string_lossy().into_owned());
            let mut buf = Vec::new();
            (path, std::io::Read::read_to_end(&mut e, &mut buf).ok().map(|_| buf))
        }));
    }
    Some(items)
}

/// The file name of a tar entry's path, or the empty name when it has none.
pub open spec fn entry_file_name(p: Seq<char>) -> Seq<char> {
    match file_name(p) {
        Some(n) => n,
        None => Seq::empty(),
    }
}

/// The outcome of looking for the binary in tar entries: the first entry
/// that fails to read, or whose path is unreadable, is an error; the first
/// one whose file name is the binary's gives its contents (or a read error);
/// none at all is an error.
pub open spec fn tar_binary(items: Seq<Option<(Option<Seq<char>>, Option<Seq<u8>>)>>) -> Result<Seq<u8>, UpdateError>
    decreases items.len(),
{
    if items.len() == 0 {
        Err(UpdateError::BinaryNotFound)
    } else {
        match items[0] {
            None => Err(UpdateError::BadEntry),
            Some((p, d)) => match p {
                None => Err(UpdateError::BadEntryPath),
                Some(path) => if is_binary_name(entry_file_name(path)) {
                    match d {
                        Some(b) => Ok(b),
                        None => Err(UpdateError::ReadFailed),
                    }
                } else {
                    tar_binary(items.drop_first())
                },
            },
        }
    }
}

fn is_binary_path(path: &str) -> (b: bool)
    ensures
        b == is_binary_name(entry_file_name(path@)),
{
    let name = match file_name_of(path) {
        Some(n) => chars_of(n.as_str()),
        None => Vec::new(),
    };
    proof {
        if file_name(path@) is None {
            assert(name@ =~= Seq::<char>::empty());
        }
    }
    spells(&name, "keentools-cloud") || spells(&name, "keentools-cloud.exe")
}

/// Takes the program's binary out of a `.tar.gz` release archive.
pub fn extract_from_tar_gz(data: &[u8]) -> (r: Result<Vec<u8>, UpdateError>)
    ensures
        match tar_gz_listing(data@) {
            None => r matches Err(UpdateError::BadArchive),
            Some(items) => bytes_result_view(r) == tar_binary(items),
        },
{
    let items = match tar_gz_entries(data) {
        Some(v) => v,
        None => {
            return Err(UpdateError::BadArchive);
        },
    };
    let ghost all = tar_items_view(items@);
    let mut i: usize = 0;
    assert(all.subrange(0, all.len() as int) =~= all);
    while i < items.len()
        invariant
            tar_gz_listing(data@) == Some(all),
            all == tar_items_view(items@),
            i <= items@.len(),
            tar_binary(all) == tar_binary(all.subrange(i as int, all.len() as int)),
        decreases items.len() - i,
    {
        let ghost rest = all.subrange(i as int, all.len() as int);
        assert(rest.drop_first() =~= all.subrange(i + 1, all.len() as int));
        assert(rest[0] == all[i as int]);
        match &items[i] {
            None => {
                return Err(UpdateError::BadEntry);
            },
            Some((p, d)) => match p {
                None => {
                    return Err(UpdateError::BadEntryPath);
                },
                Some(path) => {
                    if is_binary_path(path.as_str()) {
                        return match d {
                            Some(b) => Ok(b.clone()),
                            None => Err(UpdateError::ReadFailed),
                        };
                    }
                },
            },
        }
        i = i + 1;
    }
    assert(all.subrange(i as int, all.len() as int).len() == 0);
    Err(UpdateError::BinaryNotFound)
}

/// Takes the program's binary out of a downloaded release asset, by the
/// asset's archive kind.
pub fn extract_binary(archive_name: &str, data: Vec<u8>) -> (r: Result<Vec<u8>, UpdateError>)
    ensures
        match archive_kind_of(archive_name@) {
            None => r matches Err(UpdateError::UnsupportedArchive),
            Some(ArchiveKind::TarGz) => match tar_gz_listing(data@) {
                None => r matches Err(UpdateError::BadArchive),
                Some(items) => bytes_result_view(r) == tar_binary(items),
            },
            Some(ArchiveKind::Zip) => match zip_parse(data@) {
                None => r matches Err(UpdateError::BadArchive),
                Some(es) => bytes_result_view(r) == zip_binary(es),
            },
        },
{
    match archive_kind(archive_name) {
        Some(ArchiveKind::TarGz) => extract_from_tar_gz(data.as_slice()),
        Some(ArchiveKind::Zip) => extract_from_zip(data),
        None => Err(UpdateError::UnsupportedArchive),
    }
}

} // verus!
