//! `download`: the model request, the retry protocol of the model endpoint,
//! and the post-processing of what was downloaded (GZIP layers, ZIP archives,
//! bare GLB or OBJ files), judged by the bytes rather than by the file name.
use vstd::prelude::*;

use crate::archive::{zip_contents, zip_entry, zip_len, zip_open, zip_parse};
use crate::cli::{mesh_api_str, MeshFormat};
use crate::client::{avatar_path, avatar_path_of};
use crate::text::{find_last, last_index, lemma_last_index, slice_chars, string_of, segments, split_segments, same_chars, chars_of, concat, lowercased, to_lowercase, contains_double_dot, ends_with, has_double_dot, is_suffix};
use crate::validate::{avatar_id, avatar_id_check, ValidationError};

verus! {

/// Texture format (GLB only).
#[derive(Clone, Copy, Debug, PartialEq, Eq, Structural)]
pub enum TextureFormat {
    Jpg,
    Png,
}

/// The API spelling of a texture format.
pub open spec fn texture_api_str(t: TextureFormat) -> Seq<char> {
    match t {
        TextureFormat::Jpg => "jpg"@,
        TextureFormat::Png => "png"@,
    }
}

impl TextureFormat {
    /// The API spelling: `jpg` or `png`.
    pub fn as_api_str(&self) -> (s: &'static str)
        ensures
            s@ == texture_api_str(*self),
    {
        match self {
            TextureFormat::Jpg => "jpg",
            TextureFormat::Png => "png",
        }
    }
}

/// Arguments of `download`.
pub struct DownloadArgs {
    /// Avatar ID.
    pub avatar_id: String,
    /// Destination file path.
    pub output_path: String,
    /// Mesh format.
    pub format: MeshFormat,
    /// Blendshape groups to include (GLB only).
    pub blendshapes: Option<Vec<String>>,
    /// Texture format (GLB only).
    pub texture: Option<TextureFormat>,
    /// Include wireframe edges (GLB only).
    pub edges: bool,
    /// Wait until the model is ready.
    pub poll: bool,
}

/// Where a successful download ended up. For a ZIP archive these are the
/// extracted files; otherwise the output path itself.
pub struct DownloadResult {
    /// The mesh file to use (the `.obj` or `.glb`).
    pub primary_path: String,
    /// Every extracted file (empty unless the download was a ZIP archive).
    pub extracted: Vec<String>,
}

/// Why a download failed.
#[derive(Debug)]
pub enum DownloadError {
    /// The avatar ID was refused.
    Invalid(ValidationError),
    /// The model is still being generated and polling was not asked for.
    StillGenerating { retry_in: u64 },
    /// The outer GZIP layer could not be decompressed.
    DecompressFailed,
    /// The second GZIP layer, inside the first, could not be decompressed.
    InnerDecompressFailed,
    /// The content is still GZIP after two layers were removed.
    StillCompressed,
    /// The ZIP archive could not be read.
    BadArchive,
    /// A ZIP entry could not be read.
    BadEntry { index: usize },
    /// A ZIP entry's name holds `..`.
    Traversal { name: String },
}

/// The views of a sequence of strings.
pub open spec fn views(v: Seq<String>) -> Seq<Seq<char>> {
    v.map_values(|s: String| s@)
}

/// The views of an optional sequence of strings.
pub open spec fn opt_views(v: Option<Vec<String>>) -> Option<Seq<Seq<char>>> {
    match v {
        Some(xs) => Some(views(xs@)),
        None => None,
    }
}

/// `parts` joined with `sep` between neighbours.
pub open spec fn joined_with(parts: Seq<Seq<char>>, sep: Seq<char>) -> Seq<char>
    decreases parts.len(),
{
    if parts.len() == 0 {
        Seq::empty()
    } else if parts.len() == 1 {
        parts[0]
    } else {
        joined_with(parts.drop_last(), sep) + sep + parts.last()
    }
}

/// Joins strings with a separator.
pub fn join_strings(parts: &Vec<String>, sep: &str) -> (s: String)
    ensures
        s@ == joined_with(views(parts@), sep@),
{
    let mut s = String::new();
    let mut i: usize = 0;
    while i < parts.len()
        invariant
            i <= parts@.len(),
            s@ == joined_with(views(parts@.subrange(0, i as int)), sep@),
        decreases parts.len() - i,
    {
        let ghost before = views(parts@.subrange(0, i as int));
        let ghost after = views(parts@.subrange(0, i + 1));
        assert(after.drop_last() =~= before);
        assert(after.last() == parts@[i as int]@);
        if i > 0 {
            s.append(sep);
        }
        s.append(parts[i].as_str());
        i = i + 1;
    }
    assert(parts@.subrange(0, parts@.len() as int) =~= parts@);
    s
}

/// The query parameters of a model request, in order: the mesh format, the
/// level of detail, then the blendshapes (comma-separated, when any are
/// given), the texture and the edges flag.
pub open spec fn model_query_parts(
    format: MeshFormat,
    blendshapes: Option<Seq<Seq<char>>>,
    texture: Option<TextureFormat>,
    edges: bool,
) -> Seq<Seq<char>> {
    let base = seq!["mesh_format="@ + mesh_api_str(format), "mesh_lod=high_poly"@];
    let with_bs = match blendshapes {
        Some(bs) => if bs.len() > 0 {
            base.push("blendshapes="@ + joined_with(bs, ","@))
        } else {
            base
        },
        None => base,
    };
    let with_tex = match texture {
        Some(t) => with_bs.push("texture="@ + texture_api_str(t)),
        None => with_bs,
    };
    if edges {
        with_tex.push("edges=true"@)
    } else {
        with_tex
    }
}

/// The API path that asks for the model described by `args`.
pub open spec fn model_path_of(args: DownloadArgs) -> Seq<char> {
    avatar_path_of(
        args.avatar_id@,
        "get-3d-model?"@ + joined_with(
            model_query_parts(
                args.format,
                opt_views(args.blendshapes),
                args.texture,
                args.edges,
            ),
            "&"@,
        ),
    )
}

fn push_part(parts: &mut Vec<String>, key: &str, value: &str)
    ensures
        views(final(parts)@) == views(old(parts)@).push(key@ + value@),
{
    let item = concat(key, value);
    parts.push(item);
    assert(views(parts@) =~= views(old(parts)@).push(key@ + value@));
}

fn push_literal(parts: &mut Vec<String>, lit: &str)
    ensures
        views(final(parts)@) == views(old(parts)@).push(lit@),
{
    let item = String::from_str(lit);
    parts.push(item);
    assert(views(parts@) =~= views(old(parts)@).push(lit@));
}

/// Builds the model request path for `args`, after checking the avatar ID.
pub fn model_path(args: &DownloadArgs) -> (r: Result<String, DownloadError>)
    ensures
        match avatar_id_check(args.avatar_id@) {
            Some(e) => r matches Err(DownloadError::Invalid(x)) && x == e,
            None => r matches Ok(p) && p@ == model_path_of(*args),
        },
{
    match avatar_id(args.avatar_id.as_str()) {
        Err(e) => {
            return Err(DownloadError::Invalid(e));
        },
        Ok(()) => {},
    }
    let mut parts: Vec<String> = Vec::new();
    let ghost bs_view = opt_views(args.blendshapes);
    assert(views(parts@) =~= Seq::<Seq<char>>::empty());
    push_part(&mut parts, "mesh_format=", args.format.as_api_str());
    push_literal(&mut parts, "mesh_lod=high_poly");
    assert(views(parts@) =~= seq!["mesh_format="@ + mesh_api_str(args.format), "mesh_lod=high_poly"@]);
    match &args.blendshapes {
        Some(bs) => {
            if bs.len() > 0 {
                let joined = join_strings(bs, ",");
                push_part(&mut parts, "blendshapes=", joined.as_str());
            }
        },
        None => {},
    }
    match &args.texture {
        Some(t) => push_part(&mut parts, "texture=", t.as_api_str()),
        None => {},
    }
    if args.edges {
        push_literal(&mut parts, "edges=true");
    }
    proof {
        assert(views(parts@) =~= model_query_parts(args.format, bs_view, args.texture, args.edges));
    }
    let query = join_strings(&parts, "&");
    let action = concat("get-3d-model?", query.as_str());
    Ok(avatar_path(args.avatar_id.as_str(), action.as_str()))
}


/// One answer of the model endpoint.
pub enum ModelResponse {
    /// The model is still being generated; ask again in `time_sec` seconds.
    RetryAfter { time_sec: u64 },
    /// The model is ready at `url`.
    Redirect { url: String },
}

/// What to do after an answer of the model endpoint.
pub enum ModelStep {
    /// Download the model from `url`.
    Fetch { url: String },
    /// Sleep `secs` seconds, then ask again.
    Wait { secs: u64 },
}

/// Follows the retry protocol of the model endpoint: a redirect is fetched; a
/// retry is waited for when polling, and is an error otherwise.
pub fn model_step(resp: ModelResponse, poll: bool) -> (r: Result<ModelStep, DownloadError>)
    ensures
        match resp {
            ModelResponse::Redirect { url } => r matches Ok(ModelStep::Fetch { url: u }) && u == url,
            ModelResponse::RetryAfter { time_sec } => if poll {
                r matches Ok(ModelStep::Wait { secs }) && secs == time_sec
            } else {
                r matches Err(DownloadError::StillGenerating { retry_in }) && retry_in == time_sec
            },
        },
{
    match resp {
        ModelResponse::Redirect { url } => Ok(ModelStep::Fetch { url }),
        ModelResponse::RetryAfter { time_sec } => if poll {
            Ok(ModelStep::Wait { secs: time_sec })
        } else {
            Err(DownloadError::StillGenerating { retry_in: time_sec })
        },
    }
}

/// The type of a downloaded file, judged by its first bytes.
#[derive(Clone, Copy, Debug, PartialEq, Eq, Structural)]
pub enum DetectedFileType {
    Zip,
    Gzip,
    Glb,
    Obj,
    Unknown,
}

/// Every byte of `b` is ASCII.
pub open spec fn all_ascii(b: Seq<u8>) -> bool {
    forall|i: int| 0 <= i < b.len() ==> b[i] < 0x80
}

/// The type of a file whose content is `d`, from its first (at most four)
/// bytes: GZIP by `1f 8b`; ZIP by `PK 03 04` or `PK 05 06`; GLB by `glTF`;
/// OBJ when the header is ASCII text; unknown when fewer than two bytes.
pub open spec fn detected_type(d: Seq<u8>) -> DetectedFileType {
    let n = if d.len() < 4 { d.len() } else { 4 };
    let h = d.subrange(0, n as int);
    if n < 2 {
        DetectedFileType::Unknown
    } else if h[0] == 0x1f && h[1] == 0x8b {
        DetectedFileType::Gzip
    } else if n < 4 {
        if all_ascii(h) { DetectedFileType::Obj } else { DetectedFileType::Unknown }
    } else if h[0] == 0x50 && h[1] == 0x4b && ((h[2] == 0x03 && h[3] == 0x04) || (h[2] == 0x05 && h[3] == 0x06)) {
        DetectedFileType::Zip
    } else if h[0] == 0x67 && h[1] == 0x6c && h[2] == 0x54 && h[3] == 0x46 {
        DetectedFileType::Glb
    } else if all_ascii(h) {
        DetectedFileType::Obj
    } else {
        DetectedFileType::Unknown
    }
}

fn ascii_prefix(data: &[u8], n: usize) -> (b: bool)
    requires
        n <= data@.len(),
    ensures
        b == all_ascii(data@.subrange(0, n as int)),
{
    let mut i: usize = 0;
    while i < n
        invariant
            n <= data@.len(),
            i <= n,
            all_ascii(data@.subrange(0, i as int)),
        decreases n - i,
    {
        if data[i] >= 0x80 {
            assert(data@.subrange(0, n as int)[i as int] == data@[i as int]);
            return false;
        }
        assert forall|j: int| 0 <= j < i + 1 implies #[trigger] data@.subrange(0, i + 1)[j] < 0x80 by {
            if j < i {
                assert(data@.subrange(0, i + 1)[j] == data@.subrange(0, i as int)[j]);
            }
        }
        i = i + 1;
    }
    true
}

/// Inspects the first bytes of a file's content to tell its actual type;
/// the file name is never trusted.
pub fn detect_file_type(data: &[u8]) -> (t: DetectedFileType)
    ensures
        t == detected_type(data@),
{
    let len = data.len();
    let n: usize = if len < 4 { len } else { 4 };
    let ghost h = data@.subrange(0, n as int);
    if n < 2 {
        return DetectedFileType::Unknown;
    }
    if data[0] == 0x1f && data[1] == 0x8b {
        return DetectedFileType::Gzip;
    }
    let ascii = ascii_prefix(data, n);
    if n < 4 {
        return if ascii { DetectedFileType::Obj } else { DetectedFileType::Unknown };
    }
    if data[0] == 0x50 && data[1] == 0x4b && ((data[2] == 0x03 && data[3] == 0x04) || (data[2] == 0x05 && data[3] == 0x06)) {
        return DetectedFileType::Zip;
    }
    if data[0] == 0x67 && data[1] == 0x6c && data[2] == 0x54 && data[3] == 0x46 {
        return DetectedFileType::Glb;
    }
    if ascii {
        DetectedFileType::Obj
    } else {
        DetectedFileType::Unknown
    }
}

/// What `flate2::read::GzDecoder` decodes from `data`: `None` when decoding fails.
pub uninterp spec fn gunzipped(data: Seq<u8>) -> Option<Seq<u8>>;

/// `flate2::read::GzDecoder` read to the end: the decompressed content of a
/// GZIP stream, or `None` when it is not valid GZIP. The result is named
/// `gunzipped`; nothing more is claimed of it.
#[verifier::external_body]
fn gunzip(data: &[u8]) -> (r: Option<Vec<u8>>)
    ensures
        match r {
            Some(v) => gunzipped(data@) == Some(v@),
            None => gunzipped(data@) is None,
        },
{
    let mut decoder = flate2::read::GzDecoder::new(data);
    let mut out: Vec<u8> = Vec::new();
    match std::io::Read::read_to_end(&mut decoder, &mut out) {
        Ok(_) => Some(out),
        Err(_) => None,
    }
}

/// The content once GZIP wrapping is removed: nothing to do unless the
/// content is GZIP; one layer is removed, and a second one when the inner
/// content is GZIP again. `None` when a layer fails to decompress.
pub open spec fn unwrapped(d: Seq<u8>) -> Option<Seq<u8>> {
    if detected_type(d) != DetectedFileType::Gzip {
        Some(d)
    } else {
        match gunzipped(d) {
            None => None,
            Some(d1) => if detected_type(d1) != DetectedFileType::Gzip {
                Some(d1)
            } else {
                gunzipped(d1)
            },
        }
    }
}

/// The outer layer of `d` decompresses to GZIP content that itself fails
/// to decompress.
pub open spec fn inner_layer_fails(d: Seq<u8>) -> bool {
    &&& detected_type(d) == DetectedFileType::Gzip
    &&& gunzipped(d) matches Some(d1)
    &&& detected_type(d1) == DetectedFileType::Gzip
    &&& gunzipped(d1) is None
}

/// The error for content whose GZIP layers cannot all be removed: the inner
/// layer's own error where the outer one decompressed, else the outer one's.
pub open spec fn unwrap_error(d: Seq<u8>) -> DownloadError {
    if inner_layer_fails(d) {
        DownloadError::InnerDecompressFailed
    } else {
        DownloadError::DecompressFailed
    }
}

/// Removes up to two GZIP layers from downloaded content.
pub fn unwrap_gzip(data: Vec<u8>) -> (r: Result<Vec<u8>, DownloadError>)
    ensures
        match unwrapped(data@) {
            Some(d) => r matches Ok(v) && v@ == d,
            None => r matches Err(e) && e == unwrap_error(data@),
        },
{
    let t = detect_file_type(data.as_slice());
    if t != DetectedFileType::Gzip {
        return Ok(data);
    }
    let inner = match gunzip(data.as_slice()) {
        Some(v) => v,
        None => {
            return Err(DownloadError::DecompressFailed);
        },
    };
    let t1 = detect_file_type(inner.as_slice());
    if t1 != DetectedFileType::Gzip {
        return Ok(inner);
    }
    match gunzip(inner.as_slice()) {
        Some(v) => Ok(v),
        None => Err(DownloadError::InnerDecompressFailed),
    }
}

/// Post-processes downloaded content: removes GZIP layers, then tells the
/// type of what is left. Content that is still GZIP is refused.
pub fn classify_download(data: Vec<u8>) -> (r: Result<(DetectedFileType, Vec<u8>), DownloadError>)
    ensures
        match unwrapped(data@) {
            None => r matches Err(e) && e == unwrap_error(data@),
            Some(d) => if detected_type(d) == DetectedFileType::Gzip {
                r matches Err(DownloadError::StillCompressed)
            } else {
                r matches Ok((t, v)) && t == detected_type(d) && v@ == d
            },
        },
{
    let d = unwrap_gzip(data)?;
    let t = detect_file_type(d.as_slice());
    if t == DetectedFileType::Gzip {
        return Err(DownloadError::StillCompressed);
    }
    Ok((t, d))
}

/// `dir` joined with `name` as `std::path::Path::join` does with `/` as the
/// separator: an absolute `name` replaces `dir`; otherwise a separator is put
/// between them unless `dir` is empty or already ends with one.
pub open spec fn joined_path(dir: Seq<char>, name: Seq<char>) -> Seq<char> {
    if name.len() > 0 && name[0] == '/' {
        name
    } else if dir.len() == 0 {
        name
    } else if dir.last() == '/' {
        dir + name
    } else {
        dir + "/"@ + name
    }
}

/// Joins a directory and a relative (or absolute) file name.
pub fn join_path(dir: &str, name: &str) -> (p: String)
    ensures
        p@ == joined_path(dir@, name@),
{
    let d = chars_of(dir);
    let n = chars_of(name);
    if n.len() > 0 && n[0] == '/' {
        return String::from_str(name);
    }
    if d.len() == 0 {
        return String::from_str(name);
    }
    if d[d.len() - 1] == '/' {
        return concat(dir, name);
    }
    let mut p = concat(dir, "/");
    p.append(name);
    p
}

/// A file name that marks the mesh of an archive: it ends in `.obj` or
/// `.glb`, whatever the case.
pub open spec fn is_mesh_file(f: Seq<char>) -> bool {
    is_suffix(".obj"@, lowercased(f)) || is_suffix(".glb"@, lowercased(f))
}

/// The file to report as the model among the extracted files: the first mesh
/// file, else the first file, else the empty path.
pub open spec fn primary_of(files: Seq<Seq<char>>) -> Seq<char> {
    if exists|i: int| 0 <= i < files.len() && is_mesh_file(#[trigger] files[i]) {
        files[choose|i: int| 0 <= i < files.len() && is_mesh_file(#[trigger] files[i]) && forall|j: int| 0 <= j < i ==> !is_mesh_file(#[trigger] files[j])]
    } else if files.len() > 0 {
        files[0]
    } else {
        Seq::empty()
    }
}

fn mesh_file(f: &str) -> (b: bool)
    ensures
        b == is_mesh_file(f@),
{
    let low = to_lowercase(f);
    let cs = chars_of(low.as_str());
    let obj = chars_of(".obj");
    let glb = chars_of(".glb");
    ends_with(&cs, &obj) || ends_with(&cs, &glb)
}

/// Picks the model file among the extracted files.
pub fn primary_file(files: &Vec<String>) -> (p: String)
    ensures
        p@ == primary_of(views(files@)),
{
    let ghost fs = views(files@);
    let mut i: usize = 0;
    while i < files.len()
        invariant
            fs == views(files@),
            i <= files@.len(),
            forall|j: int| 0 <= j < i ==> !is_mesh_file(#[trigger] fs[j]),
        decreases files.len() - i,
    {
        if mesh_file(files[i].as_str()) {
            proof {
                let w = choose|k: int| 0 <= k < fs.len() && is_mesh_file(#[trigger] fs[k]) && forall|j: int| 0 <= j < k ==> !is_mesh_file(#[trigger] fs[j]);
                assert(0 <= i < fs.len() && is_mesh_file(fs[i as int]) && forall|j: int| 0 <= j < i ==> !is_mesh_file(#[trigger] fs[j]));
                if w < i {
                    assert(!is_mesh_file(fs[w]));
                }
                if w > i {
                    assert(!is_mesh_file(fs[i as int]));
                }
                assert(w == i);
            }
            return files[i].clone();
        }
        i = i + 1;
    }
    if files.len() > 0 {
        files[0].clone()
    } else {
        String::new()
    }
}


/// The files to write for a downloaded ZIP archive: each entry's destination
/// path and contents, in archive order, up to the first entry that cannot be
/// extracted; `failure` says why extraction stopped there, if it did.
pub struct ZipPlan {
    pub writes: Vec<(String, Vec<u8>)>,
    pub failure: Option<DownloadError>,
}

/// The name of an archive entry that opens.
pub open spec fn entry_name(e: Option<(Seq<char>, Option<Seq<u8>>)>) -> Seq<char> {
    match e {
        Some((name, _)) => name,
        None => Seq::empty(),
    }
}

/// The contents of an archive entry that opens.
pub open spec fn entry_data(e: Option<(Seq<char>, Option<Seq<u8>>)>) -> Option<Seq<u8>> {
    match e {
        Some((_, d)) => d,
        None => None,
    }
}

/// An archive entry that can be extracted: it opens, its name holds no `..`,
/// and its contents can be read.
pub open spec fn entry_ok(e: Option<(Seq<char>, Option<Seq<u8>>)>) -> bool {
    e matches Some((name, Some(_))) && !escapes(name)
}

/// An entry name that could be written outside the extraction directory: it
/// holds `..`, or it is absolute (starts with `/`).
pub open spec fn escapes(name: Seq<char>) -> bool {
    has_double_dot(name) || (name.len() > 0 && name[0] == '/')
}

/// `f` is the error for the archive entry `e` at index `k`: an entry that does
/// not open, or whose contents cannot be read, is a bad entry; a name holding
/// `..` is refused as path traversal (before its contents are read).
pub open spec fn entry_failure(f: DownloadError, e: Option<(Seq<char>, Option<Seq<u8>>)>, k: int) -> bool {
    match e {
        None => f == DownloadError::BadEntry { index: k as usize },
        Some((name, d)) => if escapes(name) {
            f matches DownloadError::Traversal { name: n } && n@ == name
        } else {
            d is None && f == DownloadError::BadEntry { index: k as usize }
        },
    }
}

/// Plans the extraction of a downloaded ZIP archive into `out_dir`, guarding
/// against ZipSlip: an entry whose name holds `..` or is absolute stops the
/// extraction, so every planned write lies within `out_dir`.
pub fn zip_extraction_plan(out_dir: &str, data: Vec<u8>) -> (r: Result<ZipPlan, DownloadError>)
    ensures
        match zip_parse(data@) {
            None => r matches Err(DownloadError::BadArchive),
            Some(es) => r matches Ok(plan) && {
                let k = plan.writes@.len();
                &&& k <= es.len()
                &&& forall|i: int| 0 <= i < k ==> {
                    &&& entry_ok(#[trigger] es[i])
                    &&& plan.writes@[i].0@ == joined_path(out_dir@, entry_name(es[i]))
                    &&& entry_data(es[i]) == Some(plan.writes@[i].1@)
                    &&& lies_within(plan.writes@[i].0@, out_dir@)
                }
                &&& k == es.len() ==> plan.failure is None
                &&& k < es.len() ==> (plan.failure matches Some(f) && entry_failure(f, es[k as int], k as int))
            },
        },
{
    let ghost bytes_in = data@;
    let mut archive = match zip_open(data) {
        Some(a) => a,
        None => {
            return Err(DownloadError::BadArchive);
        },
    };
    let ghost es = zip_contents(archive);
    let n = zip_len(&archive);
    let mut writes: Vec<(String, Vec<u8>)> = Vec::new();
    let mut i: usize = 0;
    while i < n
        invariant
            zip_parse(bytes_in) == Some(es),
            bytes_in == data@,
            zip_contents(archive) == es,
            n == es.len(),
            i <= n,
            writes@.len() == i,
            forall|j: int| 0 <= j < i ==> {
                &&& entry_ok(#[trigger] es[j])
                &&& writes@[j].0@ == joined_path(out_dir@, entry_name(es[j]))
                &&& entry_data(es[j]) == Some(writes@[j].1@)
                &&& lies_within(writes@[j].0@, out_dir@)
            },
        decreases n - i,
    {
        match zip_entry(&mut archive, i) {
            None => {
                return Ok(ZipPlan { writes, failure: Some(DownloadError::BadEntry { index: i }) });
            },
            Some((name, contents)) => {
                let cs = chars_of(name.as_str());
                if contains_double_dot(&cs) || (cs.len() > 0 && cs[0] == '/') {
                    return Ok(ZipPlan { writes, failure: Some(DownloadError::Traversal { name }) });
                }
                match contents {
                    None => {
                        return Ok(ZipPlan { writes, failure: Some(DownloadError::BadEntry { index: i }) });
                    },
                    Some(bytes) => {
                        let dest = join_path(out_dir, name.as_str());
                        proof {
                            crate::laws::law_relative_entries_lie_within(out_dir@, name@);
                        }
                        writes.push((dest, bytes));
                    },
                }
            },
        }
        i = i + 1;
    }
    Ok(ZipPlan { writes, failure: None })
}

/// The paths of the files a plan writes, in order.
pub fn planned_paths(plan: &ZipPlan) -> (paths: Vec<String>)
    ensures
        paths@.len() == plan.writes@.len(),
        forall|k: int| 0 <= k < paths@.len() ==> #[trigger] paths@[k]@ == plan.writes@[k].0@,
{
    let mut paths: Vec<String> = Vec::new();
    let mut i: usize = 0;
    while i < plan.writes.len()
        invariant
            i <= plan.writes@.len(),
            paths@.len() == i,
            forall|k: int| 0 <= k < i ==> #[trigger] paths@[k]@ == plan.writes@[k].0@,
        decreases plan.writes.len() - i,
    {
        paths.push(plan.writes[i].0.clone());
        i = i + 1;
    }
    paths
}


/// The result of a download that was a ZIP archive: the extracted files, and
/// among them the model file.
pub fn archive_result(extracted: Vec<String>) -> (r: DownloadResult)
    ensures
        r.primary_path@ == primary_of(views(extracted@)),
        r.extracted@ == extracted@,
{
    let primary_path = primary_file(&extracted);
    DownloadResult { primary_path, extracted }
}

/// The result of a download saved as a single file at `output_path`.
pub fn single_file_result(output_path: String) -> (r: DownloadResult)
    ensures
        r.primary_path == output_path,
        r.extracted@.len() == 0,
{
    DownloadResult { primary_path: output_path, extracted: Vec::new() }
}


/// `path` lies in `base`, as `std::path::Path::starts_with` tells for
/// canonical paths: both are absolute or both relative, and the segments of
/// `base` begin the segments of `path`.
pub open spec fn lies_within(path: Seq<char>, base: Seq<char>) -> bool {
    &&& (path.len() > 0 && path[0] == '/') == (base.len() > 0 && base[0] == '/')
    &&& segments(base).len() <= segments(path).len()
    &&& segments(path).subrange(0, segments(base).len() as int) == segments(base)
}

/// Whether the canonical path `path` lies in the canonical directory `base`.
pub fn path_within(path: &str, base: &str) -> (b: bool)
    ensures
        b == lies_within(path@, base@),
{
    let p = chars_of(path);
    let d = chars_of(base);
    let p_abs = p.len() > 0 && p[0] == '/';
    let d_abs = d.len() > 0 && d[0] == '/';
    if p_abs != d_abs {
        return false;
    }
    let ps = split_segments(p);
    let ds = split_segments(d);
    if ds.len() > ps.len() {
        return false;
    }
    let mut i: usize = 0;
    while i < ds.len()
        invariant
            ds@.len() <= ps@.len(),
            ps@.len() == segments(path@).len(),
            ds@.len() == segments(base@).len(),
            forall|k: int| 0 <= k < ps@.len() ==> #[trigger] ps@[k]@ == segments(path@)[k],
            forall|k: int| 0 <= k < ds@.len() ==> #[trigger] ds@[k]@ == segments(base@)[k],
            i <= ds@.len(),
            forall|k: int| 0 <= k < i ==> segments(path@)[k] == segments(base@)[k],
        decreases ds.len() - i,
    {
        if !same_chars(&ps[i], &ds[i]) {
            assert(segments(path@).subrange(0, segments(base@).len() as int)[i as int] != segments(base@)[i as int]);
            return false;
        }
        i = i + 1;
    }
    assert(segments(path@).subrange(0, segments(base@).len() as int) =~= segments(base@));
    true
}


/// The directory a ZIP download is extracted into: what precedes the last
/// `/` of the output path (`/` itself for a file at the root), or `.` for a
/// bare file name.
pub open spec fn extraction_dir_of(output_path: Seq<char>) -> Seq<char> {
    let i = last_index(output_path, '/');
    if i < 0 {
        "."@
    } else if i == 0 {
        "/"@
    } else {
        output_path.subrange(0, i)
    }
}

/// Chooses the directory a ZIP download is extracted into.
pub fn extraction_dir(output_path: &str) -> (d: String)
    ensures
        d@ == extraction_dir_of(output_path@),
{
    let cs = chars_of(output_path);
    proof {
        lemma_last_index(output_path@, '/');
    }
    match find_last(&cs, '/') {
        None => String::from_str("."),
        Some(i) => if i == 0 {
            String::from_str("/")
        } else {
            string_of(&slice_chars(&cs, 0, i))
        },
    }
}

} // verus!
