//! Input hardening: avatar identifiers, URLs, photo counts and photo paths.
use vstd::prelude::*;

use vstd::utf8::encode_utf8;

use crate::text::{segments, split_segments, spells, chars_of, contains_char, contains_double_dot, has_char, has_double_dot, is_prefix, starts_with};

verus! {

/// Longest avatar identifier accepted, in characters.
pub const MAX_ID_LEN: usize = 128;

/// Longest URL accepted, in bytes.
pub const MAX_URL_LEN: usize = 4096;

/// Fewest photos the reconstruction API takes.
pub const MIN_PHOTOS: usize = 2;

/// Most photos the reconstruction API takes.
pub const MAX_PHOTOS: usize = 15;

/// Why an input was refused.
#[derive(Debug, Clone, PartialEq, Eq)]
pub enum ValidationError {
    /// The avatar identifier is empty.
    EmptyId,
    /// The avatar identifier is longer than `MAX_ID_LEN` characters; `len` is its length in characters.
    IdTooLong { len: usize },
    /// The avatar identifier holds a control character; `code` is the first one.
    ControlChar { code: u32 },
    /// The avatar identifier holds one of `? # % / \`; `ch` is the first of
    /// them, in that order, that it holds.
    ForbiddenChar { ch: char },
    /// The avatar identifier holds `..`.
    PathTraversal,
    /// The URL does not start with `https://`.
    NotHttps,
    /// The URL holds a control character (such as CR or LF); `code` is the first one.
    UrlControlChar { code: u32 },
    /// The URL is longer than `MAX_URL_LEN` bytes; `len` is its byte length.
    UrlTooLong { len: usize },
    /// The photo count lies outside 2..=15.
    PhotoCount { count: usize },
    /// The photo path cannot be resolved; `reason` says why.
    CannotAccess { reason: String },
    /// The photo path resolves to something that is not a regular file.
    NotAFile,
    /// The photo path has a `..` component.
    ParentComponent,
}

/// The first control character (code below 0x20) of `s` at or after `i`.
pub open spec fn first_control_from(s: Seq<char>, i: int) -> Option<char>
    decreases s.len() - i,
{
    if i < 0 || i >= s.len() {
        None
    } else if (s[i] as u32) < 0x20 {
        Some(s[i])
    } else {
        first_control_from(s, i + 1)
    }
}

/// The first control character of `s`, if any.
pub open spec fn first_control(s: Seq<char>) -> Option<char> {
    first_control_from(s, 0)
}

/// The first of `? # % / \` (in that order) that `s` holds, if any.
pub open spec fn first_forbidden(s: Seq<char>) -> Option<char> {
    if has_char(s, '?') {
        Some('?')
    } else if has_char(s, '#') {
        Some('#')
    } else if has_char(s, '%') {
        Some('%')
    } else if has_char(s, '/') {
        Some('/')
    } else if has_char(s, '\\') {
        Some('\\')
    } else {
        None
    }
}

/// The verdict on an avatar identifier with characters `id`: `None` when it
/// is accepted, else the first rule it breaks.
pub open spec fn avatar_id_verdict(id: Seq<char>) -> Option<ValidationError> {
    if id.len() == 0 {
        Some(ValidationError::EmptyId)
    } else if id.len() > MAX_ID_LEN {
        Some(ValidationError::IdTooLong { len: id.len() as usize })
    } else if first_control(id) is Some {
        Some(ValidationError::ControlChar { code: first_control(id)->0 as u32 })
    } else if first_forbidden(id) is Some {
        Some(ValidationError::ForbiddenChar { ch: first_forbidden(id)->0 })
    } else if has_double_dot(id) {
        Some(ValidationError::PathTraversal)
    } else {
        None
    }
}

/// `Ok` when the verdict is `None`, else the error it names.
pub open spec fn verdict_result(v: Option<ValidationError>) -> Result<(), ValidationError> {
    match v {
        None => Ok(()),
        Some(e) => Err(e),
    }
}

/// The UTF-8 length of `s` in bytes, as `str::len` reports it.
pub open spec fn str_len(s: Seq<char>) -> nat {
    (encode_utf8(s).len() as usize) as nat
}

/// The verdict on an avatar identifier with characters `id`.
pub open spec fn avatar_id_check(id: Seq<char>) -> Option<ValidationError> {
    avatar_id_verdict(id)
}

/// An avatar identifier is accepted: non-empty, at most 128 characters, no control
/// character, none of `? # % / \`, and no `..`.
pub open spec fn valid_avatar_id(id: Seq<char>) -> bool {
    avatar_id_check(id) is None
}

/// Which rule a URL with characters `url` and byte length `len` breaks, if
/// any: it must start with `https://`, hold no control character (an
/// injection of CR LF, for one) and be at most 4096 bytes long.
pub open spec fn https_url_verdict(url: Seq<char>, len: nat) -> Option<ValidationError> {
    if !is_prefix("https://"@, url) {
        Some(ValidationError::NotHttps)
    } else if first_control(url) is Some {
        Some(ValidationError::UrlControlChar { code: first_control(url)->0 as u32 })
    } else if len > MAX_URL_LEN {
        Some(ValidationError::UrlTooLong { len: len as usize })
    } else {
        None
    }
}

/// The verdict on a URL with characters `url`.
pub open spec fn https_url_check(url: Seq<char>) -> Option<ValidationError> {
    https_url_verdict(url, str_len(url))
}

/// A URL is accepted.
pub open spec fn valid_https_url(url: Seq<char>) -> bool {
    https_url_check(url) is None
}

/// Which rule a photo count breaks, if any: it must lie in 2..=15.
pub open spec fn photo_count_verdict(count: usize) -> Option<ValidationError> {
    if count < MIN_PHOTOS || count > MAX_PHOTOS {
        Some(ValidationError::PhotoCount { count })
    } else {
        None
    }
}

fn first_control_char(id: &Vec<char>) -> (r: Option<char>)
    ensures
        r == first_control(id@),
{
    let mut i: usize = 0;
    while i < id.len()
        invariant
            i <= id@.len(),
            first_control_from(id@, 0) == first_control_from(id@, i as int),
        decreases id.len() - i,
    {
        if (id[i] as u32) < 0x20 {
            return Some(id[i]);
        }
        i = i + 1;
    }
    None
}

/// Validates an avatar identifier against common hallucination and injection
/// patterns: empty, too long (more than 128 characters), control characters, `? # % / \`,
/// and the traversal sequence `..`. Rules are tried in that order.
pub fn avatar_id(id: &str) -> (r: Result<(), ValidationError>)
    ensures
        r == verdict_result(avatar_id_check(id@)),
{
    let cs = chars_of(id);
    if cs.len() == 0 {
        return Err(ValidationError::EmptyId);
    }
    let len = cs.len();
    if len > MAX_ID_LEN {
        return Err(ValidationError::IdTooLong { len });
    }
    match first_control_char(&cs) {
        Some(c) => {
            return Err(ValidationError::ControlChar { code: c as u32 });
        },
        None => {},
    }
    if contains_char(&cs, '?') {
        return Err(ValidationError::ForbiddenChar { ch: '?' });
    }
    if contains_char(&cs, '#') {
        return Err(ValidationError::ForbiddenChar { ch: '#' });
    }
    if contains_char(&cs, '%') {
        return Err(ValidationError::ForbiddenChar { ch: '%' });
    }
    if contains_char(&cs, '/') {
        return Err(ValidationError::ForbiddenChar { ch: '/' });
    }
    if contains_char(&cs, '\\') {
        return Err(ValidationError::ForbiddenChar { ch: '\\' });
    }
    if contains_double_dot(&cs) {
        return Err(ValidationError::PathTraversal);
    }
    Ok(())
}

/// The characters of `https://`.
fn https_prefix() -> (v: Vec<char>)
    ensures
        v@ == "https://"@,
{
    let p = "https://";
    proof {
        reveal_strlit("https://");
    }
    chars_of(p)
}

/// Validates that a URL uses HTTPS, holds no control character (no CR LF
/// injection) and is at most 4096 bytes long.
pub fn https_url(url: &str) -> (r: Result<(), ValidationError>)
    ensures
        r == verdict_result(https_url_check(url@)),
{
    let cs = chars_of(url);
    let p = https_prefix();
    if !starts_with(&cs, &p) {
        return Err(ValidationError::NotHttps);
    }
    match first_control_char(&cs) {
        Some(c) => {
            return Err(ValidationError::UrlControlChar { code: c as u32 });
        },
        None => {},
    }
    let len = url.len();
    if len > MAX_URL_LEN {
        return Err(ValidationError::UrlTooLong { len });
    }
    Ok(())
}

/// Validates that a photo count lies within the API limits (2–15).
pub fn photo_count(count: usize) -> (r: Result<(), ValidationError>)
    ensures
        r == verdict_result(photo_count_verdict(count)),
{
    if count < MIN_PHOTOS || count > MAX_PHOTOS {
        return Err(ValidationError::PhotoCount { count });
    }
    Ok(())
}

/// A path with a `..` component, which climbs out of where it points.
pub open spec fn has_parent_component(path: Seq<char>) -> bool {
    segments(path).contains(".."@)
}

/// Whether a path has a `..` component.
pub fn parent_component(path: &str) -> (b: bool)
    ensures
        b == has_parent_component(path@),
{
    let segs = split_segments(chars_of(path));
    let mut i: usize = 0;
    while i < segs.len()
        invariant
            segs@.len() == segments(path@).len(),
            forall|k: int| 0 <= k < segs@.len() ==> #[trigger] segs@[k]@ == segments(path@)[k],
            i <= segs@.len(),
            forall|k: int| 0 <= k < i ==> segments(path@)[k] != ".."@,
        decreases segs.len() - i,
    {
        if spells(&segs[i], "..") {
            assert(segments(path@)[i as int] == ".."@);
            return true;
        }
        i = i + 1;
    }
    false
}

/// `r` is an outcome `photo_path` can give for `path`: a path with a `..`
/// component is refused as traversal without looking at the file system;
/// any other path is accepted, cannot be accessed, or is not a regular file,
/// as the file system says.
pub open spec fn photo_outcome_fits(path: Seq<char>, r: Result<(), ValidationError>) -> bool {
    if has_parent_component(path) {
        r == Err::<(), ValidationError>(ValidationError::ParentComponent)
    } else {
        r is Ok || r matches Err(ValidationError::CannotAccess { .. })
            || r == Err::<(), ValidationError>(ValidationError::NotAFile)
    }
}

/// The verdict on a photo path: a `..` component is refused; otherwise the
/// verdict follows what the file system reported, the canonical form of the
/// path (or why it could not be had) and whether that canonical path is a
/// regular file.
pub fn photo_path_verdict(path: &str, canonical: Result<String, String>, is_file: bool) -> (r: Result<(), ValidationError>)
    ensures
        has_parent_component(path@) ==> r == Err::<(), ValidationError>(ValidationError::ParentComponent),
        !has_parent_component(path@) ==> match canonical {
            Err(reason) => r == Err::<(), ValidationError>(ValidationError::CannotAccess { reason }),
            Ok(_) => r == (if is_file { Ok::<(), ValidationError>(()) } else { Err(ValidationError::NotAFile) }),
        },
{
    if parent_component(path) {
        return Err(ValidationError::ParentComponent);
    }
    match canonical {
        Err(reason) => Err(ValidationError::CannotAccess { reason }),
        Ok(_) => if is_file {
            Ok(())
        } else {
            Err(ValidationError::NotAFile)
        },
    }
}

/// `std::path::Path::canonicalize`: the absolute path with all links resolved,
/// or the text of the I/O error. What it returns depends on the file system,
/// so nothing is stated of it.
#[verifier::external_body]
fn canonicalize(path: &str) -> Result<String, String> {
    match std::path::Path::new(path).canonicalize() {
        Ok(p) => Ok(p.to_string_lossy().into_owned()),
        Err(e) => Err(e.to_string()),
    }
}

/// `std::path::Path::is_file`: whether the path names a regular file now.
/// It depends on the file system, so nothing is stated of it.
#[verifier::external_body]
fn is_regular_file(path: &str) -> bool {
    std::path::Path::new(path).is_file()
}

/// Validates that a photo path is safe (no `..` component), can be resolved
/// and names a regular file. The file system is asked only about a path
/// without `..`.
pub fn photo_path(path: &str) -> (r: Result<(), ValidationError>)
    ensures
        photo_outcome_fits(path@, r),
{
    if parent_component(path) {
        return Err(ValidationError::ParentComponent);
    }
    let canonical = canonicalize(path);
    let file = match &canonical {
        Ok(c) => is_regular_file(c.as_str()),
        Err(_) => false,
    };
    photo_path_verdict(path, canonical, file)
}

} // verus!
