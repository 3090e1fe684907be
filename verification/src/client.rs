//! The pieces of the HTTP client that decide rather than transfer: API
//! endpoint paths, the reading of response status codes, and the content type
//! sent with an uploaded photo.
use vstd::prelude::*;

use crate::text::{chars_of, concat, find_last, last_index, lemma_last_index, slice_chars, spells};

verus! {

/// An error answer of the API, by status code.
#[derive(Debug, Clone, PartialEq, Eq)]
pub enum ApiError {
    /// 401 or 403: the token was refused.
    Auth { status: u16, body: String },
    /// 404: no such avatar (or it was ephemeral and is gone).
    NotFound { body: String },
    /// 422: the reconstruction failed.
    ReconstructionFailed { body: String },
    /// 425: the avatar is not ready yet.
    NotReady { body: String },
    /// Any other non-success status.
    Other { status: u16, body: String },
}

/// A status code in 200..=299.
pub open spec fn success_status(status: u16) -> bool {
    200 <= status <= 299
}

/// The error that a non-success status and its body stand for.
pub open spec fn api_error_of(status: u16, body: String) -> ApiError {
    if status == 401 || status == 403 {
        ApiError::Auth { status, body }
    } else if status == 404 {
        ApiError::NotFound { body }
    } else if status == 422 {
        ApiError::ReconstructionFailed { body }
    } else if status == 425 {
        ApiError::NotReady { body }
    } else {
        ApiError::Other { status, body }
    }
}

/// Maps an error status of the API to the error it stands for.
pub fn map_api_error(status: u16, body: String) -> (e: ApiError)
    ensures
        e == api_error_of(status, body),
{
    if status == 401 || status == 403 {
        ApiError::Auth { status, body }
    } else if status == 404 {
        ApiError::NotFound { body }
    } else if status == 422 {
        ApiError::ReconstructionFailed { body }
    } else if status == 425 {
        ApiError::NotReady { body }
    } else {
        ApiError::Other { status, body }
    }
}

/// Reads a response: a success status hands the body on to be parsed, any
/// other status becomes the error it stands for.
pub fn handle_response(status: u16, body: String) -> (r: Result<String, ApiError>)
    ensures
        success_status(status) ==> r == Ok::<String, ApiError>(body),
        !success_status(status) ==> r == Err::<String, ApiError>(api_error_of(status, body)),
{
    if 200 <= status && status <= 299 {
        Ok(body)
    } else {
        Err(map_api_error(status, body))
    }
}

/// The full URL of an API path: the base URL followed by the path.
pub fn endpoint_url(base_url: &str, path: &str) -> (u: String)
    ensures
        u@ == base_url@ + path@,
{
    concat(base_url, path)
}

/// The value of the `Authorization` header: `Bearer <token>`.
pub fn bearer_value(token: &str) -> (v: String)
    ensures
        v@ == "Bearer "@ + token@,
{
    concat("Bearer ", token)
}

/// The API path of an action on an avatar: `/v1/avatar/{id}/{action}`.
pub open spec fn avatar_path_of(avatar_id: Seq<char>, action: Seq<char>) -> Seq<char> {
    "/v1/avatar/"@ + avatar_id + "/"@ + action
}

/// Builds `/v1/avatar/{id}/{action}`.
pub fn avatar_path(avatar_id: &str, action: &str) -> (p: String)
    ensures
        p@ == avatar_path_of(avatar_id@, action@),
{
    let mut p = concat("/v1/avatar/", avatar_id);
    p.append("/");
    p.append(action);
    p
}

/// The last component of a `/`-separated path, as `std::path::Path::file_name`
/// gives it: empty and `.` components are skipped, and a final `..` has none.
pub open spec fn file_name(p: Seq<char>) -> Option<Seq<char>>
    decreases p.len(),
{
    if p.len() == 0 {
        None
    } else {
        let i = last_index(p, '/');
        let seg = p.subrange(i + 1, p.len() as int);
        if seg.len() == 0 || seg == "."@ {
            if i < 0 {
                None
            } else {
                proof {
                    lemma_last_index(p, '/');
                }
                file_name(p.subrange(0, i))
            }
        } else if seg == ".."@ {
            None
        } else {
            Some(seg)
        }
    }
}

/// The extension of a file name, as `std::path::Path::extension` gives it:
/// what follows the last `.`, unless there is no `.` or the only one leads.
pub open spec fn name_extension(name: Seq<char>) -> Option<Seq<char>> {
    let d = last_index(name, '.');
    if d <= 0 {
        None
    } else {
        Some(name.subrange(d + 1, name.len() as int))
    }
}

/// The extension of a path's file name.
pub open spec fn path_extension(p: Seq<char>) -> Option<Seq<char>> {
    match file_name(p) {
        Some(n) => name_extension(n),
        None => None,
    }
}

/// The content type sent for a photo with the given extension.
pub open spec fn mime_for(ext: Option<Seq<char>>) -> Seq<char> {
    match ext {
        Some(e) => if e == "jpg"@ || e == "jpeg"@ {
            "image/jpeg"@
        } else if e == "png"@ {
            "image/png"@
        } else if e == "heic"@ || e == "heif"@ {
            "image/heic"@
        } else {
            "application/octet-stream"@
        },
        None => "application/octet-stream"@,
    }
}

fn file_name_chars(p: Vec<char>) -> (r: Option<Vec<char>>)
    ensures
        match r {
            Some(n) => file_name(p@) == Some(n@),
            None => file_name(p@) is None,
        },
    decreases p@.len(),
{
    if p.len() == 0 {
        return None;
    }
    let found = find_last(&p, '/');
    proof {
        lemma_last_index(p@, '/');
    }
    let start: usize = match found {
        Some(i) => i + 1,
        None => 0,
    };
    let seg = slice_chars(&p, start, p.len());
    if seg.len() == 0 || spells(&seg, ".") {
        match found {
            None => None,
            Some(i) => {
                let rest = slice_chars(&p, 0, i);
                file_name_chars(rest)
            },
        }
    } else if spells(&seg, "..") {
        None
    } else {
        Some(seg)
    }
}

/// The file name of a path, as `std::path::Path::file_name` gives it.
pub fn file_name_of(path: &str) -> (r: Option<String>)
    ensures
        match r {
            Some(n) => file_name(path@) == Some(n@),
            None => file_name(path@) is None,
        },
{
    match file_name_chars(chars_of(path)) {
        Some(n) => Some(crate::text::string_of(&n)),
        None => None,
    }
}

fn extension_chars(name: &Vec<char>) -> (r: Option<Vec<char>>)
    ensures
        match r {
            Some(e) => name_extension(name@) == Some(e@),
            None => name_extension(name@) is None,
        },
{
    proof {
        lemma_last_index(name@, '.');
    }
    let n = name.len();
    match find_last(name, '.') {
        None => None,
        Some(d) => if d == 0 {
            None
        } else {
            Some(slice_chars(name, d + 1, n))
        },
    }
}

/// The content type for an uploaded photo, from the extension of its path:
/// `jpg`/`jpeg`, `png`, `heic`/`heif`, else `application/octet-stream`.
pub fn guess_mime(path: &str) -> (m: &'static str)
    ensures
        m@ == mime_for(path_extension(path@)),
{
    let p = chars_of(path);
    let ext = match file_name_chars(p) {
        Some(n) => extension_chars(&n),
        None => None,
    };
    match ext {
        Some(e) => {
            if spells(&e, "jpg") || spells(&e, "jpeg") {
                "image/jpeg"
            } else if spells(&e, "png") {
                "image/png"
            } else if spells(&e, "heic") || spells(&e, "heif") {
                "image/heic"
            } else {
                "application/octet-stream"
            }
        },
        None => "application/octet-stream",
    }
}

} // verus!
