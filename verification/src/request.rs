//! The request bodies of `init`, `process`, `run` and `ephemeral`, built from
//! the command-line arguments after they are checked.
use vstd::prelude::*;

use crate::cli::{focal_api_str, FocalLengthType};
use crate::client::{avatar_path, avatar_path_of};
use crate::download::views;
use crate::json::{array, entries_view, field, items_view, json_view, lemma_items_view_push, object, text, text_owned, JsonSpec, JsonValue};
use crate::text::{chars_of, find_first, first_index, lemma_first_index, lowercased, slice_chars, string_of, to_lowercase};
use crate::validate::{avatar_id, avatar_id_check, https_url, https_url_check, photo_count, photo_count_verdict, ValidationError};

verus! {

/// Why the arguments of a command were refused before any request was made.
#[derive(Debug)]
pub enum InputError {
    /// An avatar ID, URL, photo count or photo path was refused.
    Invalid(ValidationError),
    /// `--focal-length-type=manual` without `--focal-lengths`.
    MissingFocalLengths,
    /// `--focal-lengths` given but empty.
    EmptyFocalLengths,
    /// `upload` without `--urls`.
    MissingUploadUrls,
    /// `upload` with a different number of URLs and photos.
    UrlCountMismatch { urls: usize, photos: usize },
    /// A `--result-url` without the `FORMAT:` part.
    BadResultUrl { entry: String },
    /// `ephemeral` without any `--result-url`.
    NoResultUrl,
}

/// The focal lengths given, as IEEE-754 single-precision bit patterns; none
/// when the flag is absent.
pub open spec fn focal_values(v: Option<Vec<u32>>) -> Seq<u32> {
    match v {
        Some(xs) => xs@,
        None => Seq::empty(),
    }
}

/// The JSON array of the numbers with bit patterns `bits`.
pub open spec fn floats_spec(bits: Seq<u32>) -> JsonSpec {
    JsonSpec::Array(bits.map_values(|b: u32| JsonSpec::Float(b)))
}

/// The JSON array of the strings `xs`.
pub open spec fn texts_spec(xs: Seq<Seq<char>>) -> JsonSpec {
    JsonSpec::Array(xs.map_values(|x: Seq<char>| JsonSpec::Str(x)))
}

/// The focal-length members of a request: the mode and, in manual mode, the values.
pub open spec fn focal_spec(t: FocalLengthType, values: Seq<u32>) -> Seq<(Seq<char>, JsonSpec)> {
    if t == FocalLengthType::Manual {
        seq![("focal_length_type"@, JsonSpec::Str("manual"@)), ("focal_length_values"@, floats_spec(values))]
    } else {
        seq![("focal_length_type"@, JsonSpec::Str(focal_api_str(t)))]
    }
}

fn float_array(bits: &Vec<u32>) -> (v: JsonValue)
    ensures
        json_view(v) == floats_spec(bits@),
{
    let mut items: Vec<JsonValue> = Vec::new();
    let mut i: usize = 0;
    while i < bits.len()
        invariant
            i <= bits@.len(),
            items_view(items@) == bits@.subrange(0, i as int).map_values(|b: u32| JsonSpec::Float(b)),
        decreases bits.len() - i,
    {
        let x = JsonValue::Float { bits: bits[i] };
        proof {
            lemma_items_view_push(items@, x);
            assert(bits@.subrange(0, i + 1).map_values(|b: u32| JsonSpec::Float(b)) =~= bits@.subrange(0, i as int).map_values(|b: u32| JsonSpec::Float(b)).push(JsonSpec::Float(bits@[i as int])));
        }
        items.push(x);
        i = i + 1;
    }
    assert(bits@.subrange(0, bits@.len() as int) =~= bits@);
    array(items)
}

/// The JSON array of the given strings.
pub fn text_array(xs: &Vec<String>) -> (v: JsonValue)
    ensures
        json_view(v) == texts_spec(views(xs@)),
{
    let mut items: Vec<JsonValue> = Vec::new();
    let mut i: usize = 0;
    while i < xs.len()
        invariant
            i <= xs@.len(),
            items_view(items@) == views(xs@.subrange(0, i as int)).map_values(|x: Seq<char>| JsonSpec::Str(x)),
        decreases xs.len() - i,
    {
        let x = text(xs[i].as_str());
        proof {
            lemma_items_view_push(items@, x);
            assert(views(xs@.subrange(0, i + 1)).map_values(|x: Seq<char>| JsonSpec::Str(x)) =~= views(xs@.subrange(0, i as int)).map_values(|x: Seq<char>| JsonSpec::Str(x)).push(JsonSpec::Str(xs@[i as int]@)));
        }
        items.push(x);
        i = i + 1;
    }
    assert(xs@.subrange(0, xs@.len() as int) =~= xs@);
    array(items)
}

/// The focal-length members, or the error for manual mode without values.
fn focal_members(t: FocalLengthType, values: &Option<Vec<u32>>) -> (r: Result<Vec<(String, JsonValue)>, InputError>)
    ensures
        t == FocalLengthType::Manual && values is None ==> r matches Err(InputError::MissingFocalLengths),
        !(t == FocalLengthType::Manual && values is None) ==> (r matches Ok(es) && entries_view(es@) == focal_spec(t, focal_values(*values))),
{
    let mut es: Vec<(String, JsonValue)> = Vec::new();
    match t {
        FocalLengthType::Manual => match values {
            None => {
                return Err(InputError::MissingFocalLengths);
            },
            Some(v) => {
                es.push(field("focal_length_type", text("manual")));
                es.push(field("focal_length_values", float_array(v)));
            },
        },
        _ => {
            es.push(field("focal_length_type", text(t.as_api_str())));
        },
    }
    assert(entries_view(es@) =~= focal_spec(t, focal_values(*values)));
    Ok(es)
}

/// Arguments of `init`.
pub struct InitArgs {
    /// Number of photos to upload (2–15).
    pub count: usize,
    /// Validate locally without calling the API.
    pub dry_run: bool,
}

/// The answer of `/v1/avatar/init`.
pub struct InitResponse {
    pub avatar_id: String,
    pub img_urls: Vec<String>,
}

/// The body of `/v1/avatar/init`: `{"image_count": n}`.
pub open spec fn init_body_spec(count: nat) -> JsonSpec {
    JsonSpec::Object(seq![("image_count"@, JsonSpec::Int(count as int))])
}

/// Checks the photo count of `init` and builds the request body.
pub fn init_request(args: &InitArgs) -> (r: Result<JsonValue, InputError>)
    ensures
        match photo_count_verdict(args.count) {
            Some(e) => r matches Err(InputError::Invalid(x)) && x == e,
            None => r matches Ok(body) && json_view(body) == init_body_spec(args.count as nat),
        },
{
    match photo_count(args.count) {
        Err(e) => {
            return Err(InputError::Invalid(e));
        },
        Ok(()) => {},
    }
    let n: i64 = args.count as i64;
    let es = vec![field("image_count", JsonValue::Int(n))];
    assert(entries_view(es@) =~= seq![("image_count"@, JsonSpec::Int(args.count as int))]);
    Ok(object(es))
}

/// Arguments of `process`. The focal lengths are carried as their IEEE-754
/// single-precision bit patterns.
pub struct ProcessArgs {
    pub avatar_id: String,
    pub focal_length_type: FocalLengthType,
    pub focal_lengths: Option<Vec<u32>>,
    pub expressions: bool,
    pub dry_run: bool,
}

/// The body of `/v1/avatar/{id}/process`: the focal-length mode nested twice
/// under `focal_length_type`, and the expressions flag.
pub open spec fn process_body_spec(t: FocalLengthType, values: Seq<u32>, expressions: bool) -> JsonSpec {
    JsonSpec::Object(seq![
        ("focal_length_type"@, JsonSpec::Object(seq![("focal_length_type"@, JsonSpec::Object(focal_spec(t, values)))])),
        ("expressions_enabled"@, JsonSpec::Bool(expressions)),
    ])
}

/// Checks the arguments of `process` and builds its request: the avatar ID
/// first, then the focal lengths (required and non-empty in manual mode).
pub fn process_request(args: &ProcessArgs) -> (r: Result<(String, JsonValue), InputError>)
    ensures
        match avatar_id_check(args.avatar_id@) {
            Some(e) => r matches Err(InputError::Invalid(x)) && x == e,
            None => if args.focal_length_type == FocalLengthType::Manual && args.focal_lengths is None {
                r matches Err(InputError::MissingFocalLengths)
            } else if args.focal_length_type == FocalLengthType::Manual && focal_values(args.focal_lengths).len() == 0 {
                r matches Err(InputError::EmptyFocalLengths)
            } else {
                r matches Ok((path, body)) && path@ == avatar_path_of(args.avatar_id@, "process"@)
                    && json_view(body) == process_body_spec(args.focal_length_type, focal_values(args.focal_lengths), args.expressions)
            },
        },
{
    match avatar_id(args.avatar_id.as_str()) {
        Err(e) => {
            return Err(InputError::Invalid(e));
        },
        Ok(()) => {},
    }
    let body = build_focal_payload(args.focal_length_type, &args.focal_lengths, args.expressions)?;
    if args.focal_length_type == FocalLengthType::Manual {
        match &args.focal_lengths {
            Some(v) => if v.len() == 0 {
                return Err(InputError::EmptyFocalLengths);
            },
            None => {},
        }
    }
    Ok((avatar_path(args.avatar_id.as_str(), "process"), body))
}

/// Builds the body of a process request, as both `process` and `run` send
/// it: the focal-length mode nested twice under `focal_length_type`, and the
/// expressions flag. Manual mode needs focal lengths.
pub fn build_focal_payload(t: FocalLengthType, values: &Option<Vec<u32>>, expressions: bool) -> (r: Result<JsonValue, InputError>)
    ensures
        t == FocalLengthType::Manual && values is None ==> r matches Err(InputError::MissingFocalLengths),
        !(t == FocalLengthType::Manual && values is None) ==> (r matches Ok(body)
            && json_view(body) == process_body_spec(t, focal_values(*values), expressions)),
{
    let members = focal_members(t, values)?;
    let inner = object(members);
    let wes = vec![field("focal_length_type", inner)];
    assert(entries_view(wes@) =~= seq![("focal_length_type"@, json_view(wes@[0].1))]);
    let wrapper = object(wes);
    let es = vec![field("focal_length_type", wrapper), field("expressions_enabled", JsonValue::Bool(expressions))];
    assert(entries_view(es@) =~= seq![("focal_length_type"@, json_view(es@[0].1)), ("expressions_enabled"@, JsonSpec::Bool(expressions))]);
    Ok(object(es))
}

/// Arguments of `ephemeral`. The focal lengths are carried as their
/// IEEE-754 single-precision bit patterns.
pub struct EphemeralArgs {
    /// Readable HTTPS URLs of the input photos (2–15).
    pub image_urls: Vec<String>,
    /// Result destinations, each `FORMAT:PUT_URL`.
    pub result_urls: Vec<String>,
    pub focal_length_type: FocalLengthType,
    pub focal_lengths: Option<Vec<u32>>,
    pub expressions: bool,
    /// HTTPS callback URL for the completion webhook.
    pub callback_url: Option<String>,
    pub dry_run: bool,
}

/// The format part of a `FORMAT:URL` entry, lower-cased: what precedes the first `:`.
pub open spec fn result_format(e: Seq<char>) -> Seq<char> {
    lowercased(e.subrange(0, first_index(e, ':')))
}

/// The URL part of a `FORMAT:URL` entry: what follows the first `:`.
pub open spec fn result_url(e: Seq<char>) -> Seq<char> {
    e.subrange(first_index(e, ':') + 1, e.len() as int)
}

/// A `FORMAT:URL` entry is refused: it has no `:`, or its URL part is refused.
pub open spec fn result_entry_refused(e: Seq<char>) -> bool {
    first_index(e, ':') < 0 || https_url_check(result_url(e)) is Some
}

/// `err` is the error for the refused `FORMAT:URL` entry `e`.
pub open spec fn result_entry_error(err: InputError, e: Seq<char>) -> bool {
    if first_index(e, ':') < 0 {
        err matches InputError::BadResultUrl { entry } && entry@ == e
    } else {
        err == InputError::Invalid(https_url_check(result_url(e))->0)
    }
}

/// Splits a `--result-url` entry at its first `:` into the lower-cased format
/// and the URL, and checks the URL.
pub fn parse_result_url(entry: &str) -> (r: Result<(String, String), InputError>)
    ensures
        result_entry_refused(entry@) ==> (r matches Err(err) && result_entry_error(err, entry@)),
        !result_entry_refused(entry@) ==> (r matches Ok((f, u)) && f@ == result_format(entry@) && u@ == result_url(entry@)),
{
    let cs = chars_of(entry);
    let n = cs.len();
    proof {
        lemma_first_index(entry@, ':');
    }
    let colon = match find_first(&cs, ':') {
        Some(i) => i,
        None => {
            return Err(InputError::BadResultUrl { entry: String::from_str(entry) });
        },
    };
    let url = string_of(&slice_chars(&cs, colon + 1, n));
    match https_url(url.as_str()) {
        Err(e) => {
            return Err(InputError::Invalid(e));
        },
        Ok(()) => {},
    }
    let fmt = string_of(&slice_chars(&cs, 0, colon));
    let fmt_lower = to_lowercase(fmt.as_str());
    Ok((fmt_lower, url))
}

/// The first refused URL's error, in order.
pub open spec fn first_bad_url(urls: Seq<Seq<char>>) -> Option<ValidationError>
    decreases urls.len(),
{
    if urls.len() == 0 {
        None
    } else if https_url_check(urls[0]) is Some {
        https_url_check(urls[0])
    } else {
        first_bad_url(urls.drop_first())
    }
}

/// The first refused `FORMAT:URL` entry, in order.
pub open spec fn first_bad_result(entries: Seq<Seq<char>>) -> Option<Seq<char>>
    decreases entries.len(),
{
    if entries.len() == 0 {
        None
    } else if result_entry_refused(entries[0]) {
        Some(entries[0])
    } else {
        first_bad_result(entries.drop_first())
    }
}

/// Checks URLs in order; the first refused one gives the error.
pub fn check_urls(urls: &Vec<String>) -> (r: Result<(), ValidationError>)
    ensures
        match first_bad_url(views(urls@)) {
            Some(e) => r == Err::<(), ValidationError>(e),
            None => r is Ok,
        },
{
    let ghost all = views(urls@);
    let mut i: usize = 0;
    assert(all.subrange(0, all.len() as int) =~= all);
    while i < urls.len()
        invariant
            all == views(urls@),
            i <= urls@.len(),
            first_bad_url(all) == first_bad_url(all.subrange(i as int, all.len() as int)),
        decreases urls.len() - i,
    {
        let ghost rest = all.subrange(i as int, all.len() as int);
        assert(rest.drop_first() =~= all.subrange(i + 1, all.len() as int));
        assert(rest[0] == urls@[i as int]@);
        match https_url(urls[i].as_str()) {
            Err(e) => {
                return Err(e);
            },
            Ok(()) => {},
        }
        i = i + 1;
    }
    assert(all.subrange(i as int, all.len() as int).len() == 0);
    Ok(())
}

/// The model of a result mesh entry for a `FORMAT:URL` entry.
pub open spec fn mesh_entry_spec(e: Seq<char>) -> JsonSpec {
    JsonSpec::Object(seq![
        ("format"@, JsonSpec::Str(result_format(e))),
        ("url"@, JsonSpec::Str(result_url(e))),
        ("edges"@, JsonSpec::Bool(false)),
        ("mesh_lod"@, JsonSpec::Str("high_poly"@)),
    ])
}

/// The body of `/v1/avatar/ephemeral/create`.
pub open spec fn ephemeral_body_spec(args: EphemeralArgs) -> JsonSpec {
    JsonSpec::Object(
        seq![
            ("image_urls"@, texts_spec(views(args.image_urls@))),
            ("result_mesh_urls"@, JsonSpec::Array(views(args.result_urls@).map_values(|e: Seq<char>| mesh_entry_spec(e)))),
        ] + focal_spec(args.focal_length_type, focal_values(args.focal_lengths))
            + seq![("expressions_enabled"@, JsonSpec::Bool(args.expressions))]
            + match args.callback_url {
                Some(c) => seq![("callback_url"@, JsonSpec::Str(c@))],
                None => Seq::empty(),
            },
    )
}

fn mesh_entries(entries: &Vec<String>) -> (r: Result<JsonValue, InputError>)
    ensures
        match first_bad_result(views(entries@)) {
            Some(e) => r matches Err(err) && result_entry_error(err, e),
            None => r matches Ok(v) && json_view(v) == JsonSpec::Array(views(entries@).map_values(|e: Seq<char>| mesh_entry_spec(e))),
        },
{
    let ghost all = views(entries@);
    let mut items: Vec<JsonValue> = Vec::new();
    let mut i: usize = 0;
    assert(all.subrange(0, all.len() as int) =~= all);
    while i < entries.len()
        invariant
            all == views(entries@),
            i <= entries@.len(),
            first_bad_result(all) == first_bad_result(all.subrange(i as int, all.len() as int)),
            items_view(items@) == all.subrange(0, i as int).map_values(|e: Seq<char>| mesh_entry_spec(e)),
        decreases entries.len() - i,
    {
        let ghost rest = all.subrange(i as int, all.len() as int);
        assert(rest.drop_first() =~= all.subrange(i + 1, all.len() as int));
        assert(rest[0] == entries@[i as int]@);
        let (fmt, url) = parse_result_url(entries[i].as_str())?;
        let es = vec![
            field("format", text_owned(fmt)),
            field("url", text_owned(url)),
            field("edges", JsonValue::Bool(false)),
            field("mesh_lod", text("high_poly")),
        ];
        let ghost e = entries@[i as int]@;
        assert(entries_view(es@) =~= mesh_entry_spec(e)->Object_0);
        let item = object(es);
        proof {
            lemma_items_view_push(items@, item);
            assert(all.subrange(0, i + 1).map_values(|e: Seq<char>| mesh_entry_spec(e)) =~= all.subrange(0, i as int).map_values(|e: Seq<char>| mesh_entry_spec(e)).push(mesh_entry_spec(e)));
        }
        items.push(item);
        i = i + 1;
    }
    assert(all.subrange(i as int, all.len() as int).len() == 0);
    assert(all.subrange(0, all.len() as int) =~= all);
    Ok(array(items))
}

/// Checks the arguments of `ephemeral` and builds its request body. The
/// checks run in this order: the photo count, each image URL, the callback
/// URL, each result entry, the presence of a result entry, and the focal
/// lengths of manual mode.
pub fn ephemeral_request(args: &EphemeralArgs) -> (r: Result<JsonValue, InputError>)
    ensures
        if photo_count_verdict(args.image_urls@.len() as usize) is Some {
            r matches Err(InputError::Invalid(e)) && photo_count_verdict(args.image_urls@.len() as usize) == Some(e)
        } else if first_bad_url(views(args.image_urls@)) is Some {
            r matches Err(InputError::Invalid(e)) && first_bad_url(views(args.image_urls@)) == Some(e)
        } else if args.callback_url matches Some(c) && https_url_check(c@) is Some {
            r matches Err(InputError::Invalid(e)) && https_url_check(args.callback_url->0@) == Some(e)
        } else if first_bad_result(views(args.result_urls@)) is Some {
            r matches Err(err) && result_entry_error(err, first_bad_result(views(args.result_urls@))->0)
        } else if args.result_urls@.len() == 0 {
            r matches Err(InputError::NoResultUrl)
        } else if args.focal_length_type == FocalLengthType::Manual && args.focal_lengths is None {
            r matches Err(InputError::MissingFocalLengths)
        } else {
            r matches Ok(body) && json_view(body) == ephemeral_body_spec(*args)
        },
{
    match photo_count(args.image_urls.len()) {
        Err(e) => {
            return Err(InputError::Invalid(e));
        },
        Ok(()) => {},
    }
    match check_urls(&args.image_urls) {
        Err(e) => {
            return Err(InputError::Invalid(e));
        },
        Ok(()) => {},
    }
    match &args.callback_url {
        Some(cb) => match https_url(cb.as_str()) {
            Err(e) => {
                return Err(InputError::Invalid(e));
            },
            Ok(()) => {},
        },
        None => {},
    }
    let meshes = mesh_entries(&args.result_urls)?;
    if args.result_urls.len() == 0 {
        return Err(InputError::NoResultUrl);
    }
    let focal = focal_members(args.focal_length_type, &args.focal_lengths)?;
    let mut es = vec![field("image_urls", text_array(&args.image_urls)), field("result_mesh_urls", meshes)];
    let ghost head = entries_view(es@);
    let ghost fv = entries_view(focal@);
    let mut focal = focal;
    es.append(&mut focal);
    assert(entries_view(es@) =~= head + fv);
    let ghost with_focal = entries_view(es@);
    es.push(field("expressions_enabled", JsonValue::Bool(args.expressions)));
    assert(entries_view(es@) =~= with_focal + seq![("expressions_enabled"@, JsonSpec::Bool(args.expressions))]);
    let ghost with_expr = entries_view(es@);
    match &args.callback_url {
        Some(cb) => {
            es.push(field("callback_url", text(cb.as_str())));
            assert(entries_view(es@) =~= with_expr + seq![("callback_url"@, JsonSpec::Str(cb@))]);
        },
        None => {
            assert(with_expr =~= with_expr + Seq::<(Seq<char>, JsonSpec)>::empty());
        },
    }
    assert(entries_view(es@) =~= ephemeral_body_spec(*args)->Object_0);
    Ok(object(es))
}

} // verus!
