//! Properties that span several functions of the library.
use vstd::prelude::*;

use vstd::utf8::{decode_utf8, encode_utf8, is_ascii_chars, is_char_boundary};

use crate::auth::{config_token_of, maskable, masked, resolved_token};
use crate::config::Config;
use crate::download::{joined_path, joined_with, lies_within, model_query_parts, TextureFormat, DownloadArgs};
use crate::cli::{focal_api_str, FocalLengthType, MeshFormat};
use crate::self_update::{asset_fits, strip_v, tag_for};
use crate::pipeline::{final_download, run_keeps_polling, upload_advance, upload_count, RunAction, RunArgs, RunError, RunStage};
use crate::client::avatar_path_of;
use crate::json::json_view;
use crate::status::{is_final, StatusResponse};
use crate::request::{ephemeral_body_spec, focal_values, process_body_spec, result_format, result_url, EphemeralArgs, ProcessArgs};
use crate::text::{segments, last_index, lemma_last_index, first_index, has_char, has_double_dot, lemma_first_index, lowercased};
use crate::json::JsonSpec;
use crate::schema::{init_command_spec, schema_spec};
use crate::exit::{exit_code_of, kind_description, FailureKind};
use crate::validate::{photo_count_verdict, MAX_PHOTOS, MIN_PHOTOS, avatar_id_check, first_control, first_control_from, first_forbidden, https_url_check, MAX_ID_LEN, MAX_URL_LEN};

verus! {

/// After `auth login` saved a non-empty token, an API command given no token
/// flag runs with the saved token.
pub proof fn law_saved_token_is_used(c: Config, flag: Option<Seq<char>>)
    requires
        c.auth.token matches Some(t) && t@.len() > 0,
        flag matches Some(f) ==> f.len() == 0,
    ensures
        resolved_token(flag, config_token_of(Some(&c))) == Some(c.auth.token->0@),
{
}

/// A non-empty `--token` (or `KEENTOOLS_API_TOKEN`) wins over the config file.
pub proof fn law_flag_wins(flag: Seq<char>, config: Option<&Config>)
    requires
        flag.len() > 0,
    ensures
        resolved_token(Some(flag), config_token_of(config)) == Some(flag),
{
}

/// After `auth logout`, a command given no token flag finds no token.
pub proof fn law_logout_forgets(c: Config, flag: Option<Seq<char>>)
    requires
        c.auth.token is None,
        flag matches Some(f) ==> f.len() == 0,
    ensures
        resolved_token(flag, config_token_of(Some(&c))) is None,
{
}

proof fn lemma_no_control_from(s: Seq<char>, i: int)
    requires
        0 <= i,
        first_control_from(s, i) is None,
    ensures
        forall|j: int| i <= j < s.len() ==> (s[j] as u32) >= 0x20,
    decreases s.len() - i,
{
    if i < s.len() {
        lemma_no_control_from(s, i + 1);
    }
}

/// An accepted avatar ID is safe to put in an API path: it is 1 to 128
/// characters long, has no control character, none of `? # % / \`, and no `..`.
pub proof fn law_accepted_avatar_id_is_safe(id: Seq<char>)
    requires
        avatar_id_check(id) is None,
    ensures
        id.len() > 0,
        id.len() <= MAX_ID_LEN,
        forall|j: int| 0 <= j < id.len() ==> (id[j] as u32) >= 0x20,
        !has_char(id, '?') && !has_char(id, '#') && !has_char(id, '%'),
        !has_char(id, '/') && !has_char(id, '\\'),
        !has_double_dot(id),
{
    lemma_no_control_from(id, 0);
}

/// A `--result-url` written as `FORMAT:URL`, with no `:` in the format, is
/// read back as that format (lower-cased) and that URL, whatever colons the
/// URL holds.
pub proof fn law_result_url_splits_at_first_colon(format: Seq<char>, url: Seq<char>)
    requires
        !has_char(format, ':'),
    ensures
        result_format(format + ":"@ + url) == lowercased(format),
        result_url(format + ":"@ + url) == url,
{
    let e = format + ":"@ + url;
    reveal_strlit(":");
    assert(e[format.len() as int] == ':');
    lemma_first_index(e, ':');
    let i = first_index(e, ':');
    if i < 0 || i > format.len() {
        assert(e[format.len() as int] != ':');
    }
    if i < format.len() {
        assert(e[i] == format[i]);
    }
    assert(i == format.len());
    assert(e.subrange(0, i) =~= format);
    assert(e.subrange(i + 1, e.len() as int) =~= url);
}

/// While waiting for a reconstruction, `run` and `status --poll` agree on
/// every status: both go on exactly while the status is not final.
pub proof fn law_run_waits_like_status_poll(s: StatusResponse)
    ensures
        run_keeps_polling(s) == !is_final(s),
{
}

/// Normalising a requested version to a release tag is idempotent.
pub proof fn law_release_tag_idempotent(version: Seq<char>)
    ensures
        tag_for(tag_for(version)) == tag_for(version),
{
    reveal_strlit("v");
    if !(version.len() > 0 && version[0] == 'v') {
        assert(("v"@ + version)[0] == 'v');
    }
}

/// A requested version and its release tag name the same version once the
/// leading `v`s are removed.
pub proof fn law_release_tag_names_the_version(version: Seq<char>)
    ensures
        strip_v(tag_for(version)) == strip_v(version),
{
    reveal_strlit("v");
    if !(version.len() > 0 && version[0] == 'v') {
        let t = "v"@ + version;
        assert(t[0] == 'v');
        assert(t.drop_first() =~= version);
    }
}

proof fn lemma_last_index_is(s: Seq<char>, c: char, k: int)
    requires
        -1 <= k < s.len(),
        k >= 0 ==> s[k] == c,
        forall|j: int| k < j < s.len() ==> s[j] != c,
    ensures
        last_index(s, c) == k,
    decreases s.len(),
{
    if s.len() > 0 && s.last() != c {
        assert forall|j: int| k < j < s.drop_last().len() implies s.drop_last()[j] != c by {
            assert(s.drop_last()[j] == s[j]);
        }
        if k >= 0 {
            assert(s.drop_last()[k] == s[k]);
        }
        lemma_last_index_is(s.drop_last(), c, k);
    }
}

proof fn lemma_segments_concat(a: Seq<char>, b: Seq<char>)
    ensures
        segments(a + "/"@ + b) == segments(a) + segments(b),
    decreases b.len(),
{
    reveal_strlit("/");
    let p = a + "/"@ + b;
    assert(p.len() == a.len() + 1 + b.len());
    assert(p[a.len() as int] == '/');
    lemma_last_index(b, '/');
    let lb = last_index(b, '/');
    if lb >= 0 {
        let k = a.len() + 1 + lb;
        assert forall|j: int| k < j < p.len() implies p[j] != '/' by {
            assert(p[j] == b[j - a.len() - 1]);
        }
        assert(p[k] == b[lb]);
        lemma_last_index_is(p, '/', k);
        let b2 = b.subrange(0, lb);
        assert(p.subrange(0, k) =~= a + "/"@ + b2);
        assert(p.subrange(k + 1, p.len() as int) =~= b.subrange(lb + 1, b.len() as int));
        lemma_segments_concat(a, b2);
        assert(b.len() > 0);
    } else {
        let k = a.len() as int;
        assert forall|j: int| k < j < p.len() implies p[j] != '/' by {
            assert(p[j] == b[j - a.len() - 1]);
        }
        lemma_last_index_is(p, '/', k);
        assert(p.subrange(0, k) =~= a);
        assert(p.subrange(k + 1, p.len() as int) =~= b);
        if b.len() == 0 {
            assert(segments(b) =~= Seq::<Seq<char>>::empty());
            assert(segments(a) + segments(b) =~= segments(a));
        } else {
            assert(b.subrange(lb + 1, b.len() as int) =~= b);
            assert(segments(b) =~= seq![b]);
            assert(segments(a) + segments(b) =~= segments(a).push(b));
        }
    }
}

/// A ZIP entry whose name is relative lies within the extraction directory,
/// segment by segment: the directory's segments begin the entry's path.
pub proof fn law_relative_entries_lie_within(dir: Seq<char>, name: Seq<char>)
    requires
        !(name.len() > 0 && name[0] == '/'),
    ensures
        lies_within(joined_path(dir, name), dir),
{
    reveal_strlit("/");
    let p = joined_path(dir, name);
    if dir.len() == 0 {
        assert(segments(dir) =~= Seq::<Seq<char>>::empty());
        assert(segments(p).subrange(0, 0) =~= segments(dir));
    } else if dir.last() == '/' {
        let d = dir.drop_last();
        assert(dir =~= d + "/"@ + Seq::<char>::empty());
        assert(p =~= d + "/"@ + name);
        lemma_segments_concat(d, Seq::<char>::empty());
        lemma_segments_concat(d, name);
        assert(segments(Seq::<char>::empty()) =~= Seq::<Seq<char>>::empty());
        assert(segments(dir) =~= segments(d));
        assert(segments(p).subrange(0, segments(dir).len() as int) =~= segments(dir));
        assert(p[0] == dir[0]);
    } else {
        lemma_segments_concat(dir, name);
        assert(segments(p).subrange(0, segments(dir).len() as int) =~= segments(dir));
        assert(p[0] == dir[0]);
    }
}

proof fn lemma_all_printable_no_control(s: Seq<char>, i: int)
    requires
        0 <= i,
        forall|j: int| 0 <= j < s.len() ==> (s[j] as u32) >= 0x20,
    ensures
        first_control_from(s, i) is None,
    decreases s.len() - i,
{
    if i < s.len() {
        lemma_all_printable_no_control(s, i + 1);
    }
}

proof fn lemma_substring_lacks(id: Seq<char>, i: int, j: int, c: char)
    requires
        0 <= i <= j <= id.len(),
        !has_char(id, c),
    ensures
        !has_char(id.subrange(i, j), c),
{
    let t = id.subrange(i, j);
    if has_char(t, c) {
        let k = choose|k: int| 0 <= k < t.len() && t[k] == c;
        assert(id[i + k] == c);
    }
}

/// Every non-empty piece of an accepted avatar ID is itself an accepted ID.
pub proof fn law_accepted_ids_closed_under_substrings(id: Seq<char>, i: int, j: int)
    requires
        avatar_id_check(id) is None,
        0 <= i < j <= id.len(),
    ensures
        avatar_id_check(id.subrange(i, j)) is None,
{
    let t = id.subrange(i, j);
    lemma_no_control_from(id, 0);
    assert forall|k: int| 0 <= k < t.len() implies (t[k] as u32) >= 0x20 by {
        assert(t[k] == id[i + k]);
    }
    lemma_all_printable_no_control(t, 0);
    assert(first_control(t) is None);
    assert(first_forbidden(id) is None);
    lemma_substring_lacks(id, i, j, '?');
    lemma_substring_lacks(id, i, j, '#');
    lemma_substring_lacks(id, i, j, '%');
    lemma_substring_lacks(id, i, j, '/');
    lemma_substring_lacks(id, i, j, '\\');
    if has_double_dot(t) {
        let k = choose|k: int| 0 <= k && k + 1 < t.len() && #[trigger] t[k] == '.' && t[k + 1] == '.';
        assert(id[i + k] == '.' && id[i + k + 1] == '.');
    }
}

/// Masking shows no more of a token than its length (when it has at most 8
/// bytes, as that many stars) or its first and last 4 bytes: two tokens that
/// agree on those get the same mask.
pub proof fn law_mask_shows_only_length_and_ends(t1: Seq<char>, t2: Seq<char>)
    requires
        encode_utf8(t1).len() == encode_utf8(t2).len(),
        encode_utf8(t1).len() > 8 ==> {
            let n = encode_utf8(t1).len() as int;
            &&& encode_utf8(t1).subrange(0, 4) == encode_utf8(t2).subrange(0, 4)
            &&& encode_utf8(t1).subrange(n - 4, n) == encode_utf8(t2).subrange(n - 4, n)
        },
    ensures
        masked(t1) == masked(t2),
        encode_utf8(t1).len() <= 8 ==> masked(t1).len() == encode_utf8(t1).len(),
{
}

/// The UTF-8 bytes of an ASCII token are its characters, one byte each, and
/// those of a piece of it are the same piece of its bytes.
proof fn lemma_ascii_bytes(t: Seq<char>, i: int, j: int)
    requires
        is_ascii_chars(t),
        0 <= i <= j <= t.len(),
    ensures
        encode_utf8(t).len() == t.len(),
        forall|k: int| 0 <= k < t.len() ==> #[trigger] encode_utf8(t)[k] == t[k] as u8 && encode_utf8(t)[k] < 0x80,
        encode_utf8(t).subrange(i, j) == encode_utf8(t.subrange(i, j)),
        decode_utf8(encode_utf8(t).subrange(i, j)) == t.subrange(i, j),
{
    broadcast use vstd::utf8::is_ascii_chars_encode_utf8;
    broadcast use vstd::utf8::is_ascii_chars_nat_bound;
    broadcast use vstd::utf8::encode_utf8_decode_utf8;

    let u = t.subrange(i, j);
    assert(is_ascii_chars(u)) by {
        assert forall|k: int| 0 <= k < u.len() implies '\0' <= #[trigger] u[k] <= '\u{7f}' by {
            assert(u[k] == t[i + k]);
        }
    }
    let b = encode_utf8(t);
    assert forall|k: int| 0 <= k < t.len() implies #[trigger] b[k] == t[k] as u8 && b[k] < 0x80 by {
        assert((t[k] as nat) < 128);
    }
    assert forall|k: int| 0 <= k < u.len() implies #[trigger] b.subrange(i, j)[k] == encode_utf8(u)[k] by {
        assert(u[k] == t[i + k]);
        assert(b[i + k] == t[i + k] as u8);
    }
    assert(b.subrange(i, j) =~= encode_utf8(u));
}

/// For ASCII tokens the mask shows only the length (up to 8 characters) or
/// the first and last 4 characters: two tokens of one length that agree on
/// those get the same mask. Every ASCII token can be masked, and the mask of
/// one longer than 8 characters has 11.
pub proof fn law_ascii_mask_shows_only_length_and_ends(t1: Seq<char>, t2: Seq<char>)
    requires
        is_ascii_chars(t1),
        is_ascii_chars(t2),
        t1.len() == t2.len(),
        t1.len() > 8 ==> {
            let n = t1.len() as int;
            &&& t1.subrange(0, 4) == t2.subrange(0, 4)
            &&& t1.subrange(n - 4, n) == t2.subrange(n - 4, n)
        },
    ensures
        maskable(t1),
        maskable(t2),
        masked(t1) == masked(t2),
        masked(t1).len() == (if t1.len() <= 8 { t1.len() as int } else { 11 }),
{
    let n = t1.len() as int;
    if n > 8 {
        lemma_ascii_bytes(t1, 0, 4);
        lemma_ascii_bytes(t1, n - 4, n);
        lemma_ascii_bytes(t2, 0, 4);
        lemma_ascii_bytes(t2, n - 4, n);
        let b1 = encode_utf8(t1);
        let b2 = encode_utf8(t2);
        assert(b1[4] < 0x80 && b1[n - 4] < 0x80);
        assert(b2[4] < 0x80 && b2[n - 4] < 0x80);
        vstd::utf8::encode_utf8_valid_utf8(t1);
        vstd::utf8::encode_utf8_valid_utf8(t2);
        vstd::utf8::is_char_boundary_iff_not_is_continuation_byte(b1, 4);
        vstd::utf8::is_char_boundary_iff_not_is_continuation_byte(b1, n - 4);
        vstd::utf8::is_char_boundary_iff_not_is_continuation_byte(b2, 4);
        vstd::utf8::is_char_boundary_iff_not_is_continuation_byte(b2, n - 4);
        assert(is_char_boundary(b1, 4) && is_char_boundary(b1, n - 4));
        assert(is_char_boundary(b2, 4) && is_char_boundary(b2, n - 4));
        reveal_strlit("...");
        law_mask_shows_only_length_and_ends(t1, t2);
    } else {
        lemma_ascii_bytes(t1, 0, 0);
        lemma_ascii_bytes(t2, 0, 0);
        law_mask_shows_only_length_and_ends(t1, t2);
    }
}

/// Once every photo is uploaded, `run` starts processing with the very
/// request that `process` sends for the same avatar, focal-length arguments
/// and expressions flag: the same path and the same nested body.
pub proof fn law_run_starts_processing_as_process_does(
    r: Result<(RunStage, RunAction), RunError>,
    args: RunArgs,
    avatar_id: Seq<char>,
    urls: Seq<String>,
    next: int,
    pa: ProcessArgs,
)
    requires
        upload_advance(r, args, avatar_id, urls, next),
        next >= upload_count(args, urls),
        r is Ok,
        pa.avatar_id@ == avatar_id,
        pa.focal_length_type == args.focal_length_type,
        focal_values(pa.focal_lengths) == focal_values(args.focal_lengths),
        pa.expressions == args.expressions,
    ensures
        r matches Ok((_, RunAction::StartProcess { path, body }))
            && path@ == avatar_path_of(pa.avatar_id@, "process"@)
            && json_view(body) == process_body_spec(pa.focal_length_type, focal_values(pa.focal_lengths), pa.expressions),
{
}

/// The range that the schema document gives for `init --count` is exactly
/// the set of photo counts that are accepted.
pub proof fn law_schema_count_range_is_photo_count(n: usize)
    ensures
        init_command_spec()->Object_0[2].0 == "flags"@,
        init_command_spec()->Object_0[2].1->Object_0[0].0 == "--count"@,
        init_command_spec()->Object_0[2].1->Object_0[0].1->Object_0[1].0 == "range"@,
        init_command_spec()->Object_0[2].1->Object_0[0].1->Object_0[1].1
            == JsonSpec::Array(seq![JsonSpec::Int(MIN_PHOTOS as int), JsonSpec::Int(MAX_PHOTOS as int)]),
        photo_count_verdict(n) is None <==> MIN_PHOTOS <= n <= MAX_PHOTOS,
{
}

/// The exit status of each kind of failure is the one that the schema
/// document lists, in decimal, for that kind's description.
pub proof fn law_exit_codes_are_those_of_the_schema(k: FailureKind, version: Seq<char>)
    ensures
        schema_spec(version)->Object_0[8].0 == "exit_codes"@,
        schema_spec(version)->Object_0[8].1->Object_0[exit_code_of(k) as int]
            == (seq![(('0' as int) + exit_code_of(k)) as char], JsonSpec::Str(kind_description(k))),
{
    reveal_strlit("1");
    reveal_strlit("2");
    reveal_strlit("3");
}

/// The download that ends `run` asks for the model exactly as `run` was
/// told to: its format, output path, blendshapes, texture and edges flag,
/// for the avatar that was processed, and it polls until the model is ready.
pub proof fn law_run_downloads_what_run_was_asked_for(d: DownloadArgs, args: RunArgs, avatar_id: Seq<char>)
    requires
        final_download(d, args, avatar_id),
    ensures
        d.format == args.format,
        d.output_path@ == args.output_path@,
        d.avatar_id@ == avatar_id,
        d.texture == args.texture,
        d.edges == args.edges,
        d.blendshapes is Some <==> args.blendshapes is Some,
        d.blendshapes matches Some(b) ==> b@.len() == args.blendshapes->0@.len()
            && forall|i: int| 0 <= i < b@.len() ==> b@[i]@ == args.blendshapes->0@[i]@,
        d.poll,
{
    if d.blendshapes is Some {
        let b = d.blendshapes->0;
        let a = args.blendshapes->0;
        assert(crate::download::views(b@) == crate::download::views(a@));
        assert forall|i: int| 0 <= i < b@.len() implies b@[i]@ == a@[i]@ by {
            assert(crate::download::views(b@)[i] == b@[i]@);
            assert(crate::download::views(a@)[i] == a@[i]@);
        }
    }
}

/// Every non-empty list of blendshape groups is sent, as the third query
/// parameter, `blendshapes=` followed by the groups joined with commas; an
/// empty list is the same as none, and without one no parameter names
/// blendshapes.
pub proof fn law_model_query_sends_every_blendshape_list(
    format: MeshFormat,
    bs: Seq<Seq<char>>,
    texture: Option<TextureFormat>,
    edges: bool,
)
    ensures
        bs.len() > 0 ==> model_query_parts(format, Some(bs), texture, edges)[2] == "blendshapes="@ + joined_with(bs, ","@),
        bs.len() == 1 ==> model_query_parts(format, Some(bs), texture, edges)[2] == "blendshapes="@ + bs[0],
        bs.len() == 2 ==> model_query_parts(format, Some(bs), texture, edges)[2] == "blendshapes="@ + bs[0] + ","@ + bs[1],
        bs.len() == 0 ==> model_query_parts(format, Some(bs), texture, edges) == model_query_parts(format, None, texture, edges),
        forall|i: int|
            0 <= i < model_query_parts(format, None, texture, edges).len() ==> #[trigger] model_query_parts(format, None, texture, edges)[i][0] != 'b',
        ("blendshapes="@)[0] == 'b',
{
    reveal_strlit("blendshapes=");
    reveal_strlit("mesh_format=");
    reveal_strlit("mesh_lod=high_poly");
    reveal_strlit("texture=");
    reveal_strlit("edges=true");
    if bs.len() == 2 {
        assert(bs.drop_last().len() == 1);
        assert(joined_with(bs.drop_last(), ","@) == bs[0]);
    }
    let q = model_query_parts(format, None, texture, edges);
    assert forall|i: int| 0 <= i < q.len() implies #[trigger] q[i][0] != 'b' by {
        if i == 0 {
            assert(q[0] == "mesh_format="@ + crate::cli::mesh_api_str(format));
        } else if i == 1 {
            assert(q[1] == "mesh_lod=high_poly"@);
        } else if i == 2 && texture is Some {
            assert(q[2] == "texture="@ + crate::download::texture_api_str(texture->0));
        } else {
            assert(q[i] == "edges=true"@);
        }
    }
}

/// A release asset fits the platform exactly when its name holds the target
/// triple somewhere and ends in `.tar.gz` or `.zip`: in particular every
/// name made of some text, the target and `.zip` (or `.tar.gz`) fits.
pub proof fn law_asset_fits_target_archives(name: Seq<char>, target: Seq<char>, prefix: Seq<char>)
    ensures
        asset_fits(name, target) <==> (
            (exists|k: int| 0 <= k && k + target.len() <= name.len() && #[trigger] name.subrange(k, k + target.len()) == target)
            && ((name.len() >= 7 && name.subrange(name.len() - 7, name.len() as int) == ".tar.gz"@)
                || (name.len() >= 4 && name.subrange(name.len() - 4, name.len() as int) == ".zip"@))),
        asset_fits(prefix + target + ".zip"@, target),
        asset_fits(prefix + target + ".tar.gz"@, target),
{
    reveal_strlit(".zip");
    reveal_strlit(".tar.gz");
    let z = prefix + target + ".zip"@;
    let g = prefix + target + ".tar.gz"@;
    let k = prefix.len() as int;
    assert(z.subrange(k, k + target.len()) =~= target);
    assert(g.subrange(k, k + target.len()) =~= target);
    assert(z.subrange(z.len() - 4, z.len() as int) =~= ".zip"@);
    assert(g.subrange(g.len() - 7, g.len() as int) =~= ".tar.gz"@);
}

/// In manual mode with focal lengths given, the ephemeral request carries
/// `focal_length_type: "manual"` and `focal_length_values`: the given
/// values, in order; these are the same focal members as the process
/// request's. In the other modes only the mode is sent.
pub proof fn law_ephemeral_sends_the_focal_lengths(args: EphemeralArgs)
    ensures
        ({
            let es = ephemeral_body_spec(args)->Object_0;
            let v = focal_values(args.focal_lengths);
            if args.focal_length_type == FocalLengthType::Manual {
                &&& es[2] == ("focal_length_type"@, JsonSpec::Str("manual"@))
                &&& es[3].0 == "focal_length_values"@
                &&& es[3].1 is Array
                &&& es[3].1->Array_0.len() == v.len()
                &&& forall|i: int| 0 <= i < v.len() ==> #[trigger] es[3].1->Array_0[i] == JsonSpec::Float(v[i])
                &&& es[4] == ("expressions_enabled"@, JsonSpec::Bool(args.expressions))
                &&& es.subrange(2, 4) == process_body_spec(args.focal_length_type, v, args.expressions)->Object_0[0].1->Object_0[0].1->Object_0
            } else {
                &&& es[2] == ("focal_length_type"@, JsonSpec::Str(focal_api_str(args.focal_length_type)))
                &&& es[3] == ("expressions_enabled"@, JsonSpec::Bool(args.expressions))
                &&& es.subrange(2, 3) == process_body_spec(args.focal_length_type, v, args.expressions)->Object_0[0].1->Object_0[0].1->Object_0
            }
        }),
{
    let es = ephemeral_body_spec(args)->Object_0;
    let v = focal_values(args.focal_lengths);
    if args.focal_length_type == FocalLengthType::Manual {
        assert(es.subrange(2, 4) =~= process_body_spec(args.focal_length_type, v, args.expressions)->Object_0[0].1->Object_0[0].1->Object_0);
    } else {
        assert(es.subrange(2, 3) =~= process_body_spec(args.focal_length_type, v, args.expressions)->Object_0[0].1->Object_0[0].1->Object_0);
    }
}

/// A URL is accepted exactly when it starts with `https://`, holds no
/// character below 0x20 and is at most 4096 bytes long in UTF-8: any other
/// character, `%` among them, is accepted. (The URL's byte length is one a
/// `usize` can count, as that of every string is.)
pub proof fn law_https_urls_accepted(url: Seq<char>)
    requires
        encode_utf8(url).len() <= usize::MAX,
    ensures
        https_url_check(url) is None <==> (
            url.len() >= 8 && url.subrange(0, 8) == "https://"@
            && (forall|i: int| 0 <= i < url.len() ==> (#[trigger] url[i] as u32) >= 0x20)
            && encode_utf8(url).len() <= MAX_URL_LEN),
{
    reveal_strlit("https://");
    if forall|i: int| 0 <= i < url.len() ==> (#[trigger] url[i] as u32) >= 0x20 {
        lemma_all_printable_no_control(url, 0);
    }
    if first_control(url) is None {
        lemma_no_control_from(url, 0);
    }
    if first_control(url) is Some {
        let c = first_control(url)->0;
        assert(exists|i: int| 0 <= i < url.len() && url[i] == c && (url[i] as u32) < 0x20) by {
            lemma_first_control_found(url, 0);
        }
    }
}

proof fn lemma_first_control_found(s: Seq<char>, i: int)
    requires
        0 <= i,
        first_control_from(s, i) is Some,
    ensures
        exists|j: int| i <= j < s.len() && s[j] == first_control_from(s, i)->0 && (s[j] as u32) < 0x20,
    decreases s.len() - i,
{
    if i < s.len() && (s[i] as u32) >= 0x20 {
        lemma_first_control_found(s, i + 1);
    }
}

} // verus!
