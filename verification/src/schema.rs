//! Runtime introspection: the JSON description of the CLI that `schema`
//! prints, so that agents can discover commands and flags without documentation.
use vstd::prelude::*;

use crate::json::{array, entries_view, entry_keys, field, is_text, items_view, json_get, json_view, lemma_lookup_found, object, text, JsonSpec, JsonValue};
use crate::text::concat;

verus! {

/// Arguments of `schema`.
pub struct SchemaArgs {
    /// Command name to describe; `None` lists all commands.
    pub command: Option<String>,
}

/// The commands that the schema describes, in order.
pub open spec fn command_names() -> Seq<Seq<char>> {
    seq![
        "init"@, "upload"@, "process"@, "status"@, "download"@,
        "info"@, "run"@, "ephemeral"@, "schema"@, "auth"@, "self-update"@,
    ]
}

/// A command's description: an object whose first member is its `description`.
pub open spec fn describes_command(v: JsonValue) -> bool {
    v matches JsonValue::Object(es) && es@.len() > 0 && es@[0].0@ == "description"@
        && es@[0].1 is Str
}

/// The shape that every schema built here has: a `commands` object with one
/// description per command of `command_names`, in that order, and the program's
/// name and version.
pub open spec fn schema_shape(schema: JsonValue, version: Seq<char>) -> bool {
    &&& json_get(schema, "commands"@) matches Some(JsonValue::Object(cs))
        && entry_keys(cs@) == command_names()
        && forall|i: int| 0 <= i < cs@.len() ==> describes_command(#[trigger] cs@[i].1)
    &&& json_get(schema, "name"@) matches Some(n) && is_text(n, "keentools-cloud"@)
    &&& json_get(schema, "version"@) matches Some(v) && is_text(v, version)
}

/// `s` is the error object `{"error": "unknown command: <command>"}`.
pub open spec fn is_unknown_command(s: JsonValue, command: Seq<char>) -> bool {
    s matches JsonValue::Object(es) && es@.len() == 1 && es@[0].0@ == "error"@
        && is_text(es@[0].1, "unknown command: "@ + command)
}

/// The description of `init`.
pub open spec fn init_command_spec() -> JsonSpec {
    JsonSpec::Object(seq![
        ("description"@, JsonSpec::Str("Initialize a new avatar reconstruction session. Returns avatar_id and upload_urls."@)),
        ("endpoint"@, JsonSpec::Str("POST /v1/avatar/init"@)),
        ("flags"@, JsonSpec::Object(seq![
            ("--count"@, JsonSpec::Object(seq![
                ("type"@, JsonSpec::Str("integer"@)),
                ("range"@, JsonSpec::Array(seq![JsonSpec::Int(2), JsonSpec::Int(15)])),
                ("required"@, JsonSpec::Bool(true)),
                ("description"@, JsonSpec::Str("Number of photos to upload"@)),
            ])),
            ("--dry-run"@, JsonSpec::Object(seq![
                ("type"@, JsonSpec::Str("bool"@)),
                ("description"@, JsonSpec::Str("Validate locally without calling the API"@)),
            ])),
        ])),
        ("output"@, JsonSpec::Object(seq![
            ("avatar_id"@, JsonSpec::Str("string"@)),
            ("upload_urls"@, JsonSpec::Str("array of pre-signed S3 PUT URLs (one per photo)"@)),
        ])),
        ("agent_tip"@, JsonSpec::Str("Pipe output to `upload` via avatar_id. Use --dry-run first."@)),
    ])
}

/// The description of `upload`.
pub open spec fn upload_command_spec() -> JsonSpec {
    JsonSpec::Object(seq![
        ("description"@, JsonSpec::Str("Upload photos to pre-signed S3 URLs obtained from `init`."@)),
        ("args"@, JsonSpec::Object(seq![
            ("PHOTOS"@, JsonSpec::Str("One or more local image file paths (JPEG, PNG, HEIC)"@)),
        ])),
        ("flags"@, JsonSpec::Object(seq![
            ("--avatar-id"@, JsonSpec::Object(seq![
                ("type"@, JsonSpec::Str("string"@)),
                ("required"@, JsonSpec::Bool(true)),
                ("description"@, JsonSpec::Str("Avatar ID from init"@)),
            ])),
            ("--urls"@, JsonSpec::Object(seq![
                ("type"@, JsonSpec::Str("string"@)),
                ("description"@, JsonSpec::Str("Comma-separated pre-signed URLs (alternative to reading from init output)"@)),
            ])),
        ])),
        ("agent_tip"@, JsonSpec::Str("Photos and upload_urls are matched by position. Must upload exactly --count files."@)),
    ])
}

/// The description of `process`.
pub open spec fn process_command_spec() -> JsonSpec {
    JsonSpec::Object(seq![
        ("description"@, JsonSpec::Str("Start 3D reconstruction after all photos are uploaded."@)),
        ("endpoint"@, JsonSpec::Str("POST /v1/avatar/{avatar_id}/process"@)),
        ("flags"@, JsonSpec::Object(seq![
            ("--avatar-id"@, JsonSpec::Object(seq![
                ("type"@, JsonSpec::Str("string"@)),
                ("required"@, JsonSpec::Bool(true)),
            ])),
            ("--focal-length-type"@, JsonSpec::Object(seq![
                ("type"@, JsonSpec::Str("enum"@)),
                ("values"@, JsonSpec::Array(seq![JsonSpec::Str("estimate-common"@), JsonSpec::Str("estimate-per-image"@), JsonSpec::Str("manual"@)])),
                ("required"@, JsonSpec::Bool(true)),
                ("description"@, JsonSpec::Str("How to determine focal length. Use estimate-per-image for mixed cameras."@)),
            ])),
            ("--focal-lengths"@, JsonSpec::Object(seq![
                ("type"@, JsonSpec::Str("string"@)),
                ("description"@, JsonSpec::Str("Comma-separated 35mm-equivalent values, one per photo. Required when --focal-length-type=manual."@)),
            ])),
            ("--expressions"@, JsonSpec::Object(seq![
                ("type"@, JsonSpec::Str("bool"@)),
                ("description"@, JsonSpec::Str("Enable expression blendshapes (makes 'expression' group available in download)"@)),
            ])),
            ("--dry-run"@, JsonSpec::Object(seq![
                ("type"@, JsonSpec::Str("bool"@)),
                ("description"@, JsonSpec::Str("Validate request without calling API"@)),
            ])),
        ])),
        ("agent_tip"@, JsonSpec::Str("Use --dry-run before triggering reconstruction. Reconstruction cannot be cancelled."@)),
    ])
}

/// The description of `status`.
pub open spec fn status_command_spec() -> JsonSpec {
    JsonSpec::Object(seq![
        ("description"@, JsonSpec::Str("Check reconstruction status. Statuses: not_started, running, completed, failed, deleted."@)),
        ("endpoint"@, JsonSpec::Str("GET /v1/avatar/{avatar_id}/get-status"@)),
        ("flags"@, JsonSpec::Object(seq![
            ("--avatar-id"@, JsonSpec::Object(seq![
                ("type"@, JsonSpec::Str("string"@)),
                ("required"@, JsonSpec::Bool(true)),
            ])),
            ("--poll"@, JsonSpec::Object(seq![
                ("type"@, JsonSpec::Str("bool"@)),
                ("description"@, JsonSpec::Str("Keep polling until completed or failed"@)),
            ])),
            ("--poll-interval"@, JsonSpec::Object(seq![
                ("type"@, JsonSpec::Str("integer"@)),
                ("default"@, JsonSpec::Int(5)),
                ("description"@, JsonSpec::Str("Seconds between polls"@)),
            ])),
        ])),
        ("output"@, JsonSpec::Object(seq![
            ("status"@, JsonSpec::Str("not_started | running | completed | failed | deleted"@)),
            ("progress"@, JsonSpec::Str("float 0.0–1.0 (when running)"@)),
        ])),
        ("agent_tip"@, JsonSpec::Str("Use --poll to wait for completion instead of manually polling in a loop."@)),
    ])
}

/// The description of `download`.
pub open spec fn download_command_spec() -> JsonSpec {
    JsonSpec::Object(seq![
        ("description"@, JsonSpec::Str("Download the completed 3D model. Uses polling protocol internally."@)),
        ("endpoint"@, JsonSpec::Str("GET /v1/avatar/{avatar_id}/get-3d-model"@)),
        ("flags"@, JsonSpec::Object(seq![
            ("--avatar-id"@, JsonSpec::Object(seq![
                ("type"@, JsonSpec::Str("string"@)),
                ("required"@, JsonSpec::Bool(true)),
            ])),
            ("--output-path"@, JsonSpec::Object(seq![
                ("type"@, JsonSpec::Str("path"@)),
                ("required"@, JsonSpec::Bool(true)),
                ("description"@, JsonSpec::Str("Where to save the file"@)),
            ])),
            ("--format"@, JsonSpec::Object(seq![
                ("type"@, JsonSpec::Str("enum"@)),
                ("values"@, JsonSpec::Array(seq![JsonSpec::Str("glb"@), JsonSpec::Str("obj"@)])),
                ("default"@, JsonSpec::Str("glb"@)),
            ])),
            ("--blendshapes"@, JsonSpec::Object(seq![
                ("type"@, JsonSpec::Str("string"@)),
                ("description"@, JsonSpec::Str("Comma-separated: arkit,expression,nose (GLB only)"@)),
            ])),
            ("--texture"@, JsonSpec::Object(seq![
                ("type"@, JsonSpec::Str("enum"@)),
                ("values"@, JsonSpec::Array(seq![JsonSpec::Str("jpg"@), JsonSpec::Str("png"@)])),
                ("description"@, JsonSpec::Str("Include texture (GLB only)"@)),
            ])),
            ("--edges"@, JsonSpec::Object(seq![
                ("type"@, JsonSpec::Str("bool"@)),
                ("description"@, JsonSpec::Str("Include wireframe edges (GLB only)"@)),
            ])),
            ("--poll"@, JsonSpec::Object(seq![
                ("type"@, JsonSpec::Str("bool"@)),
                ("description"@, JsonSpec::Str("Wait for model to be ready"@)),
            ])),
        ])),
        ("agent_tip"@, JsonSpec::Str("OBJ format is always a ZIP archive. Use --blendshapes arkit,nose (comma-separated, NOT repeated flags)."@)),
    ])
}

/// The description of `info`.
pub open spec fn info_command_spec() -> JsonSpec {
    JsonSpec::Object(seq![
        ("description"@, JsonSpec::Str("Get reconstruction metadata: camera matrices, focal length used, image URLs."@)),
        ("endpoint"@, JsonSpec::Str("GET /v1/avatar/{avatar_id}/get-info"@)),
        ("flags"@, JsonSpec::Object(seq![
            ("--avatar-id"@, JsonSpec::Object(seq![
                ("type"@, JsonSpec::Str("string"@)),
                ("required"@, JsonSpec::Bool(true)),
            ])),
        ])),
        ("output"@, JsonSpec::Object(seq![
            ("camera_positions"@, JsonSpec::Str("array of 4x4 world-to-camera matrices (row-major)"@)),
            ("camera_projections"@, JsonSpec::Str("array of 4x4 intrinsic matrices"@)),
            ("focal_length_type"@, JsonSpec::Str("manual | exif | estimated_common | estimated_per_image"@)),
            ("expressions_enabled"@, JsonSpec::Str("bool"@)),
            ("img_urls"@, JsonSpec::Str("array of pre-signed S3 URLs for preprocessed images (null for ephemeral)"@)),
        ])),
    ])
}

/// The description of `run`.
pub open spec fn run_command_spec() -> JsonSpec {
    JsonSpec::Object(seq![
        ("description"@, JsonSpec::Str("Full pipeline shortcut: init → upload → process → wait → download."@)),
        ("args"@, JsonSpec::Object(seq![
            ("PHOTOS"@, JsonSpec::Str("Local photo paths (2–15)"@)),
        ])),
        ("flags"@, JsonSpec::Object(seq![
            ("--output-path"@, JsonSpec::Object(seq![
                ("type"@, JsonSpec::Str("path"@)),
                ("required"@, JsonSpec::Bool(true)),
            ])),
            ("--focal-length-type"@, JsonSpec::Object(seq![
                ("type"@, JsonSpec::Str("enum"@)),
                ("values"@, JsonSpec::Array(seq![JsonSpec::Str("estimate-common"@), JsonSpec::Str("estimate-per-image"@), JsonSpec::Str("manual"@)])),
                ("default"@, JsonSpec::Str("estimate-per-image"@)),
            ])),
            ("--focal-lengths"@, JsonSpec::Object(seq![
                ("type"@, JsonSpec::Str("string"@)),
                ("description"@, JsonSpec::Str("Required when --focal-length-type=manual"@)),
            ])),
            ("--expressions"@, JsonSpec::Object(seq![
                ("type"@, JsonSpec::Str("bool"@)),
            ])),
            ("--format"@, JsonSpec::Object(seq![
                ("type"@, JsonSpec::Str("enum"@)),
                ("values"@, JsonSpec::Array(seq![JsonSpec::Str("glb"@), JsonSpec::Str("obj"@)])),
                ("default"@, JsonSpec::Str("glb"@)),
            ])),
            ("--blendshapes"@, JsonSpec::Object(seq![
                ("type"@, JsonSpec::Str("string"@)),
                ("default"@, JsonSpec::Str(""@)),
            ])),
            ("--texture"@, JsonSpec::Object(seq![
                ("type"@, JsonSpec::Str("enum"@)),
                ("values"@, JsonSpec::Array(seq![JsonSpec::Str("jpg"@), JsonSpec::Str("png"@)])),
            ])),
            ("--edges"@, JsonSpec::Object(seq![
                ("type"@, JsonSpec::Str("bool"@)),
            ])),
            ("--dry-run"@, JsonSpec::Object(seq![
                ("type"@, JsonSpec::Str("bool"@)),
            ])),
        ])),
        ("agent_tip"@, JsonSpec::Str("Preferred command for simple use cases. Use individual commands for more control."@)),
    ])
}

/// The description of `ephemeral`.
pub open spec fn ephemeral_command_spec() -> JsonSpec {
    JsonSpec::Object(seq![
        ("description"@, JsonSpec::Str("Zero-retention pipeline. Photos never stored server-side; results pushed to your URLs."@)),
        ("endpoint"@, JsonSpec::Str("POST /v1/avatar/ephemeral/create"@)),
        ("flags"@, JsonSpec::Object(seq![
            ("--image-url"@, JsonSpec::Object(seq![
                ("type"@, JsonSpec::Str("string"@)),
                ("multiple"@, JsonSpec::Bool(true)),
                ("required"@, JsonSpec::Bool(true)),
                ("description"@, JsonSpec::Str("Readable HTTPS URL to an input photo (2–15 total)"@)),
            ])),
            ("--result-url"@, JsonSpec::Object(seq![
                ("type"@, JsonSpec::Str("string"@)),
                ("multiple"@, JsonSpec::Bool(true)),
                ("required"@, JsonSpec::Bool(true)),
                ("description"@, JsonSpec::Str("Format: FORMAT:PUT_URL (e.g. glb:https://...)"@)),
            ])),
            ("--focal-length-type"@, JsonSpec::Object(seq![
                ("type"@, JsonSpec::Str("enum"@)),
                ("values"@, JsonSpec::Array(seq![JsonSpec::Str("estimate-common"@), JsonSpec::Str("estimate-per-image"@), JsonSpec::Str("manual"@)])),
                ("required"@, JsonSpec::Bool(true)),
            ])),
            ("--focal-lengths"@, JsonSpec::Object(seq![
                ("type"@, JsonSpec::Str("string"@)),
            ])),
            ("--expressions"@, JsonSpec::Object(seq![
                ("type"@, JsonSpec::Str("bool"@)),
            ])),
            ("--callback-url"@, JsonSpec::Object(seq![
                ("type"@, JsonSpec::Str("string"@)),
                ("description"@, JsonSpec::Str("HTTPS URL for completion webhook"@)),
            ])),
            ("--dry-run"@, JsonSpec::Object(seq![
                ("type"@, JsonSpec::Str("bool"@)),
            ])),
        ])),
        ("agent_tip"@, JsonSpec::Str("After completion, avatar data is destroyed. /info and /download endpoints will return 404. Results are only available at the URLs you provided."@)),
    ])
}

/// The description of `schema`.
pub open spec fn schema_command_spec() -> JsonSpec {
    JsonSpec::Object(seq![
        ("description"@, JsonSpec::Str("Dump CLI capabilities as JSON. Use to discover commands and parameters at runtime."@)),
        ("args"@, JsonSpec::Object(seq![
            ("COMMAND"@, JsonSpec::Str("Optional: command name to describe"@)),
        ])),
        ("agent_tip"@, JsonSpec::Str("Always machine-readable JSON regardless of --output flag."@)),
    ])
}

/// The description of `auth`.
pub open spec fn auth_command_spec() -> JsonSpec {
    JsonSpec::Object(seq![
        ("description"@, JsonSpec::Str("Manage the API token in the config file."@)),
        ("subcommands"@, JsonSpec::Object(seq![
            ("login"@, JsonSpec::Str("Save token to config file"@)),
            ("logout"@, JsonSpec::Str("Remove token from config file"@)),
            ("status"@, JsonSpec::Str("Show current token source and masked value"@)),
        ])),
    ])
}

/// The description of `self-update`.
pub open spec fn self_update_command_spec() -> JsonSpec {
    JsonSpec::Object(seq![
        ("description"@, JsonSpec::Str("Update keentools-cloud to the latest (or a specific) release from GitHub."@)),
        ("flags"@, JsonSpec::Object(seq![
            ("--check"@, JsonSpec::Object(seq![
                ("type"@, JsonSpec::Str("bool"@)),
                ("description"@, JsonSpec::Str("Check for updates without installing"@)),
            ])),
            ("--version"@, JsonSpec::Object(seq![
                ("type"@, JsonSpec::Str("string"@)),
                ("description"@, JsonSpec::Str("Install a specific version (e.g. v0.2.0)"@)),
            ])),
            ("--force"@, JsonSpec::Object(seq![
                ("type"@, JsonSpec::Str("bool"@)),
                ("description"@, JsonSpec::Str("Force reinstall even if already on the latest version"@)),
            ])),
        ])),
        ("agent_tip"@, JsonSpec::Str("Does not need --api-url or --token."@)),
    ])
}

/// The description of every command, by name.
pub open spec fn commands_spec() -> JsonSpec {
    JsonSpec::Object(seq![("init"@, init_command_spec()), ("upload"@, upload_command_spec()), ("process"@, process_command_spec()), ("status"@, status_command_spec()), ("download"@, download_command_spec()), ("info"@, info_command_spec()), ("run"@, run_command_spec()), ("ephemeral"@, ephemeral_command_spec()), ("schema"@, schema_command_spec()), ("auth"@, auth_command_spec()), ("self-update"@, self_update_command_spec())])
}

/// The whole schema document for the program at `version`.
pub open spec fn schema_spec(version: Seq<char>) -> JsonSpec {
    JsonSpec::Object(seq![("commands"@, commands_spec()), ("name"@, JsonSpec::Str("keentools-cloud"@)), ("version"@, JsonSpec::Str(version)), ("description"@, JsonSpec::Str("Unofficial CLI for the KeenTools Cloud 3D Head Reconstruction API"@)), ("disclaimer"@, JsonSpec::Str("This is an unofficial tool, not affiliated with or endorsed by KeenTools."@)), ("base_url"@, JsonSpec::Str("Set via KEENTOOLS_API_URL env var or --api-url flag (required)"@)), ("auth"@, JsonSpec::Object(seq![("type"@, JsonSpec::Str("bearer"@)), ("env_var"@, JsonSpec::Str("KEENTOOLS_API_TOKEN"@)), ("flag"@, JsonSpec::Str("--token"@)), ("config_file"@, JsonSpec::Str("~/.config/keentools-cloud/config.toml"@))])), ("global_flags"@, JsonSpec::Object(seq![("--token"@, JsonSpec::Object(seq![("type"@, JsonSpec::Str("string"@)), ("description"@, JsonSpec::Str("API token"@))])), ("--output"@, JsonSpec::Object(seq![("type"@, JsonSpec::Str("enum"@)), ("values"@, JsonSpec::Array(seq![JsonSpec::Str("human"@), JsonSpec::Str("json"@)])), ("description"@, JsonSpec::Str("Output format (default: human on TTY, json otherwise)"@))])), ("--api-url"@, JsonSpec::Object(seq![("type"@, JsonSpec::Str("string"@)), ("env"@, JsonSpec::Str("KEENTOOLS_API_URL"@)), ("required"@, JsonSpec::Bool(true)), ("description"@, JsonSpec::Str("API base URL"@))]))])), ("exit_codes"@, JsonSpec::Object(seq![("0"@, JsonSpec::Str("success"@)), ("1"@, JsonSpec::Str("API or runtime error"@)), ("2"@, JsonSpec::Str("input validation error"@)), ("3"@, JsonSpec::Str("authentication error"@))]))])
}

fn init_schema() -> (v: JsonValue)
    ensures
        describes_command(v),
        json_view(v) == init_command_spec(),
{
    let a4 = vec![JsonValue::Int(2), JsonValue::Int(15)];
    assert(items_view(a4@) =~= seq![JsonSpec::Int(2), JsonSpec::Int(15)]);
    let v4 = array(a4);
    let e3 = vec![field("type", text("integer")), field("range", v4), field("required", JsonValue::Bool(true)), field("description", text("Number of photos to upload"))];
    assert(entries_view(e3@) =~= seq![("type"@, JsonSpec::Str("integer"@)), ("range"@, JsonSpec::Array(seq![JsonSpec::Int(2), JsonSpec::Int(15)])), ("required"@, JsonSpec::Bool(true)), ("description"@, JsonSpec::Str("Number of photos to upload"@))]);
    let v3 = object(e3);
    let e5 = vec![field("type", text("bool")), field("description", text("Validate locally without calling the API"))];
    assert(entries_view(e5@) =~= seq![("type"@, JsonSpec::Str("bool"@)), ("description"@, JsonSpec::Str("Validate locally without calling the API"@))]);
    let v5 = object(e5);
    let e2 = vec![field("--count", v3), field("--dry-run", v5)];
    assert(entries_view(e2@) =~= seq![("--count"@, JsonSpec::Object(seq![("type"@, JsonSpec::Str("integer"@)), ("range"@, JsonSpec::Array(seq![JsonSpec::Int(2), JsonSpec::Int(15)])), ("required"@, JsonSpec::Bool(true)), ("description"@, JsonSpec::Str("Number of photos to upload"@))])), ("--dry-run"@, JsonSpec::Object(seq![("type"@, JsonSpec::Str("bool"@)), ("description"@, JsonSpec::Str("Validate locally without calling the API"@))]))]);
    let v2 = object(e2);
    let e6 = vec![field("avatar_id", text("string")), field("upload_urls", text("array of pre-signed S3 PUT URLs (one per photo)"))];
    assert(entries_view(e6@) =~= seq![("avatar_id"@, JsonSpec::Str("string"@)), ("upload_urls"@, JsonSpec::Str("array of pre-signed S3 PUT URLs (one per photo)"@))]);
    let v6 = object(e6);
    let e1 = vec![field("description", text("Initialize a new avatar reconstruction session. Returns avatar_id and upload_urls.")), field("endpoint", text("POST /v1/avatar/init")), field("flags", v2), field("output", v6), field("agent_tip", text("Pipe output to `upload` via avatar_id. Use --dry-run first."))];
    assert(entries_view(e1@) =~= seq![("description"@, JsonSpec::Str("Initialize a new avatar reconstruction session. Returns avatar_id and upload_urls."@)), ("endpoint"@, JsonSpec::Str("POST /v1/avatar/init"@)), ("flags"@, JsonSpec::Object(seq![("--count"@, JsonSpec::Object(seq![("type"@, JsonSpec::Str("integer"@)), ("range"@, JsonSpec::Array(seq![JsonSpec::Int(2), JsonSpec::Int(15)])), ("required"@, JsonSpec::Bool(true)), ("description"@, JsonSpec::Str("Number of photos to upload"@))])), ("--dry-run"@, JsonSpec::Object(seq![("type"@, JsonSpec::Str("bool"@)), ("description"@, JsonSpec::Str("Validate locally without calling the API"@))]))])), ("output"@, JsonSpec::Object(seq![("avatar_id"@, JsonSpec::Str("string"@)), ("upload_urls"@, JsonSpec::Str("array of pre-signed S3 PUT URLs (one per photo)"@))])), ("agent_tip"@, JsonSpec::Str("Pipe output to `upload` via avatar_id. Use --dry-run first."@))]);
    let v1 = object(e1);
    v1
}

fn upload_schema() -> (v: JsonValue)
    ensures
        describes_command(v),
        json_view(v) == upload_command_spec(),
{
    let e2 = vec![field("PHOTOS", text("One or more local image file paths (JPEG, PNG, HEIC)"))];
    assert(entries_view(e2@) =~= seq![("PHOTOS"@, JsonSpec::Str("One or more local image file paths (JPEG, PNG, HEIC)"@))]);
    let v2 = object(e2);
    let e4 = vec![field("type", text("string")), field("required", JsonValue::Bool(true)), field("description", text("Avatar ID from init"))];
    assert(entries_view(e4@) =~= seq![("type"@, JsonSpec::Str("string"@)), ("required"@, JsonSpec::Bool(true)), ("description"@, JsonSpec::Str("Avatar ID from init"@))]);
    let v4 = object(e4);
    let e5 = vec![field("type", text("string")), field("description", text("Comma-separated pre-signed URLs (alternative to reading from init output)"))];
    assert(entries_view(e5@) =~= seq![("type"@, JsonSpec::Str("string"@)), ("description"@, JsonSpec::Str("Comma-separated pre-signed URLs (alternative to reading from init output)"@))]);
    let v5 = object(e5);
    let e3 = vec![field("--avatar-id", v4), field("--urls", v5)];
    assert(entries_view(e3@) =~= seq![("--avatar-id"@, JsonSpec::Object(seq![("type"@, JsonSpec::Str("string"@)), ("required"@, JsonSpec::Bool(true)), ("description"@, JsonSpec::Str("Avatar ID from init"@))])), ("--urls"@, JsonSpec::Object(seq![("type"@, JsonSpec::Str("string"@)), ("description"@, JsonSpec::Str("Comma-separated pre-signed URLs (alternative to reading from init output)"@))]))]);
    let v3 = object(e3);
    let e1 = vec![field("description", text("Upload photos to pre-signed S3 URLs obtained from `init`.")), field("args", v2), field("flags", v3), field("agent_tip", text("Photos and upload_urls are matched by position. Must upload exactly --count files."))];
    assert(entries_view(e1@) =~= seq![("description"@, JsonSpec::Str("Upload photos to pre-signed S3 URLs obtained from `init`."@)), ("args"@, JsonSpec::Object(seq![("PHOTOS"@, JsonSpec::Str("One or more local image file paths (JPEG, PNG, HEIC)"@))])), ("flags"@, JsonSpec::Object(seq![("--avatar-id"@, JsonSpec::Object(seq![("type"@, JsonSpec::Str("string"@)), ("required"@, JsonSpec::Bool(true)), ("description"@, JsonSpec::Str("Avatar ID from init"@))])), ("--urls"@, JsonSpec::Object(seq![("type"@, JsonSpec::Str("string"@)), ("description"@, JsonSpec::Str("Comma-separated pre-signed URLs (alternative to reading from init output)"@))]))])), ("agent_tip"@, JsonSpec::Str("Photos and upload_urls are matched by position. Must upload exactly --count files."@))]);
    let v1 = object(e1);
    v1
}

fn process_schema() -> (v: JsonValue)
    ensures
        describes_command(v),
        json_view(v) == process_command_spec(),
{
    let e3 = vec![field("type", text("string")), field("required", JsonValue::Bool(true))];
    assert(entries_view(e3@) =~= seq![("type"@, JsonSpec::Str("string"@)), ("required"@, JsonSpec::Bool(true))]);
    let v3 = object(e3);
    let a5 = vec![text("estimate-common"), text("estimate-per-image"), text("manual")];
    assert(items_view(a5@) =~= seq![JsonSpec::Str("estimate-common"@), JsonSpec::Str("estimate-per-image"@), JsonSpec::Str("manual"@)]);
    let v5 = array(a5);
    let e4 = vec![field("type", text("enum")), field("values", v5), field("required", JsonValue::Bool(true)), field("description", text("How to determine focal length. Use estimate-per-image for mixed cameras."))];
    assert(entries_view(e4@) =~= seq![("type"@, JsonSpec::Str("enum"@)), ("values"@, JsonSpec::Array(seq![JsonSpec::Str("estimate-common"@), JsonSpec::Str("estimate-per-image"@), JsonSpec::Str("manual"@)])), ("required"@, JsonSpec::Bool(true)), ("description"@, JsonSpec::Str("How to determine focal length. Use estimate-per-image for mixed cameras."@))]);
    let v4 = object(e4);
    let e6 = vec![field("type", text("string")), field("description", text("Comma-separated 35mm-equivalent values, one per photo. Required when --focal-length-type=manual."))];
    assert(entries_view(e6@) =~= seq![("type"@, JsonSpec::Str("string"@)), ("description"@, JsonSpec::Str("Comma-separated 35mm-equivalent values, one per photo. Required when --focal-length-type=manual."@))]);
    let v6 = object(e6);
    let e7 = vec![field("type", text("bool")), field("description", text("Enable expression blendshapes (makes 'expression' group available in download)"))];
    assert(entries_view(e7@) =~= seq![("type"@, JsonSpec::Str("bool"@)), ("description"@, JsonSpec::Str("Enable expression blendshapes (makes 'expression' group available in download)"@))]);
    let v7 = object(e7);
    let e8 = vec![field("type", text("bool")), field("description", text("Validate request without calling API"))];
    assert(entries_view(e8@) =~= seq![("type"@, JsonSpec::Str("bool"@)), ("description"@, JsonSpec::Str("Validate request without calling API"@))]);
    let v8 = object(e8);
    let e2 = vec![field("--avatar-id", v3), field("--focal-length-type", v4), field("--focal-lengths", v6), field("--expressions", v7), field("--dry-run", v8)];
    assert(entries_view(e2@) =~= seq![("--avatar-id"@, JsonSpec::Object(seq![("type"@, JsonSpec::Str("string"@)), ("required"@, JsonSpec::Bool(true))])), ("--focal-length-type"@, JsonSpec::Object(seq![("type"@, JsonSpec::Str("enum"@)), ("values"@, JsonSpec::Array(seq![JsonSpec::Str("estimate-common"@), JsonSpec::Str("estimate-per-image"@), JsonSpec::Str("manual"@)])), ("required"@, JsonSpec::Bool(true)), ("description"@, JsonSpec::Str("How to determine focal length. Use estimate-per-image for mixed cameras."@))])), ("--focal-lengths"@, JsonSpec::Object(seq![("type"@, JsonSpec::Str("string"@)), ("description"@, JsonSpec::Str("Comma-separated 35mm-equivalent values, one per photo. Required when --focal-length-type=manual."@))])), ("--expressions"@, JsonSpec::Object(seq![("type"@, JsonSpec::Str("bool"@)), ("description"@, JsonSpec::Str("Enable expression blendshapes (makes 'expression' group available in download)"@))])), ("--dry-run"@, JsonSpec::Object(seq![("type"@, JsonSpec::Str("bool"@)), ("description"@, JsonSpec::Str("Validate request without calling API"@))]))]);
    let v2 = object(e2);
    let e1 = vec![field("description", text("Start 3D reconstruction after all photos are uploaded.")), field("endpoint", text("POST /v1/avatar/{avatar_id}/process")), field("flags", v2), field("agent_tip", text("Use --dry-run before triggering reconstruction. Reconstruction cannot be cancelled."))];
    assert(entries_view(e1@) =~= seq![("description"@, JsonSpec::Str("Start 3D reconstruction after all photos are uploaded."@)), ("endpoint"@, JsonSpec::Str("POST /v1/avatar/{avatar_id}/process"@)), ("flags"@, JsonSpec::Object(seq![("--avatar-id"@, JsonSpec::Object(seq![("type"@, JsonSpec::Str("string"@)), ("required"@, JsonSpec::Bool(true))])), ("--focal-length-type"@, JsonSpec::Object(seq![("type"@, JsonSpec::Str("enum"@)), ("values"@, JsonSpec::Array(seq![JsonSpec::Str("estimate-common"@), JsonSpec::Str("estimate-per-image"@), JsonSpec::Str("manual"@)])), ("required"@, JsonSpec::Bool(true)), ("description"@, JsonSpec::Str("How to determine focal length. Use estimate-per-image for mixed cameras."@))])), ("--focal-lengths"@, JsonSpec::Object(seq![("type"@, JsonSpec::Str("string"@)), ("description"@, JsonSpec::Str("Comma-separated 35mm-equivalent values, one per photo. Required when --focal-length-type=manual."@))])), ("--expressions"@, JsonSpec::Object(seq![("type"@, JsonSpec::Str("bool"@)), ("description"@, JsonSpec::Str("Enable expression blendshapes (makes 'expression' group available in download)"@))])), ("--dry-run"@, JsonSpec::Object(seq![("type"@, JsonSpec::Str("bool"@)), ("description"@, JsonSpec::Str("Validate request without calling API"@))]))])), ("agent_tip"@, JsonSpec::Str("Use --dry-run before triggering reconstruction. Reconstruction cannot be cancelled."@))]);
    let v1 = object(e1);
    v1
}

fn status_schema() -> (v: JsonValue)
    ensures
        describes_command(v),
        json_view(v) == status_command_spec(),
{
    let e3 = vec![field("type", text("string")), field("required", JsonValue::Bool(true))];
    assert(entries_view(e3@) =~= seq![("type"@, JsonSpec::Str("string"@)), ("required"@, JsonSpec::Bool(true))]);
    let v3 = object(e3);
    let e4 = vec![field("type", text("bool")), field("description", text("Keep polling until completed or failed"))];
    assert(entries_view(e4@) =~= seq![("type"@, JsonSpec::Str("bool"@)), ("description"@, JsonSpec::Str("Keep polling until completed or failed"@))]);
    let v4 = object(e4);
    let e5 = vec![field("type", text("integer")), field("default", JsonValue::Int(5)), field("description", text("Seconds between polls"))];
    assert(entries_view(e5@) =~= seq![("type"@, JsonSpec::Str("integer"@)), ("default"@, JsonSpec::Int(5)), ("description"@, JsonSpec::Str("Seconds between polls"@))]);
    let v5 = object(e5);
    let e2 = vec![field("--avatar-id", v3), field("--poll", v4), field("--poll-interval", v5)];
    assert(entries_view(e2@) =~= seq![("--avatar-id"@, JsonSpec::Object(seq![("type"@, JsonSpec::Str("string"@)), ("required"@, JsonSpec::Bool(true))])), ("--poll"@, JsonSpec::Object(seq![("type"@, JsonSpec::Str("bool"@)), ("description"@, JsonSpec::Str("Keep polling until completed or failed"@))])), ("--poll-interval"@, JsonSpec::Object(seq![("type"@, JsonSpec::Str("integer"@)), ("default"@, JsonSpec::Int(5)), ("description"@, JsonSpec::Str("Seconds between polls"@))]))]);
    let v2 = object(e2);
    let e6 = vec![field("status", text("not_started | running | completed | failed | deleted")), field("progress", text("float 0.0–1.0 (when running)"))];
    assert(entries_view(e6@) =~= seq![("status"@, JsonSpec::Str("not_started | running | completed | failed | deleted"@)), ("progress"@, JsonSpec::Str("float 0.0–1.0 (when running)"@))]);
    let v6 = object(e6);
    let e1 = vec![field("description", text("Check reconstruction status. Statuses: not_started, running, completed, failed, deleted.")), field("endpoint", text("GET /v1/avatar/{avatar_id}/get-status")), field("flags", v2), field("output", v6), field("agent_tip", text("Use --poll to wait for completion instead of manually polling in a loop."))];
    assert(entries_view(e1@) =~= seq![("description"@, JsonSpec::Str("Check reconstruction status. Statuses: not_started, running, completed, failed, deleted."@)), ("endpoint"@, JsonSpec::Str("GET /v1/avatar/{avatar_id}/get-status"@)), ("flags"@, JsonSpec::Object(seq![("--avatar-id"@, JsonSpec::Object(seq![("type"@, JsonSpec::Str("string"@)), ("required"@, JsonSpec::Bool(true))])), ("--poll"@, JsonSpec::Object(seq![("type"@, JsonSpec::Str("bool"@)), ("description"@, JsonSpec::Str("Keep polling until completed or failed"@))])), ("--poll-interval"@, JsonSpec::Object(seq![("type"@, JsonSpec::Str("integer"@)), ("default"@, JsonSpec::Int(5)), ("description"@, JsonSpec::Str("Seconds between polls"@))]))])), ("output"@, JsonSpec::Object(seq![("status"@, JsonSpec::Str("not_started | running | completed | failed | deleted"@)), ("progress"@, JsonSpec::Str("float 0.0–1.0 (when running)"@))])), ("agent_tip"@, JsonSpec::Str("Use --poll to wait for completion instead of manually polling in a loop."@))]);
    let v1 = object(e1);
    v1
}

fn download_schema() -> (v: JsonValue)
    ensures
        describes_command(v),
        json_view(v) == download_command_spec(),
{
    let e3 = vec![field("type", text("string")), field("required", JsonValue::Bool(true))];
    assert(entries_view(e3@) =~= seq![("type"@, JsonSpec::Str("string"@)), ("required"@, JsonSpec::Bool(true))]);
    let v3 = object(e3);
    let e4 = vec![field("type", text("path")), field("required", JsonValue::Bool(true)), field("description", text("Where to save the file"))];
    assert(entries_view(e4@) =~= seq![("type"@, JsonSpec::Str("path"@)), ("required"@, JsonSpec::Bool(true)), ("description"@, JsonSpec::Str("Where to save the file"@))]);
    let v4 = object(e4);
    let a6 = vec![text("glb"), text("obj")];
    assert(items_view(a6@) =~= seq![JsonSpec::Str("glb"@), JsonSpec::Str("obj"@)]);
    let v6 = array(a6);
    let e5 = vec![field("type", text("enum")), field("values", v6), field("default", text("glb"))];
    assert(entries_view(e5@) =~= seq![("type"@, JsonSpec::Str("enum"@)), ("values"@, JsonSpec::Array(seq![JsonSpec::Str("glb"@), JsonSpec::Str("obj"@)])), ("default"@, JsonSpec::Str("glb"@))]);
    let v5 = object(e5);
    let e7 = vec![field("type", text("string")), field("description", text("Comma-separated: arkit,expression,nose (GLB only)"))];
    assert(entries_view(e7@) =~= seq![("type"@, JsonSpec::Str("string"@)), ("description"@, JsonSpec::Str("Comma-separated: arkit,expression,nose (GLB only)"@))]);
    let v7 = object(e7);
    let a9 = vec![text("jpg"), text("png")];
    assert(items_view(a9@) =~= seq![JsonSpec::Str("jpg"@), JsonSpec::Str("png"@)]);
    let v9 = array(a9);
    let e8 = vec![field("type", text("enum")), field("values", v9), field("description", text("Include texture (GLB only)"))];
    assert(entries_view(e8@) =~= seq![("type"@, JsonSpec::Str("enum"@)), ("values"@, JsonSpec::Array(seq![JsonSpec::Str("jpg"@), JsonSpec::Str("png"@)])), ("description"@, JsonSpec::Str("Include texture (GLB only)"@))]);
    let v8 = object(e8);
    let e10 = vec![field("type", text("bool")), field("description", text("Include wireframe edges (GLB only)"))];
    assert(entries_view(e10@) =~= seq![("type"@, JsonSpec::Str("bool"@)), ("description"@, JsonSpec::Str("Include wireframe edges (GLB only)"@))]);
    let v10 = object(e10);
    let e11 = vec![field("type", text("bool")), field("description", text("Wait for model to be ready"))];
    assert(entries_view(e11@) =~= seq![("type"@, JsonSpec::Str("bool"@)), ("description"@, JsonSpec::Str("Wait for model to be ready"@))]);
    let v11 = object(e11);
    let e2 = vec![field("--avatar-id", v3), field("--output-path", v4), field("--format", v5), field("--blendshapes", v7), field("--texture", v8), field("--edges", v10), field("--poll", v11)];
    assert(entries_view(e2@) =~= seq![("--avatar-id"@, JsonSpec::Object(seq![("type"@, JsonSpec::Str("string"@)), ("required"@, JsonSpec::Bool(true))])), ("--output-path"@, JsonSpec::Object(seq![("type"@, JsonSpec::Str("path"@)), ("required"@, JsonSpec::Bool(true)), ("description"@, JsonSpec::Str("Where to save the file"@))])), ("--format"@, JsonSpec::Object(seq![("type"@, JsonSpec::Str("enum"@)), ("values"@, JsonSpec::Array(seq![JsonSpec::Str("glb"@), JsonSpec::Str("obj"@)])), ("default"@, JsonSpec::Str("glb"@))])), ("--blendshapes"@, JsonSpec::Object(seq![("type"@, JsonSpec::Str("string"@)), ("description"@, JsonSpec::Str("Comma-separated: arkit,expression,nose (GLB only)"@))])), ("--texture"@, JsonSpec::Object(seq![("type"@, JsonSpec::Str("enum"@)), ("values"@, JsonSpec::Array(seq![JsonSpec::Str("jpg"@), JsonSpec::Str("png"@)])), ("description"@, JsonSpec::Str("Include texture (GLB only)"@))])), ("--edges"@, JsonSpec::Object(seq![("type"@, JsonSpec::Str("bool"@)), ("description"@, JsonSpec::Str("Include wireframe edges (GLB only)"@))])), ("--poll"@, JsonSpec::Object(seq![("type"@, JsonSpec::Str("bool"@)), ("description"@, JsonSpec::Str("Wait for model to be ready"@))]))]);
    let v2 = object(e2);
    let e1 = vec![field("description", text("Download the completed 3D model. Uses polling protocol internally.")), field("endpoint", text("GET /v1/avatar/{avatar_id}/get-3d-model")), field("flags", v2), field("agent_tip", text("OBJ format is always a ZIP archive. Use --blendshapes arkit,nose (comma-separated, NOT repeated flags)."))];
    assert(entries_view(e1@) =~= seq![("description"@, JsonSpec::Str("Download the completed 3D model. Uses polling protocol internally."@)), ("endpoint"@, JsonSpec::Str("GET /v1/avatar/{avatar_id}/get-3d-model"@)), ("flags"@, JsonSpec::Object(seq![("--avatar-id"@, JsonSpec::Object(seq![("type"@, JsonSpec::Str("string"@)), ("required"@, JsonSpec::Bool(true))])), ("--output-path"@, JsonSpec::Object(seq![("type"@, JsonSpec::Str("path"@)), ("required"@, JsonSpec::Bool(true)), ("description"@, JsonSpec::Str("Where to save the file"@))])), ("--format"@, JsonSpec::Object(seq![("type"@, JsonSpec::Str("enum"@)), ("values"@, JsonSpec::Array(seq![JsonSpec::Str("glb"@), JsonSpec::Str("obj"@)])), ("default"@, JsonSpec::Str("glb"@))])), ("--blendshapes"@, JsonSpec::Object(seq![("type"@, JsonSpec::Str("string"@)), ("description"@, JsonSpec::Str("Comma-separated: arkit,expression,nose (GLB only)"@))])), ("--texture"@, JsonSpec::Object(seq![("type"@, JsonSpec::Str("enum"@)), ("values"@, JsonSpec::Array(seq![JsonSpec::Str("jpg"@), JsonSpec::Str("png"@)])), ("description"@, JsonSpec::Str("Include texture (GLB only)"@))])), ("--edges"@, JsonSpec::Object(seq![("type"@, JsonSpec::Str("bool"@)), ("description"@, JsonSpec::Str("Include wireframe edges (GLB only)"@))])), ("--poll"@, JsonSpec::Object(seq![("type"@, JsonSpec::Str("bool"@)), ("description"@, JsonSpec::Str("Wait for model to be ready"@))]))])), ("agent_tip"@, JsonSpec::Str("OBJ format is always a ZIP archive. Use --blendshapes arkit,nose (comma-separated, NOT repeated flags)."@))]);
    let v1 = object(e1);
    v1
}

fn info_schema() -> (v: JsonValue)
    ensures
        describes_command(v),
        json_view(v) == info_command_spec(),
{
    let e3 = vec![field("type", text("string")), field("required", JsonValue::Bool(true))];
    assert(entries_view(e3@) =~= seq![("type"@, JsonSpec::Str("string"@)), ("required"@, JsonSpec::Bool(true))]);
    let v3 = object(e3);
    let e2 = vec![field("--avatar-id", v3)];
    assert(entries_view(e2@) =~= seq![("--avatar-id"@, JsonSpec::Object(seq![("type"@, JsonSpec::Str("string"@)), ("required"@, JsonSpec::Bool(true))]))]);
    let v2 = object(e2);
    let e4 = vec![field("camera_positions", text("array of 4x4 world-to-camera matrices (row-major)")), field("camera_projections", text("array of 4x4 intrinsic matrices")), field("focal_length_type", text("manual | exif | estimated_common | estimated_per_image")), field("expressions_enabled", text("bool")), field("img_urls", text("array of pre-signed S3 URLs for preprocessed images (null for ephemeral)"))];
    assert(entries_view(e4@) =~= seq![("camera_positions"@, JsonSpec::Str("array of 4x4 world-to-camera matrices (row-major)"@)), ("camera_projections"@, JsonSpec::Str("array of 4x4 intrinsic matrices"@)), ("focal_length_type"@, JsonSpec::Str("manual | exif | estimated_common | estimated_per_image"@)), ("expressions_enabled"@, JsonSpec::Str("bool"@)), ("img_urls"@, JsonSpec::Str("array of pre-signed S3 URLs for preprocessed images (null for ephemeral)"@))]);
    let v4 = object(e4);
    let e1 = vec![field("description", text("Get reconstruction metadata: camera matrices, focal length used, image URLs.")), field("endpoint", text("GET /v1/avatar/{avatar_id}/get-info")), field("flags", v2), field("output", v4)];
    assert(entries_view(e1@) =~= seq![("description"@, JsonSpec::Str("Get reconstruction metadata: camera matrices, focal length used, image URLs."@)), ("endpoint"@, JsonSpec::Str("GET /v1/avatar/{avatar_id}/get-info"@)), ("flags"@, JsonSpec::Object(seq![("--avatar-id"@, JsonSpec::Object(seq![("type"@, JsonSpec::Str("string"@)), ("required"@, JsonSpec::Bool(true))]))])), ("output"@, JsonSpec::Object(seq![("camera_positions"@, JsonSpec::Str("array of 4x4 world-to-camera matrices (row-major)"@)), ("camera_projections"@, JsonSpec::Str("array of 4x4 intrinsic matrices"@)), ("focal_length_type"@, JsonSpec::Str("manual | exif | estimated_common | estimated_per_image"@)), ("expressions_enabled"@, JsonSpec::Str("bool"@)), ("img_urls"@, JsonSpec::Str("array of pre-signed S3 URLs for preprocessed images (null for ephemeral)"@))]))]);
    let v1 = object(e1);
    v1
}

fn run_schema() -> (v: JsonValue)
    ensures
        describes_command(v),
        json_view(v) == run_command_spec(),
{
    let e2 = vec![field("PHOTOS", text("Local photo paths (2–15)"))];
    assert(entries_view(e2@) =~= seq![("PHOTOS"@, JsonSpec::Str("Local photo paths (2–15)"@))]);
    let v2 = object(e2);
    let e4 = vec![field("type", text("path")), field("required", JsonValue::Bool(true))];
    assert(entries_view(e4@) =~= seq![("type"@, JsonSpec::Str("path"@)), ("required"@, JsonSpec::Bool(true))]);
    let v4 = object(e4);
    let a6 = vec![text("estimate-common"), text("estimate-per-image"), text("manual")];
    assert(items_view(a6@) =~= seq![JsonSpec::Str("estimate-common"@), JsonSpec::Str("estimate-per-image"@), JsonSpec::Str("manual"@)]);
    let v6 = array(a6);
    let e5 = vec![field("type", text("enum")), field("values", v6), field("default", text("estimate-per-image"))];
    assert(entries_view(e5@) =~= seq![("type"@, JsonSpec::Str("enum"@)), ("values"@, JsonSpec::Array(seq![JsonSpec::Str("estimate-common"@), JsonSpec::Str("estimate-per-image"@), JsonSpec::Str("manual"@)])), ("default"@, JsonSpec::Str("estimate-per-image"@))]);
    let v5 = object(e5);
    let e7 = vec![field("type", text("string")), field("description", text("Required when --focal-length-type=manual"))];
    assert(entries_view(e7@) =~= seq![("type"@, JsonSpec::Str("string"@)), ("description"@, JsonSpec::Str("Required when --focal-length-type=manual"@))]);
    let v7 = object(e7);
    let e8 = vec![field("type", text("bool"))];
    assert(entries_view(e8@) =~= seq![("type"@, JsonSpec::Str("bool"@))]);
    let v8 = object(e8);
    let a10 = vec![text("glb"), text("obj")];
    assert(items_view(a10@) =~= seq![JsonSpec::Str("glb"@), JsonSpec::Str("obj"@)]);
    let v10 = array(a10);
    let e9 = vec![field("type", text("enum")), field("values", v10), field("default", text("glb"))];
    assert(entries_view(e9@) =~= seq![("type"@, JsonSpec::Str("enum"@)), ("values"@, JsonSpec::Array(seq![JsonSpec::Str("glb"@), JsonSpec::Str("obj"@)])), ("default"@, JsonSpec::Str("glb"@))]);
    let v9 = object(e9);
    let e11 = vec![field("type", text("string")), field("default", text(""))];
    assert(entries_view(e11@) =~= seq![("type"@, JsonSpec::Str("string"@)), ("default"@, JsonSpec::Str(""@))]);
    let v11 = object(e11);
    let a13 = vec![text("jpg"), text("png")];
    assert(items_view(a13@) =~= seq![JsonSpec::Str("jpg"@), JsonSpec::Str("png"@)]);
    let v13 = array(a13);
    let e12 = vec![field("type", text("enum")), field("values", v13)];
    assert(entries_view(e12@) =~= seq![("type"@, JsonSpec::Str("enum"@)), ("values"@, JsonSpec::Array(seq![JsonSpec::Str("jpg"@), JsonSpec::Str("png"@)]))]);
    let v12 = object(e12);
    let e14 = vec![field("type", text("bool"))];
    assert(entries_view(e14@) =~= seq![("type"@, JsonSpec::Str("bool"@))]);
    let v14 = object(e14);
    let e15 = vec![field("type", text("bool"))];
    assert(entries_view(e15@) =~= seq![("type"@, JsonSpec::Str("bool"@))]);
    let v15 = object(e15);
    let e3 = vec![field("--output-path", v4), field("--focal-length-type", v5), field("--focal-lengths", v7), field("--expressions", v8), field("--format", v9), field("--blendshapes", v11), field("--texture", v12), field("--edges", v14), field("--dry-run", v15)];
    assert(entries_view(e3@) =~= seq![("--output-path"@, JsonSpec::Object(seq![("type"@, JsonSpec::Str("path"@)), ("required"@, JsonSpec::Bool(true))])), ("--focal-length-type"@, JsonSpec::Object(seq![("type"@, JsonSpec::Str("enum"@)), ("values"@, JsonSpec::Array(seq![JsonSpec::Str("estimate-common"@), JsonSpec::Str("estimate-per-image"@), JsonSpec::Str("manual"@)])), ("default"@, JsonSpec::Str("estimate-per-image"@))])), ("--focal-lengths"@, JsonSpec::Object(seq![("type"@, JsonSpec::Str("string"@)), ("description"@, JsonSpec::Str("Required when --focal-length-type=manual"@))])), ("--expressions"@, JsonSpec::Object(seq![("type"@, JsonSpec::Str("bool"@))])), ("--format"@, JsonSpec::Object(seq![("type"@, JsonSpec::Str("enum"@)), ("values"@, JsonSpec::Array(seq![JsonSpec::Str("glb"@), JsonSpec::Str("obj"@)])), ("default"@, JsonSpec::Str("glb"@))])), ("--blendshapes"@, JsonSpec::Object(seq![("type"@, JsonSpec::Str("string"@)), ("default"@, JsonSpec::Str(""@))])), ("--texture"@, JsonSpec::Object(seq![("type"@, JsonSpec::Str("enum"@)), ("values"@, JsonSpec::Array(seq![JsonSpec::Str("jpg"@), JsonSpec::Str("png"@)]))])), ("--edges"@, JsonSpec::Object(seq![("type"@, JsonSpec::Str("bool"@))])), ("--dry-run"@, JsonSpec::Object(seq![("type"@, JsonSpec::Str("bool"@))]))]);
    let v3 = object(e3);
    let e1 = vec![field("description", text("Full pipeline shortcut: init → upload → process → wait → download.")), field("args", v2), field("flags", v3), field("agent_tip", text("Preferred command for simple use cases. Use individual commands for more control."))];
    assert(entries_view(e1@) =~= seq![("description"@, JsonSpec::Str("Full pipeline shortcut: init → upload → process → wait → download."@)), ("args"@, JsonSpec::Object(seq![("PHOTOS"@, JsonSpec::Str("Local photo paths (2–15)"@))])), ("flags"@, JsonSpec::Object(seq![("--output-path"@, JsonSpec::Object(seq![("type"@, JsonSpec::Str("path"@)), ("required"@, JsonSpec::Bool(true))])), ("--focal-length-type"@, JsonSpec::Object(seq![("type"@, JsonSpec::Str("enum"@)), ("values"@, JsonSpec::Array(seq![JsonSpec::Str("estimate-common"@), JsonSpec::Str("estimate-per-image"@), JsonSpec::Str("manual"@)])), ("default"@, JsonSpec::Str("estimate-per-image"@))])), ("--focal-lengths"@, JsonSpec::Object(seq![("type"@, JsonSpec::Str("string"@)), ("description"@, JsonSpec::Str("Required when --focal-length-type=manual"@))])), ("--expressions"@, JsonSpec::Object(seq![("type"@, JsonSpec::Str("bool"@))])), ("--format"@, JsonSpec::Object(seq![("type"@, JsonSpec::Str("enum"@)), ("values"@, JsonSpec::Array(seq![JsonSpec::Str("glb"@), JsonSpec::Str("obj"@)])), ("default"@, JsonSpec::Str("glb"@))])), ("--blendshapes"@, JsonSpec::Object(seq![("type"@, JsonSpec::Str("string"@)), ("default"@, JsonSpec::Str(""@))])), ("--texture"@, JsonSpec::Object(seq![("type"@, JsonSpec::Str("enum"@)), ("values"@, JsonSpec::Array(seq![JsonSpec::Str("jpg"@), JsonSpec::Str("png"@)]))])), ("--edges"@, JsonSpec::Object(seq![("type"@, JsonSpec::Str("bool"@))])), ("--dry-run"@, JsonSpec::Object(seq![("type"@, JsonSpec::Str("bool"@))]))])), ("agent_tip"@, JsonSpec::Str("Preferred command for simple use cases. Use individual commands for more control."@))]);
    let v1 = object(e1);
    v1
}

fn ephemeral_schema() -> (v: JsonValue)
    ensures
        describes_command(v),
        json_view(v) == ephemeral_command_spec(),
{
    let e3 = vec![field("type", text("string")), field("multiple", JsonValue::Bool(true)), field("required", JsonValue::Bool(true)), field("description", text("Readable HTTPS URL to an input photo (2–15 total)"))];
    assert(entries_view(e3@) =~= seq![("type"@, JsonSpec::Str("string"@)), ("multiple"@, JsonSpec::Bool(true)), ("required"@, JsonSpec::Bool(true)), ("description"@, JsonSpec::Str("Readable HTTPS URL to an input photo (2–15 total)"@))]);
    let v3 = object(e3);
    let e4 = vec![field("type", text("string")), field("multiple", JsonValue::Bool(true)), field("required", JsonValue::Bool(true)), field("description", text("Format: FORMAT:PUT_URL (e.g. glb:https://...)"))];
    assert(entries_view(e4@) =~= seq![("type"@, JsonSpec::Str("string"@)), ("multiple"@, JsonSpec::Bool(true)), ("required"@, JsonSpec::Bool(true)), ("description"@, JsonSpec::Str("Format: FORMAT:PUT_URL (e.g. glb:https://...)"@))]);
    let v4 = object(e4);
    let a6 = vec![text("estimate-common"), text("estimate-per-image"), text("manual")];
    assert(items_view(a6@) =~= seq![JsonSpec::Str("estimate-common"@), JsonSpec::Str("estimate-per-image"@), JsonSpec::Str("manual"@)]);
    let v6 = array(a6);
    let e5 = vec![field("type", text("enum")), field("values", v6), field("required", JsonValue::Bool(true))];
    assert(entries_view(e5@) =~= seq![("type"@, JsonSpec::Str("enum"@)), ("values"@, JsonSpec::Array(seq![JsonSpec::Str("estimate-common"@), JsonSpec::Str("estimate-per-image"@), JsonSpec::Str("manual"@)])), ("required"@, JsonSpec::Bool(true))]);
    let v5 = object(e5);
    let e7 = vec![field("type", text("string"))];
    assert(entries_view(e7@) =~= seq![("type"@, JsonSpec::Str("string"@))]);
    let v7 = object(e7);
    let e8 = vec![field("type", text("bool"))];
    assert(entries_view(e8@) =~= seq![("type"@, JsonSpec::Str("bool"@))]);
    let v8 = object(e8);
    let e9 = vec![field("type", text("string")), field("description", text("HTTPS URL for completion webhook"))];
    assert(entries_view(e9@) =~= seq![("type"@, JsonSpec::Str("string"@)), ("description"@, JsonSpec::Str("HTTPS URL for completion webhook"@))]);
    let v9 = object(e9);
    let e10 = vec![field("type", text("bool"))];
    assert(entries_view(e10@) =~= seq![("type"@, JsonSpec::Str("bool"@))]);
    let v10 = object(e10);
    let e2 = vec![field("--image-url", v3), field("--result-url", v4), field("--focal-length-type", v5), field("--focal-lengths", v7), field("--expressions", v8), field("--callback-url", v9), field("--dry-run", v10)];
    assert(entries_view(e2@) =~= seq![("--image-url"@, JsonSpec::Object(seq![("type"@, JsonSpec::Str("string"@)), ("multiple"@, JsonSpec::Bool(true)), ("required"@, JsonSpec::Bool(true)), ("description"@, JsonSpec::Str("Readable HTTPS URL to an input photo (2–15 total)"@))])), ("--result-url"@, JsonSpec::Object(seq![("type"@, JsonSpec::Str("string"@)), ("multiple"@, JsonSpec::Bool(true)), ("required"@, JsonSpec::Bool(true)), ("description"@, JsonSpec::Str("Format: FORMAT:PUT_URL (e.g. glb:https://...)"@))])), ("--focal-length-type"@, JsonSpec::Object(seq![("type"@, JsonSpec::Str("enum"@)), ("values"@, JsonSpec::Array(seq![JsonSpec::Str("estimate-common"@), JsonSpec::Str("estimate-per-image"@), JsonSpec::Str("manual"@)])), ("required"@, JsonSpec::Bool(true))])), ("--focal-lengths"@, JsonSpec::Object(seq![("type"@, JsonSpec::Str("string"@))])), ("--expressions"@, JsonSpec::Object(seq![("type"@, JsonSpec::Str("bool"@))])), ("--callback-url"@, JsonSpec::Object(seq![("type"@, JsonSpec::Str("string"@)), ("description"@, JsonSpec::Str("HTTPS URL for completion webhook"@))])), ("--dry-run"@, JsonSpec::Object(seq![("type"@, JsonSpec::Str("bool"@))]))]);
    let v2 = object(e2);
    let e1 = vec![field("description", text("Zero-retention pipeline. Photos never stored server-side; results pushed to your URLs.")), field("endpoint", text("POST /v1/avatar/ephemeral/create")), field("flags", v2), field("agent_tip", text("After completion, avatar data is destroyed. /info and /download endpoints will return 404. Results are only available at the URLs you provided."))];
    assert(entries_view(e1@) =~= seq![("description"@, JsonSpec::Str("Zero-retention pipeline. Photos never stored server-side; results pushed to your URLs."@)), ("endpoint"@, JsonSpec::Str("POST /v1/avatar/ephemeral/create"@)), ("flags"@, JsonSpec::Object(seq![("--image-url"@, JsonSpec::Object(seq![("type"@, JsonSpec::Str("string"@)), ("multiple"@, JsonSpec::Bool(true)), ("required"@, JsonSpec::Bool(true)), ("description"@, JsonSpec::Str("Readable HTTPS URL to an input photo (2–15 total)"@))])), ("--result-url"@, JsonSpec::Object(seq![("type"@, JsonSpec::Str("string"@)), ("multiple"@, JsonSpec::Bool(true)), ("required"@, JsonSpec::Bool(true)), ("description"@, JsonSpec::Str("Format: FORMAT:PUT_URL (e.g. glb:https://...)"@))])), ("--focal-length-type"@, JsonSpec::Object(seq![("type"@, JsonSpec::Str("enum"@)), ("values"@, JsonSpec::Array(seq![JsonSpec::Str("estimate-common"@), JsonSpec::Str("estimate-per-image"@), JsonSpec::Str("manual"@)])), ("required"@, JsonSpec::Bool(true))])), ("--focal-lengths"@, JsonSpec::Object(seq![("type"@, JsonSpec::Str("string"@))])), ("--expressions"@, JsonSpec::Object(seq![("type"@, JsonSpec::Str("bool"@))])), ("--callback-url"@, JsonSpec::Object(seq![("type"@, JsonSpec::Str("string"@)), ("description"@, JsonSpec::Str("HTTPS URL for completion webhook"@))])), ("--dry-run"@, JsonSpec::Object(seq![("type"@, JsonSpec::Str("bool"@))]))])), ("agent_tip"@, JsonSpec::Str("After completion, avatar data is destroyed. /info and /download endpoints will return 404. Results are only available at the URLs you provided."@))]);
    let v1 = object(e1);
    v1
}

fn schema_schema() -> (v: JsonValue)
    ensures
        describes_command(v),
        json_view(v) == schema_command_spec(),
{
    let e2 = vec![field("COMMAND", text("Optional: command name to describe"))];
    assert(entries_view(e2@) =~= seq![("COMMAND"@, JsonSpec::Str("Optional: command name to describe"@))]);
    let v2 = object(e2);
    let e1 = vec![field("description", text("Dump CLI capabilities as JSON. Use to discover commands and parameters at runtime.")), field("args", v2), field("agent_tip", text("Always machine-readable JSON regardless of --output flag."))];
    assert(entries_view(e1@) =~= seq![("description"@, JsonSpec::Str("Dump CLI capabilities as JSON. Use to discover commands and parameters at runtime."@)), ("args"@, JsonSpec::Object(seq![("COMMAND"@, JsonSpec::Str("Optional: command name to describe"@))])), ("agent_tip"@, JsonSpec::Str("Always machine-readable JSON regardless of --output flag."@))]);
    let v1 = object(e1);
    v1
}

fn auth_schema() -> (v: JsonValue)
    ensures
        describes_command(v),
        json_view(v) == auth_command_spec(),
{
    let e2 = vec![field("login", text("Save token to config file")), field("logout", text("Remove token from config file")), field("status", text("Show current token source and masked value"))];
    assert(entries_view(e2@) =~= seq![("login"@, JsonSpec::Str("Save token to config file"@)), ("logout"@, JsonSpec::Str("Remove token from config file"@)), ("status"@, JsonSpec::Str("Show current token source and masked value"@))]);
    let v2 = object(e2);
    let e1 = vec![field("description", text("Manage the API token in the config file.")), field("subcommands", v2)];
    assert(entries_view(e1@) =~= seq![("description"@, JsonSpec::Str("Manage the API token in the config file."@)), ("subcommands"@, JsonSpec::Object(seq![("login"@, JsonSpec::Str("Save token to config file"@)), ("logout"@, JsonSpec::Str("Remove token from config file"@)), ("status"@, JsonSpec::Str("Show current token source and masked value"@))]))]);
    let v1 = object(e1);
    v1
}

fn self_update_schema() -> (v: JsonValue)
    ensures
        describes_command(v),
        json_view(v) == self_update_command_spec(),
{
    let e3 = vec![field("type", text("bool")), field("description", text("Check for updates without installing"))];
    assert(entries_view(e3@) =~= seq![("type"@, JsonSpec::Str("bool"@)), ("description"@, JsonSpec::Str("Check for updates without installing"@))]);
    let v3 = object(e3);
    let e4 = vec![field("type", text("string")), field("description", text("Install a specific version (e.g. v0.2.0)"))];
    assert(entries_view(e4@) =~= seq![("type"@, JsonSpec::Str("string"@)), ("description"@, JsonSpec::Str("Install a specific version (e.g. v0.2.0)"@))]);
    let v4 = object(e4);
    let e5 = vec![field("type", text("bool")), field("description", text("Force reinstall even if already on the latest version"))];
    assert(entries_view(e5@) =~= seq![("type"@, JsonSpec::Str("bool"@)), ("description"@, JsonSpec::Str("Force reinstall even if already on the latest version"@))]);
    let v5 = object(e5);
    let e2 = vec![field("--check", v3), field("--version", v4), field("--force", v5)];
    assert(entries_view(e2@) =~= seq![("--check"@, JsonSpec::Object(seq![("type"@, JsonSpec::Str("bool"@)), ("description"@, JsonSpec::Str("Check for updates without installing"@))])), ("--version"@, JsonSpec::Object(seq![("type"@, JsonSpec::Str("string"@)), ("description"@, JsonSpec::Str("Install a specific version (e.g. v0.2.0)"@))])), ("--force"@, JsonSpec::Object(seq![("type"@, JsonSpec::Str("bool"@)), ("description"@, JsonSpec::Str("Force reinstall even if already on the latest version"@))]))]);
    let v2 = object(e2);
    let e1 = vec![field("description", text("Update keentools-cloud to the latest (or a specific) release from GitHub.")), field("flags", v2), field("agent_tip", text("Does not need --api-url or --token."))];
    assert(entries_view(e1@) =~= seq![("description"@, JsonSpec::Str("Update keentools-cloud to the latest (or a specific) release from GitHub."@)), ("flags"@, JsonSpec::Object(seq![("--check"@, JsonSpec::Object(seq![("type"@, JsonSpec::Str("bool"@)), ("description"@, JsonSpec::Str("Check for updates without installing"@))])), ("--version"@, JsonSpec::Object(seq![("type"@, JsonSpec::Str("string"@)), ("description"@, JsonSpec::Str("Install a specific version (e.g. v0.2.0)"@))])), ("--force"@, JsonSpec::Object(seq![("type"@, JsonSpec::Str("bool"@)), ("description"@, JsonSpec::Str("Force reinstall even if already on the latest version"@))]))])), ("agent_tip"@, JsonSpec::Str("Does not need --api-url or --token."@))]);
    let v1 = object(e1);
    v1
}

fn commands_schema() -> (v: JsonValue)
    ensures
        v matches JsonValue::Object(cs) && entry_keys(cs@) == command_names()
            && forall|i: int| 0 <= i < cs@.len() ==> describes_command(#[trigger] cs@[i].1),
        json_view(v) == commands_spec(),
{
    let cs = vec![
        field("init", init_schema()),
        field("upload", upload_schema()),
        field("process", process_schema()),
        field("status", status_schema()),
        field("download", download_schema()),
        field("info", info_schema()),
        field("run", run_schema()),
        field("ephemeral", ephemeral_schema()),
        field("schema", schema_schema()),
        field("auth", auth_schema()),
        field("self-update", self_update_schema()),
    ];
    assert(entry_keys(cs@) =~= command_names());
    assert(entries_view(cs@) =~= commands_spec()->Object_0);
    object(cs)
}

/// The full schema document for the program at `version`.
pub fn build_schema(version: &str) -> (s: JsonValue)
    ensures
        schema_shape(s, version@),
        json_view(s) == schema_spec(version@),
{
    let e1 = vec![field("type", text("bearer")), field("env_var", text("KEENTOOLS_API_TOKEN")), field("flag", text("--token")), field("config_file", text("~/.config/keentools-cloud/config.toml"))];
    assert(entries_view(e1@) =~= seq![("type"@, JsonSpec::Str("bearer"@)), ("env_var"@, JsonSpec::Str("KEENTOOLS_API_TOKEN"@)), ("flag"@, JsonSpec::Str("--token"@)), ("config_file"@, JsonSpec::Str("~/.config/keentools-cloud/config.toml"@))]);
    let v1 = object(e1);
    let e3 = vec![field("type", text("string")), field("description", text("API token"))];
    assert(entries_view(e3@) =~= seq![("type"@, JsonSpec::Str("string"@)), ("description"@, JsonSpec::Str("API token"@))]);
    let v3 = object(e3);
    let a5 = vec![text("human"), text("json")];
    assert(items_view(a5@) =~= seq![JsonSpec::Str("human"@), JsonSpec::Str("json"@)]);
    let v5 = array(a5);
    let e4 = vec![field("type", text("enum")), field("values", v5), field("description", text("Output format (default: human on TTY, json otherwise)"))];
    assert(entries_view(e4@) =~= seq![("type"@, JsonSpec::Str("enum"@)), ("values"@, JsonSpec::Array(seq![JsonSpec::Str("human"@), JsonSpec::Str("json"@)])), ("description"@, JsonSpec::Str("Output format (default: human on TTY, json otherwise)"@))]);
    let v4 = object(e4);
    let e6 = vec![field("type", text("string")), field("env", text("KEENTOOLS_API_URL")), field("required", JsonValue::Bool(true)), field("description", text("API base URL"))];
    assert(entries_view(e6@) =~= seq![("type"@, JsonSpec::Str("string"@)), ("env"@, JsonSpec::Str("KEENTOOLS_API_URL"@)), ("required"@, JsonSpec::Bool(true)), ("description"@, JsonSpec::Str("API base URL"@))]);
    let v6 = object(e6);
    let e2 = vec![field("--token", v3), field("--output", v4), field("--api-url", v6)];
    assert(entries_view(e2@) =~= seq![("--token"@, JsonSpec::Object(seq![("type"@, JsonSpec::Str("string"@)), ("description"@, JsonSpec::Str("API token"@))])), ("--output"@, JsonSpec::Object(seq![("type"@, JsonSpec::Str("enum"@)), ("values"@, JsonSpec::Array(seq![JsonSpec::Str("human"@), JsonSpec::Str("json"@)])), ("description"@, JsonSpec::Str("Output format (default: human on TTY, json otherwise)"@))])), ("--api-url"@, JsonSpec::Object(seq![("type"@, JsonSpec::Str("string"@)), ("env"@, JsonSpec::Str("KEENTOOLS_API_URL"@)), ("required"@, JsonSpec::Bool(true)), ("description"@, JsonSpec::Str("API base URL"@))]))]);
    let v2 = object(e2);
    let e7 = vec![field("0", text("success")), field("1", text("API or runtime error")), field("2", text("input validation error")), field("3", text("authentication error"))];
    assert(entries_view(e7@) =~= seq![("0"@, JsonSpec::Str("success"@)), ("1"@, JsonSpec::Str("API or runtime error"@)), ("2"@, JsonSpec::Str("input validation error"@)), ("3"@, JsonSpec::Str("authentication error"@))]);
    let v7 = object(e7);
    let es = vec![field("commands", commands_schema()), field("name", text("keentools-cloud")), field("version", text(version)), field("description", text("Unofficial CLI for the KeenTools Cloud 3D Head Reconstruction API")), field("disclaimer", text("This is an unofficial tool, not affiliated with or endorsed by KeenTools.")), field("base_url", text("Set via KEENTOOLS_API_URL env var or --api-url flag (required)")), field("auth", v1), field("global_flags", v2), field("exit_codes", v7)];
    assert(entries_view(es@) =~= schema_spec(version@)->Object_0);
    proof {
        reveal_strlit("commands");
        reveal_strlit("name");
        reveal_strlit("version");
        assert("commands"@[0] != "name"@[0]);
        assert("commands"@[0] != "version"@[0]);
        assert("name"@[0] != "version"@[0]);
        let s1 = es@.drop_first();
        let s2 = s1.drop_first();
        assert(s1[0] == es@[1]);
        assert(s2[0] == es@[2]);
        assert(crate::json::entry_lookup(es@, "commands"@) == Some(es@[0].1));
        assert(crate::json::entry_lookup(s1, "name"@) == Some(es@[1].1));
        assert(crate::json::entry_lookup(es@, "name"@) == Some(es@[1].1));
        assert(crate::json::entry_lookup(s2, "version"@) == Some(es@[2].1));
        assert(crate::json::entry_lookup(s1, "version"@) == Some(es@[2].1));
        assert(crate::json::entry_lookup(es@, "version"@) == Some(es@[2].1));
    }
    object(es)
}

/// What `schema` prints: the whole schema, or one command's description, or
/// `{"error": "unknown command: <command>"}` when the schema has no such command.
pub fn schema_output(schema: JsonValue, command: Option<&str>) -> (out: JsonValue)
    ensures
        match command {
            None => out == schema,
            Some(c) => match json_get(schema, "commands"@) {
                Some(cs) => match json_get(cs, c@) {
                    Some(v) => out == v,
                    None => is_unknown_command(out, c@),
                },
                None => is_unknown_command(out, c@),
            },
        },
{
    match command {
        None => schema,
        Some(c) => {
            let found = match schema.into_member("commands") {
                Some(cs) => cs.into_member(c),
                None => None,
            };
            match found {
                Some(v) => v,
                None => {
                    let msg = concat("unknown command: ", c);
                    proof {
                        reveal_strlit("unknown command: ");
                    }
                    object(vec![field("error", JsonValue::Str(msg))])
                },
            }
        },
    }
}

/// `schema --command <c>` on the built schema answers with that command's
/// description exactly when `c` is one of the described commands, and with the
/// unknown-command error otherwise.
pub proof fn lemma_schema_lookup(schema: JsonValue, version: Seq<char>, c: Seq<char>)
    requires
        schema_shape(schema, version),
    ensures
        json_get(schema, "commands"@) matches Some(cs) && (json_get(cs, c) is Some <==> command_names().contains(c)),
        command_names().contains(c) ==> (json_get(schema, "commands"@) matches Some(cs) && json_get(cs, c) matches Some(d) && describes_command(d)),
{
    let cs = json_get(schema, "commands"@)->0;
    let es = cs->Object_0;
    lemma_lookup_found(es@, c);
    if command_names().contains(c) {
        lemma_lookup_describes(es@, c);
    }
}

proof fn lemma_lookup_describes(es: Seq<(String, JsonValue)>, key: Seq<char>)
    requires
        forall|i: int| 0 <= i < es.len() ==> describes_command(#[trigger] es[i].1),
        entry_keys(es).contains(key),
    ensures
        crate::json::entry_lookup(es, key) matches Some(d) && describes_command(d),
    decreases es.len(),
{
    lemma_lookup_found(es, key);
    if es[0].0@ != key {
        let rest = es.drop_first();
        assert forall|i: int| 0 <= i < rest.len() implies describes_command(#[trigger] rest[i].1) by {
            assert(rest[i] == es[i + 1]);
        }
        lemma_lookup_found(rest, key);
        lemma_lookup_describes(rest, key);
    }
}

} // verus!
