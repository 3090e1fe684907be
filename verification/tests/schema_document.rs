use keentools_cloud::json::JsonValue;
use keentools_cloud::schema::build_schema;

fn to_value(v: &JsonValue) -> serde_json::Value {
    match v {
        JsonValue::Null => serde_json::Value::Null,
        JsonValue::Bool(b) => serde_json::Value::Bool(*b),
        JsonValue::Int(n) => serde_json::Value::from(*n),
        JsonValue::Float { bits } => serde_json::Value::from(f32::from_bits(*bits) as f64),
        JsonValue::Str(s) => serde_json::Value::String(s.clone()),
        JsonValue::Array(xs) => serde_json::Value::Array(xs.iter().map(to_value).collect()),
        JsonValue::Object(es) => {
            let mut m = serde_json::Map::new();
            for (k, v) in es {
                m.insert(k.clone(), to_value(v));
            }
            serde_json::Value::Object(m)
        }
    }
}

const EXPECTED: &str = r###"{"commands": {"init": {"description": "Initialize a new avatar reconstruction session. Returns avatar_id and upload_urls.", "endpoint": "POST /v1/avatar/init", "flags": {"--count": {"type": "integer", "range": [2, 15], "required": true, "description": "Number of photos to upload"}, "--dry-run": {"type": "bool", "description": "Validate locally without calling the API"}}, "output": {"avatar_id": "string", "upload_urls": "array of pre-signed S3 PUT URLs (one per photo)"}, "agent_tip": "Pipe output to `upload` via avatar_id. Use --dry-run first."}, "upload": {"description": "Upload photos to pre-signed S3 URLs obtained from `init`.", "args": {"PHOTOS": "One or more local image file paths (JPEG, PNG, HEIC)"}, "flags": {"--avatar-id": {"type": "string", "required": true, "description": "Avatar ID from init"}, "--urls": {"type": "string", "description": "Comma-separated pre-signed URLs (alternative to reading from init output)"}}, "agent_tip": "Photos and upload_urls are matched by position. Must upload exactly --count files."}, "process": {"description": "Start 3D reconstruction after all photos are uploaded.", "endpoint": "POST /v1/avatar/{avatar_id}/process", "flags": {"--avatar-id": {"type": "string", "required": true}, "--focal-length-type": {"type": "enum", "values": ["estimate-common", "estimate-per-image", "manual"], "required": true, "description": "How to determine focal length. Use estimate-per-image for mixed cameras."}, "--focal-lengths": {"type": "string", "description": "Comma-separated 35mm-equivalent values, one per photo. Required when --focal-length-type=manual."}, "--expressions": {"type": "bool", "description": "Enable expression blendshapes (makes 'expression' group available in download)"}, "--dry-run": {"type": "bool", "description": "Validate request without calling API"}}, "agent_tip": "Use --dry-run before triggering reconstruction. Reconstruction cannot be cancelled."}, "status": {"description": "Check reconstruction status. Statuses: not_started, running, completed, failed, deleted.", "endpoint": "GET /v1/avatar/{avatar_id}/get-status", "flags": {"--avatar-id": {"type": "string", "required": true}, "--poll": {"type": "bool", "description": "Keep polling until completed or failed"}, "--poll-interval": {"type": "integer", "default": 5, "description": "Seconds between polls"}}, "output": {"status": "not_started | running | completed | failed | deleted", "progress": "float 0.0–1.0 (when running)"}, "agent_tip": "Use --poll to wait for completion instead of manually polling in a loop."}, "download": {"description": "Download the completed 3D model. Uses polling protocol internally.", "endpoint": "GET /v1/avatar/{avatar_id}/get-3d-model", "flags": {"--avatar-id": {"type": "string", "required": true}, "--output-path": {"type": "path", "required": true, "description": "Where to save the file"}, "--format": {"type": "enum", "values": ["glb", "obj"], "default": "glb"}, "--blendshapes": {"type": "string", "description": "Comma-separated: arkit,expression,nose (GLB only)"}, "--texture": {"type": "enum", "values": ["jpg", "png"], "description": "Include texture (GLB only)"}, "--edges": {"type": "bool", "description": "Include wireframe edges (GLB only)"}, "--poll": {"type": "bool", "description": "Wait for model to be ready"}}, "agent_tip": "OBJ format is always a ZIP archive. Use --blendshapes arkit,nose (comma-separated, NOT repeated flags)."}, "info": {"description": "Get reconstruction metadata: camera matrices, focal length used, image URLs.", "endpoint": "GET /v1/avatar/{avatar_id}/get-info", "flags": {"--avatar-id": {"type": "string", "required": true}}, "output": {"camera_positions": "array of 4x4 world-to-camera matrices (row-major)", "camera_projections": "array of 4x4 intrinsic matrices", "focal_length_type": "manual | exif | estimated_common | estimated_per_image", "expressions_enabled": "bool", "img_urls": "array of pre-signed S3 URLs for preprocessed images (null for ephemeral)"}}, "run": {"description": "Full pipeline shortcut: init → upload → process → wait → download.", "args": {"PHOTOS": "Local photo paths (2–15)"}, "flags": {"--output-path": {"type": "path", "required": true}, "--focal-length-type": {"type": "enum", "values": ["estimate-common", "estimate-per-image", "manual"], "default": "estimate-per-image"}, "--focal-lengths": {"type": "string", "description": "Required when --focal-length-type=manual"}, "--expressions": {"type": "bool"}, "--format": {"type": "enum", "values": ["glb", "obj"], "default": "glb"}, "--blendshapes": {"type": "string", "default": ""}, "--texture": {"type": "enum", "values": ["jpg", "png"]}, "--edges": {"type": "bool"}, "--dry-run": {"type": "bool"}}, "agent_tip": "Preferred command for simple use cases. Use individual commands for more control."}, "ephemeral": {"description": "Zero-retention pipeline. Photos never stored server-side; results pushed to your URLs.", "endpoint": "POST /v1/avatar/ephemeral/create", "flags": {"--image-url": {"type": "string", "multiple": true, "required": true, "description": "Readable HTTPS URL to an input photo (2–15 total)"}, "--result-url": {"type": "string", "multiple": true, "required": true, "description": "Format: FORMAT:PUT_URL (e.g. glb:https://...)"}, "--focal-length-type": {"type": "enum", "values": ["estimate-common", "estimate-per-image", "manual"], "required": true}, "--focal-lengths": {"type": "string"}, "--expressions": {"type": "bool"}, "--callback-url": {"type": "string", "description": "HTTPS URL for completion webhook"}, "--dry-run": {"type": "bool"}}, "agent_tip": "After completion, avatar data is destroyed. /info and /download endpoints will return 404. Results are only available at the URLs you provided."}, "schema": {"description": "Dump CLI capabilities as JSON. Use to discover commands and parameters at runtime.", "args": {"COMMAND": "Optional: command name to describe"}, "agent_tip": "Always machine-readable JSON regardless of --output flag."}, "auth": {"description": "Manage the API token in the config file.", "subcommands": {"login": "Save token to config file", "logout": "Remove token from config file", "status": "Show current token source and masked value"}}, "self-update": {"description": "Update keentools-cloud to the latest (or a specific) release from GitHub.", "flags": {"--check": {"type": "bool", "description": "Check for updates without installing"}, "--version": {"type": "string", "description": "Install a specific version (e.g. v0.2.0)"}, "--force": {"type": "bool", "description": "Force reinstall even if already on the latest version"}}, "agent_tip": "Does not need --api-url or --token."}}, "name": "keentools-cloud", "version": "0.1.1", "description": "Unofficial CLI for the KeenTools Cloud 3D Head Reconstruction API", "disclaimer": "This is an unofficial tool, not affiliated with or endorsed by KeenTools.", "base_url": "Set via KEENTOOLS_API_URL env var or --api-url flag (required)", "auth": {"type": "bearer", "env_var": "KEENTOOLS_API_TOKEN", "flag": "--token", "config_file": "~/.config/keentools-cloud/config.toml"}, "global_flags": {"--token": {"type": "string", "description": "API token"}, "--output": {"type": "enum", "values": ["human", "json"], "description": "Output format (default: human on TTY, json otherwise)"}, "--api-url": {"type": "string", "env": "KEENTOOLS_API_URL", "required": true, "description": "API base URL"}}, "exit_codes": {"0": "success", "1": "API or runtime error", "2": "input validation error", "3": "authentication error"}}"###;

#[test]
fn schema_document_is_complete() {
    let expected: serde_json::Value = serde_json::from_str(EXPECTED).unwrap();
    let built = to_value(&build_schema("0.1.1"));
    assert_eq!(built, expected);
}
