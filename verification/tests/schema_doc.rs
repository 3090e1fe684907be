use keentools_cloud::json::JsonValue;
use keentools_cloud::schema::{build_schema, schema_output};

const COMMANDS: [&str; 11] = ["init", "upload", "process", "status", "download", "info", "run", "ephemeral", "schema", "auth", "self-update"];

fn text_of(v: Option<&JsonValue>) -> Option<String> {
    match v {
        Some(JsonValue::Str(s)) => Some(s.clone()),
        _ => None,
    }
}

#[test]
fn schema_names_program_and_version() {
    let s = build_schema("0.1.1");
    assert_eq!(text_of(s.get("name")), Some("keentools-cloud".to_string()));
    assert_eq!(text_of(s.get("version")), Some("0.1.1".to_string()));
    let auth = s.get("auth").unwrap();
    assert_eq!(text_of(auth.get("env_var")), Some("KEENTOOLS_API_TOKEN".to_string()));
}

#[test]
fn every_command_is_described() {
    for c in COMMANDS {
        let out = schema_output(build_schema("1.0.0"), Some(c));
        assert!(out.get("description").is_some(), "command {}", c);
        assert!(out.get("error").is_none());
    }
}

#[test]
fn init_count_range() {
    let out = schema_output(build_schema("1.0.0"), Some("init"));
    let count = out.get("flags").unwrap().get("--count").unwrap();
    match count.get("range") {
        Some(JsonValue::Array(xs)) => {
            assert!(matches!(xs[0], JsonValue::Int(2)));
            assert!(matches!(xs[1], JsonValue::Int(15)));
        }
        _ => panic!("range missing"),
    }
}

#[test]
fn unknown_command_gives_error_object() {
    let out = schema_output(build_schema("1.0.0"), Some("upgrade"));
    assert_eq!(text_of(out.get("error")), Some("unknown command: upgrade".to_string()));
    assert!(out.get("description").is_none());
}

#[test]
fn no_command_gives_whole_schema() {
    let out = schema_output(build_schema("2.3.4"), None);
    assert_eq!(text_of(out.get("version")), Some("2.3.4".to_string()));
    assert!(out.get("commands").is_some());
}

#[test]
fn api_commands_name_their_endpoint() {
    let s = build_schema("1.0.0");
    let init = schema_output(s, Some("init"));
    assert_eq!(text_of(init.get("endpoint")), Some("POST /v1/avatar/init".to_string()));
    let process = schema_output(build_schema("1.0.0"), Some("process"));
    assert_eq!(text_of(process.get("endpoint")), Some("POST /v1/avatar/{avatar_id}/process".to_string()));
    let update = schema_output(build_schema("1.0.0"), Some("self-update"));
    assert!(update.get("description").is_some());
}
