use keentools_cloud::auth::{is_maskable, login_token, mask_token, resolve_token, token_status, AuthError, TokenSource};
use keentools_cloud::config::Config;

#[test]
fn mask_short_tokens_with_stars() {
    assert_eq!(mask_token(""), "");
    assert_eq!(mask_token("abc"), "***");
    assert_eq!(mask_token("abcd1234"), "********");
}

#[test]
fn mask_long_tokens_keeps_ends() {
    assert_eq!(mask_token("abcdefghijkl"), "abcd...ijkl");
    assert_eq!(mask_token("abcd12345"), "abcd...2345");
}

#[test]
fn flag_token_wins_over_config() {
    let cfg = Config::empty().with_token("saved".to_string());
    assert_eq!(resolve_token(Some("flag"), Some(&cfg)), Ok("flag".to_string()));
}

#[test]
fn empty_flag_falls_back_to_config() {
    let cfg = Config::empty().with_token("saved".to_string());
    assert_eq!(resolve_token(Some(""), Some(&cfg)), Ok("saved".to_string()));
    assert_eq!(resolve_token(None, Some(&cfg)), Ok("saved".to_string()));
}

#[test]
fn no_token_anywhere_is_an_error() {
    let cfg = Config::empty();
    assert_eq!(resolve_token(None, Some(&cfg)), Err(AuthError::NoToken));
    assert_eq!(resolve_token(None, None), Err(AuthError::NoToken));
    let empty = Config::empty().with_token(String::new());
    assert_eq!(resolve_token(Some(""), Some(&empty)), Err(AuthError::NoToken));
}

#[test]
fn login_then_logout_round_trip() {
    let cfg = Config::empty().with_token("tok-123".to_string());
    assert_eq!(resolve_token(None, Some(&cfg)), Ok("tok-123".to_string()));
    let cfg = cfg.without_token();
    assert_eq!(resolve_token(None, Some(&cfg)), Err(AuthError::NoToken));
}

#[test]
fn login_token_sources() {
    assert_eq!(login_token(Some("a".to_string()), Some("b".to_string())), Ok("a".to_string()));
    assert_eq!(login_token(None, Some("b".to_string())), Ok("b".to_string()));
    assert_eq!(login_token(None, None), Err(AuthError::NoTokenGiven));
}

#[test]
fn token_status_prefers_environment() {
    let cfg = Config::empty().with_token("configtoken123".to_string());
    let st = token_status(Some("envtoken9876"), &cfg);
    assert_eq!(st.source, TokenSource::EnvVar);
    assert_eq!(st.masked, "envt...9876");
    assert_eq!(st.source.label(), "KEENTOOLS_API_TOKEN (env var)");
    let st = token_status(None, &cfg);
    assert_eq!(st.source, TokenSource::ConfigFile);
    assert_eq!(st.masked, "conf...n123");
    assert_eq!(st.source.label(), "config file");
    let st = token_status(None, &Config::empty());
    assert_eq!(st.source, TokenSource::Unset);
    assert_eq!(st.masked, "not configured");
    assert_eq!(st.source.label(), "none");
}

#[test]
fn maskable_tokens() {
    assert!(is_maskable("short"));
    assert!(is_maskable("abcdefghijkl"));
    assert!(is_maskable("éééééé"));
    assert_eq!(mask_token("éééééé"), "éé...éé");
    assert!(!is_maskable("aaaé€€€bbb"));
}

#[test]
fn status_document_keys() {
    let cfg = Config::empty().with_token("abcd1234efghwxyz".to_string());
    let st = token_status(None, &cfg);
    assert_eq!(st.source.json_name(), "config_file");
    let doc = keentools_cloud::auth::status_document(st);
    let text = |k: &str| match doc.get(k) {
        Some(keentools_cloud::json::JsonValue::Str(s)) => s.clone(),
        _ => String::new(),
    };
    assert_eq!(text("status"), "authenticated");
    assert_eq!(text("source"), "config_file");
    assert_eq!(text("token_preview"), "abcd...wxyz");
    assert!(doc.get("config_path").is_none());
    match &doc {
        keentools_cloud::json::JsonValue::Object(es) => {
            let keys: Vec<&str> = es.iter().map(|(k, _)| k.as_str()).collect();
            assert_eq!(keys, vec!["status", "source", "token_preview"]);
        }
        _ => panic!("status document is not an object"),
    }
    let st = token_status(None, &Config::empty());
    assert_eq!(st.source.json_name(), "none");
    let doc = keentools_cloud::auth::status_document(st);
    assert!(matches!(doc.get("status"), Some(keentools_cloud::json::JsonValue::Str(s)) if s == "not_configured"));
    assert_eq!(token_status(Some("abc"), &Config::empty()).source.json_name(), "env_var");
}
