use keentools_cloud::validate::{avatar_id, https_url};

#[test]
fn valid_avatar_id() {
    assert!(avatar_id("avatar_12345").is_ok());
    assert!(avatar_id("abc-def_123").is_ok());
}

#[test]
fn rejects_path_traversal() {
    assert!(avatar_id("../../.ssh/id_rsa").is_err());
    assert!(avatar_id("foo/bar").is_err());
    assert!(avatar_id("foo\\bar").is_err());
    assert!(avatar_id("foo..bar").is_err());
}

#[test]
fn rejects_query_injection() {
    assert!(avatar_id("avatar?fields=name").is_err());
    assert!(avatar_id("avatar#fragment").is_err());
    assert!(avatar_id("avatar%2e%2e").is_err());
}

#[test]
fn rejects_control_chars() {
    assert!(avatar_id("avatar\x00id").is_err());
    assert!(avatar_id("avatar\x1fid").is_err());
}

#[test]
fn rejects_empty() {
    assert!(avatar_id("").is_err());
}

#[test]
fn rejects_too_long() {
    let long_id = "a".repeat(129);
    assert!(avatar_id(&long_id).is_err());
}

#[test]
fn valid_https_url() {
    assert!(https_url("https://example.com/path").is_ok());
}

#[test]
fn rejects_http_url() {
    assert!(https_url("http://example.com").is_err());
}
