use keentools_cloud::validate::{avatar_id, https_url, photo_count, photo_path, photo_path_verdict, ValidationError};

#[test]
fn avatar_id_reports_the_first_rule_broken() {
    assert_eq!(avatar_id(""), Err(ValidationError::EmptyId));
    assert_eq!(avatar_id(&"b".repeat(129)), Err(ValidationError::IdTooLong { len: 129 }));
    assert_eq!(avatar_id(&"b".repeat(128)), Ok(()));
    assert_eq!(avatar_id("ab\x07c/d"), Err(ValidationError::ControlChar { code: 7 }));
    assert_eq!(avatar_id("a/b?c"), Err(ValidationError::ForbiddenChar { ch: '?' }));
    assert_eq!(avatar_id("a%b#c"), Err(ValidationError::ForbiddenChar { ch: '#' }));
    assert_eq!(avatar_id("a\\b"), Err(ValidationError::ForbiddenChar { ch: '\\' }));
    assert_eq!(avatar_id("a..b"), Err(ValidationError::PathTraversal));
    assert_eq!(avatar_id("a.b.c"), Ok(()));
}

#[test]
fn avatar_id_length_counts_characters() {
    // 128 two-byte characters are accepted; one more is too long.
    let ok = "é".repeat(128);
    assert_eq!(avatar_id(&ok), Ok(()));
    let long = "é".repeat(129);
    assert_eq!(avatar_id(&long), Err(ValidationError::IdTooLong { len: 129 }));
    assert_eq!(avatar_id(&"é".repeat(100)), Ok(()));
}

#[test]
fn https_url_rules() {
    assert_eq!(https_url("HTTPS://example.com"), Err(ValidationError::NotHttps));
    assert_eq!(https_url("https:/example.com"), Err(ValidationError::NotHttps));
    assert_eq!(https_url("https://example.com/a\r\nX-Injected: 1"), Err(ValidationError::UrlControlChar { code: 13 }));
    assert_eq!(https_url("https://example.com/a\tb"), Err(ValidationError::UrlControlChar { code: 9 }));
    let long = format!("https://{}", "x".repeat(4089));
    assert_eq!(https_url(&long), Err(ValidationError::UrlTooLong { len: 4097 }));
    let max = format!("https://{}", "x".repeat(4088));
    assert_eq!(https_url(&max), Ok(()));
}

#[test]
fn photo_count_bounds() {
    assert_eq!(photo_count(1), Err(ValidationError::PhotoCount { count: 1 }));
    assert_eq!(photo_count(2), Ok(()));
    assert_eq!(photo_count(15), Ok(()));
    assert_eq!(photo_count(16), Err(ValidationError::PhotoCount { count: 16 }));
    assert_eq!(photo_count(0), Err(ValidationError::PhotoCount { count: 0 }));
}

#[test]
fn photo_path_verdict_cases() {
    assert_eq!(photo_path_verdict("a.jpg", Ok("/tmp/a.jpg".to_string()), true), Ok(()));
    assert_eq!(photo_path_verdict("tmp", Ok("/tmp".to_string()), false), Err(ValidationError::NotAFile));
    assert_eq!(
        photo_path_verdict("x.jpg", Err("No such file".to_string()), false),
        Err(ValidationError::CannotAccess { reason: "No such file".to_string() })
    );
    assert_eq!(photo_path_verdict("photos/../face.jpg", Ok("/face.jpg".to_string()), true), Err(ValidationError::ParentComponent));
    assert_eq!(photo_path_verdict("photos/..face.jpg", Ok("/p/..face.jpg".to_string()), true), Ok(()));
}

#[test]
fn photo_path_on_the_file_system() {
    assert_eq!(photo_path("/"), Err(ValidationError::NotAFile));
    assert_eq!(photo_path("/tmp/../"), Err(ValidationError::ParentComponent));
    assert!(matches!(photo_path("/no/such/dir/front.jpg"), Err(ValidationError::CannotAccess { .. })));
}
