use keentools_cloud::client::{avatar_path, bearer_value, endpoint_url, file_name_of, guess_mime, handle_response, map_api_error, ApiError};
use keentools_cloud::output::{choose_format, OutputFormat, Printer};

#[test]
fn mime_types_by_extension() {
    assert_eq!(guess_mime("front.jpg"), "image/jpeg");
    assert_eq!(guess_mime("dir/left.jpeg"), "image/jpeg");
    assert_eq!(guess_mime("right.png"), "image/png");
    assert_eq!(guess_mime("a.heic"), "image/heic");
    assert_eq!(guess_mime("a.heif"), "image/heic");
    assert_eq!(guess_mime("a.JPG"), "application/octet-stream");
    assert_eq!(guess_mime("noext"), "application/octet-stream");
    assert_eq!(guess_mime(".png"), "application/octet-stream");
    assert_eq!(guess_mime("photos/b.png/"), "image/png");
    assert_eq!(guess_mime("photos/b.png/."), "image/png");
    assert_eq!(guess_mime("photos/.."), "application/octet-stream");
    assert_eq!(guess_mime("archive.tar.png"), "image/png");
}

#[test]
fn file_names_follow_std_path() {
    for p in ["a/b.txt", "a/b/", "/", "", ".", "..", "a/..", "a/./", "./x", "a//b", "foo.txt/."] {
        let expected = std::path::Path::new(p).file_name().map(|n| n.to_str().unwrap().to_string());
        assert_eq!(file_name_of(p), expected, "path {:?}", p);
    }
}

#[test]
fn api_errors_by_status() {
    assert_eq!(map_api_error(401, "x".to_string()), ApiError::Auth { status: 401, body: "x".to_string() });
    assert_eq!(map_api_error(403, "y".to_string()), ApiError::Auth { status: 403, body: "y".to_string() });
    assert_eq!(map_api_error(404, "n".to_string()), ApiError::NotFound { body: "n".to_string() });
    assert_eq!(map_api_error(422, "f".to_string()), ApiError::ReconstructionFailed { body: "f".to_string() });
    assert_eq!(map_api_error(425, "w".to_string()), ApiError::NotReady { body: "w".to_string() });
    assert_eq!(map_api_error(500, "e".to_string()), ApiError::Other { status: 500, body: "e".to_string() });
}

#[test]
fn responses_by_status() {
    assert_eq!(handle_response(200, "{}".to_string()), Ok("{}".to_string()));
    assert_eq!(handle_response(204, String::new()), Ok(String::new()));
    assert_eq!(handle_response(302, "r".to_string()), Err(ApiError::Other { status: 302, body: "r".to_string() }));
    assert_eq!(handle_response(404, "n".to_string()), Err(ApiError::NotFound { body: "n".to_string() }));
}

#[test]
fn paths_and_urls() {
    assert_eq!(avatar_path("abc", "get-status"), "/v1/avatar/abc/get-status");
    assert_eq!(endpoint_url("https://api.example.com", "/v1/avatar/init"), "https://api.example.com/v1/avatar/init");
    assert_eq!(bearer_value("tok"), "Bearer tok");
}

#[test]
fn output_mode_choice() {
    assert_eq!(choose_format(Some(OutputFormat::Json), true), OutputFormat::Json);
    assert_eq!(choose_format(Some(OutputFormat::Human), false), OutputFormat::Human);
    assert_eq!(choose_format(None, true), OutputFormat::Human);
    assert_eq!(choose_format(None, false), OutputFormat::Json);
    assert!(Printer::new(OutputFormat::Json).is_json());
    assert!(!Printer::new(OutputFormat::Human).is_json());
    assert!(Printer::new(OutputFormat::Human).shows_status_lines());
}
