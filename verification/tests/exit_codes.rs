use keentools_cloud::auth::AuthError;
use keentools_cloud::cli::SetupError;
use keentools_cloud::client::ApiError;
use keentools_cloud::download::DownloadError;
use keentools_cloud::exit::{
    api_kind, auth_kind, download_kind, exit_code, input_kind, run_kind, setup_kind, update_kind, FailureKind,
};
use keentools_cloud::json::JsonValue;
use keentools_cloud::pipeline::RunError;
use keentools_cloud::request::InputError;
use keentools_cloud::schema::build_schema;
use keentools_cloud::self_update::UpdateError;
use keentools_cloud::validate::ValidationError;

#[test]
fn exit_codes_per_kind() {
    assert_eq!(exit_code(FailureKind::Runtime), 1);
    assert_eq!(exit_code(FailureKind::Validation), 2);
    assert_eq!(exit_code(FailureKind::Authentication), 3);
}

#[test]
fn refused_token_is_an_authentication_error() {
    let refused = ApiError::Auth { status: 401, body: "bad token".to_string() };
    assert_eq!(api_kind(&refused), FailureKind::Authentication);
    assert_eq!(api_kind(&ApiError::NotFound { body: String::new() }), FailureKind::Runtime);
    assert_eq!(api_kind(&ApiError::Other { status: 500, body: String::new() }), FailureKind::Runtime);
    assert_eq!(setup_kind(&SetupError::Auth(AuthError::NoToken)), FailureKind::Authentication);
    assert_eq!(auth_kind(&AuthError::NoTokenGiven), FailureKind::Authentication);
}

#[test]
fn refused_inputs_are_validation_errors() {
    assert_eq!(input_kind(&InputError::MissingFocalLengths), FailureKind::Validation);
    assert_eq!(input_kind(&InputError::Invalid(ValidationError::PathTraversal)), FailureKind::Validation);
    assert_eq!(setup_kind(&SetupError::MissingApiUrl), FailureKind::Validation);
    assert_eq!(download_kind(&DownloadError::Invalid(ValidationError::EmptyId)), FailureKind::Validation);
    assert_eq!(run_kind(&RunError::Input(InputError::NoResultUrl)), FailureKind::Validation);
}

#[test]
fn failures_after_the_checks_are_runtime_errors() {
    assert_eq!(download_kind(&DownloadError::BadArchive), FailureKind::Runtime);
    assert_eq!(download_kind(&DownloadError::InnerDecompressFailed), FailureKind::Runtime);
    assert_eq!(run_kind(&RunError::AvatarDeleted), FailureKind::Runtime);
    assert_eq!(update_kind(&UpdateError::NoAsset), FailureKind::Runtime);
}

#[test]
fn schema_lists_the_exit_codes() {
    let schema = build_schema("0.1.1");
    let codes = schema.get("exit_codes").unwrap();
    let text = |k: &str| match codes.get(k) {
        Some(JsonValue::Str(s)) => s.clone(),
        _ => String::new(),
    };
    assert_eq!(text(&exit_code(FailureKind::Runtime).to_string()), "API or runtime error");
    assert_eq!(text(&exit_code(FailureKind::Validation).to_string()), "input validation error");
    assert_eq!(text(&exit_code(FailureKind::Authentication).to_string()), "authentication error");
    assert_eq!(text("0"), "success");
}
