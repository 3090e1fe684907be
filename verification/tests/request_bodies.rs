use keentools_cloud::cli::FocalLengthType;
use keentools_cloud::json::JsonValue;
use keentools_cloud::request::{
    build_focal_payload, ephemeral_request, init_request, parse_result_url, process_request, EphemeralArgs, InitArgs, InputError,
    ProcessArgs,
};
use keentools_cloud::validate::ValidationError;

fn text_of(v: Option<&JsonValue>) -> Option<String> {
    match v {
        Some(JsonValue::Str(s)) => Some(s.clone()),
        _ => None,
    }
}

fn bool_of(v: Option<&JsonValue>) -> Option<bool> {
    match v {
        Some(JsonValue::Bool(b)) => Some(*b),
        _ => None,
    }
}

fn floats_of(v: Option<&JsonValue>) -> Vec<f32> {
    match v {
        Some(JsonValue::Array(xs)) => xs
            .iter()
            .map(|x| match x {
                JsonValue::Float { bits } => f32::from_bits(*bits),
                _ => panic!("not a number"),
            })
            .collect(),
        _ => panic!("not an array"),
    }
}

fn bits(v: &[f32]) -> Vec<u32> {
    v.iter().map(|f| f.to_bits()).collect()
}

#[test]
fn init_body_counts_photos() {
    let body = init_request(&InitArgs { count: 3, dry_run: false }).ok().unwrap();
    assert!(matches!(body.get("image_count"), Some(JsonValue::Int(3))));
    assert!(matches!(init_request(&InitArgs { count: 1, dry_run: true }), Err(InputError::Invalid(ValidationError::PhotoCount { count: 1 }))));
}

#[test]
fn process_body_is_nested() {
    let args = ProcessArgs {
        avatar_id: "av1".to_string(),
        focal_length_type: FocalLengthType::EstimatePerImage,
        focal_lengths: None,
        expressions: true,
        dry_run: false,
    };
    let (path, body) = process_request(&args).ok().unwrap();
    assert_eq!(path, "/v1/avatar/av1/process");
    let inner = body.get("focal_length_type").unwrap().get("focal_length_type").unwrap();
    assert_eq!(text_of(inner.get("focal_length_type")), Some("estimate_per_image".to_string()));
    assert!(inner.get("focal_length_values").is_none());
    assert_eq!(bool_of(body.get("expressions_enabled")), Some(true));
}

#[test]
fn process_manual_needs_values() {
    let mut args = ProcessArgs {
        avatar_id: "av1".to_string(),
        focal_length_type: FocalLengthType::Manual,
        focal_lengths: None,
        expressions: false,
        dry_run: true,
    };
    assert!(matches!(process_request(&args), Err(InputError::MissingFocalLengths)));
    args.focal_lengths = Some(vec![]);
    assert!(matches!(process_request(&args), Err(InputError::EmptyFocalLengths)));
    args.focal_lengths = Some(bits(&[24.0, 28.5]));
    let (_, body) = process_request(&args).ok().unwrap();
    let inner = body.get("focal_length_type").unwrap().get("focal_length_type").unwrap();
    assert_eq!(text_of(inner.get("focal_length_type")), Some("manual".to_string()));
    assert_eq!(floats_of(inner.get("focal_length_values")), vec![24.0, 28.5]);
    args.avatar_id = "bad?id".to_string();
    assert!(matches!(process_request(&args), Err(InputError::Invalid(ValidationError::ForbiddenChar { ch: '?' }))));
}

#[test]
fn run_focal_payload_matches_process() {
    let body = build_focal_payload(FocalLengthType::EstimateCommon, &None, false).ok().unwrap();
    let inner = body.get("focal_length_type").unwrap().get("focal_length_type").unwrap();
    assert_eq!(text_of(inner.get("focal_length_type")), Some("estimate_common".to_string()));
    assert_eq!(bool_of(body.get("expressions_enabled")), Some(false));
    let body = build_focal_payload(FocalLengthType::Manual, &Some(bits(&[35.0])), true).ok().unwrap();
    let inner = body.get("focal_length_type").unwrap().get("focal_length_type").unwrap();
    assert_eq!(text_of(inner.get("focal_length_type")), Some("manual".to_string()));
    assert_eq!(floats_of(inner.get("focal_length_values")), vec![35.0]);
    assert_eq!(bool_of(body.get("expressions_enabled")), Some(true));
    assert!(matches!(build_focal_payload(FocalLengthType::Manual, &None, false), Err(InputError::MissingFocalLengths)));
}

#[test]
fn result_url_split_on_first_colon() {
    let (f, u) = parse_result_url("GLB:https://bucket/r.glb?sig=a:b").ok().unwrap();
    assert_eq!(f, "glb");
    assert_eq!(u, "https://bucket/r.glb?sig=a:b");
    assert!(matches!(parse_result_url("no-colon"), Err(InputError::BadResultUrl { ref entry }) if entry == "no-colon"));
    assert!(matches!(parse_result_url("obj:http://x"), Err(InputError::Invalid(ValidationError::NotHttps))));
}

fn eph() -> EphemeralArgs {
    EphemeralArgs {
        image_urls: vec!["https://cdn/a.jpg".to_string(), "https://cdn/b.jpg".to_string()],
        result_urls: vec!["glb:https://s3/r.glb".to_string()],
        focal_length_type: FocalLengthType::EstimatePerImage,
        focal_lengths: None,
        expressions: false,
        callback_url: None,
        dry_run: true,
    }
}

#[test]
fn ephemeral_body() {
    let mut a = eph();
    a.callback_url = Some("https://hook".to_string());
    let body = ephemeral_request(&a).ok().unwrap();
    match body.get("image_urls") {
        Some(JsonValue::Array(xs)) => assert_eq!(xs.len(), 2),
        _ => panic!(),
    }
    match body.get("result_mesh_urls") {
        Some(JsonValue::Array(xs)) => {
            assert_eq!(xs.len(), 1);
            assert_eq!(text_of(xs[0].get("format")), Some("glb".to_string()));
            assert_eq!(text_of(xs[0].get("url")), Some("https://s3/r.glb".to_string()));
            assert_eq!(bool_of(xs[0].get("edges")), Some(false));
            assert_eq!(text_of(xs[0].get("mesh_lod")), Some("high_poly".to_string()));
        }
        _ => panic!(),
    }
    assert_eq!(text_of(body.get("focal_length_type")), Some("estimate_per_image".to_string()));
    assert_eq!(text_of(body.get("callback_url")), Some("https://hook".to_string()));
}

#[test]
fn ephemeral_checks_in_order() {
    let mut a = eph();
    a.image_urls = vec!["https://cdn/a.jpg".to_string()];
    assert!(matches!(ephemeral_request(&a), Err(InputError::Invalid(ValidationError::PhotoCount { count: 1 }))));
    let mut a = eph();
    a.image_urls[1] = "http://cdn/b.jpg".to_string();
    assert!(matches!(ephemeral_request(&a), Err(InputError::Invalid(ValidationError::NotHttps))));
    let mut a = eph();
    a.callback_url = Some("ftp://x".to_string());
    assert!(matches!(ephemeral_request(&a), Err(InputError::Invalid(ValidationError::NotHttps))));
    let mut a = eph();
    a.result_urls = vec![];
    assert!(matches!(ephemeral_request(&a), Err(InputError::NoResultUrl)));
    let mut a = eph();
    a.result_urls.push("bad".to_string());
    assert!(matches!(ephemeral_request(&a), Err(InputError::BadResultUrl { .. })));
    let mut a = eph();
    a.focal_length_type = FocalLengthType::Manual;
    assert!(matches!(ephemeral_request(&a), Err(InputError::MissingFocalLengths)));
}

fn to_value(v: &JsonValue) -> serde_json::Value {
    match v {
        JsonValue::Null => serde_json::Value::Null,
        JsonValue::Bool(b) => serde_json::Value::Bool(*b),
        JsonValue::Int(n) => serde_json::Value::from(*n),
        JsonValue::Float { bits } => serde_json::Value::from(f32::from_bits(*bits) as f64),
        JsonValue::Str(s) => serde_json::Value::String(s.clone()),
        JsonValue::Array(xs) => serde_json::Value::Array(xs.iter().map(to_value).collect()),
        JsonValue::Object(es) => {
            let mut m = serde_json::Map::new();
            for (k, v) in es {
                m.insert(k.clone(), to_value(v));
            }
            serde_json::Value::Object(m)
        }
    }
}

fn parsed(s: &str) -> serde_json::Value {
    serde_json::from_str(s).unwrap()
}

#[test]
fn process_body_wire_shape() {
    let args = ProcessArgs {
        avatar_id: "av1".to_string(),
        focal_length_type: FocalLengthType::Manual,
        focal_lengths: Some(bits(&[24.0, 28.5])),
        expressions: false,
        dry_run: false,
    };
    let (_, body) = process_request(&args).ok().unwrap();
    let expected = parsed(
        r#"{"focal_length_type":{"focal_length_type":{"focal_length_type":"manual","focal_length_values":[24.0,28.5]}},"expressions_enabled":false}"#,
    );
    assert_eq!(to_value(&body), expected);
}

#[test]
fn ephemeral_body_wire_shape() {
    let mut a = eph();
    a.callback_url = Some("https://hook".to_string());
    a.expressions = true;
    let body = ephemeral_request(&a).ok().unwrap();
    let expected = parsed(
        r#"{"image_urls":["https://cdn/a.jpg","https://cdn/b.jpg"],
            "result_mesh_urls":[{"format":"glb","url":"https://s3/r.glb","edges":false,"mesh_lod":"high_poly"}],
            "focal_length_type":"estimate_per_image","expressions_enabled":true,"callback_url":"https://hook"}"#,
    );
    assert_eq!(to_value(&body), expected);
}

#[test]
fn run_body_wire_shape() {
    let body = build_focal_payload(FocalLengthType::EstimatePerImage, &None, false).ok().unwrap();
    assert_eq!(
        to_value(&body),
        parsed(r#"{"focal_length_type":{"focal_length_type":{"focal_length_type":"estimate_per_image"}},"expressions_enabled":false}"#)
    );
    let body = init_request(&InitArgs { count: 4, dry_run: false }).ok().unwrap();
    assert_eq!(to_value(&body), parsed(r#"{"image_count":4}"#));
}
