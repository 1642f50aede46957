use converter::config::Config;
use converter::converter::{FitMode, OutputFormat};
use converter::error::ConverterError;
use converter::request::{determine_format, parse_path, validate_request, ImageQuery};

fn config() -> Config {
    Config {
        port: 8000,
        s3_endpoint: "http://localhost:9000".to_string(),
        s3_access_key: "access".to_string(),
        s3_secret_key: "secret".to_string(),
        s3_region: "us-east-1".to_string(),
        webp_default_quality: 85,
        max_dimension: 4096,
    }
}

fn query(w: Option<u32>, h: Option<u32>, q: Option<u8>, fit: Option<&str>) -> ImageQuery {
    ImageQuery { w, h, q, fit: fit.map(|s| s.to_string()) }
}

#[test]
fn parse_path_splits_container_and_key() {
    let (b, k) = parse_path("/images/photo.png").unwrap();
    assert_eq!(b, "images");
    assert_eq!(k, "photo.png");
}

#[test]
fn parse_path_key_keeps_slashes() {
    let (b, k) = parse_path("/soeji-images/a/b/c.png").unwrap();
    assert_eq!(b, "soeji-images");
    assert_eq!(k, "a/b/c.png");
}

#[test]
fn parse_path_without_leading_slash() {
    let (b, k) = parse_path("bucket/key").unwrap();
    assert_eq!((b, k), ("bucket", "key"));
}

#[test]
fn parse_path_without_key_is_invalid() {
    assert!(matches!(parse_path("/bucket"), Err(ConverterError::InvalidParameter(_))));
}

#[test]
fn parse_path_with_empty_bucket_is_invalid() {
    assert!(matches!(parse_path("//key"), Err(ConverterError::InvalidParameter(_))));
    match parse_path("//images/photo.png") {
        Err(ConverterError::InvalidParameter(msg)) => assert_eq!(msg, "bucket name is empty"),
        other => panic!("unexpected {:?}", other),
    }
    assert!(matches!(parse_path("//a/b"), Err(ConverterError::InvalidParameter(_))));
}

#[test]
fn parse_path_messages_name_the_violation() {
    match parse_path("/bucket") {
        Err(ConverterError::InvalidParameter(msg)) => {
            assert_eq!(msg, "path must be in format: /{bucket}/{key}")
        }
        other => panic!("unexpected {:?}", other),
    }
    match parse_path("/bucket/") {
        Err(ConverterError::InvalidParameter(msg)) => assert_eq!(msg, "object key is empty"),
        other => panic!("unexpected {:?}", other),
    }
}

#[test]
fn parse_path_with_empty_key_is_invalid() {
    assert!(matches!(parse_path("/bucket/"), Err(ConverterError::InvalidParameter(_))));
    assert!(matches!(parse_path(""), Err(ConverterError::InvalidParameter(_))));
    assert!(matches!(parse_path("///"), Err(ConverterError::InvalidParameter(_))));
}

#[test]
fn fit_mode_parses_ignoring_case() {
    assert_eq!(FitMode::from_str("cover"), Some(FitMode::Cover));
    assert_eq!(FitMode::from_str("CONTAIN"), Some(FitMode::Contain));
    assert_eq!(FitMode::from_str("Fill"), Some(FitMode::Fill));
    assert_eq!(FitMode::from_str("stretch"), None);
    assert_eq!(FitMode::from_str(""), None);
}

#[test]
fn fit_mode_from_lowercase_is_exact() {
    assert_eq!(FitMode::from_lowercase("fill"), Some(FitMode::Fill));
    assert_eq!(FitMode::from_lowercase("FILL"), None);
}

#[test]
fn webp_is_chosen_when_accepted() {
    assert_eq!(determine_format("image/avif,image/webp,*/*;q=0.8"), OutputFormat::WebP);
    assert_eq!(determine_format("image/webp"), OutputFormat::WebP);
}

#[test]
fn png_is_chosen_otherwise() {
    assert_eq!(determine_format(""), OutputFormat::Png);
    assert_eq!(determine_format("image/png,*/*"), OutputFormat::Png);
    assert_eq!(determine_format("image/web"), OutputFormat::Png);
}

#[test]
fn quality_bounds() {
    let c = config();
    for q in [0u8, 101, 255] {
        let r = validate_request("/b/k", &query(None, None, Some(q), None), "", &c);
        assert!(matches!(r, Err(ConverterError::InvalidParameter(_))));
    }
    for q in [1u8, 100] {
        let r = validate_request("/b/k", &query(None, None, Some(q), None), "", &c).unwrap();
        assert_eq!(r.quality, q);
    }
}

#[test]
fn default_quality_applies() {
    let r = validate_request("/b/k", &query(None, None, None, None), "", &config()).unwrap();
    assert_eq!(r.quality, 85);
    assert_eq!(r.fit_mode, FitMode::Cover);
    assert_eq!(r.output_format, OutputFormat::Png);
}

#[test]
fn out_of_range_default_quality_is_rejected() {
    let mut c = config();
    c.webp_default_quality = 0;
    let r = validate_request("/b/k", &query(None, None, None, None), "", &c);
    assert!(matches!(r, Err(ConverterError::InvalidParameter(_))));
}

#[test]
fn width_above_ceiling_is_too_large() {
    let r = validate_request("/images/photo.png", &query(Some(5000), None, None, None), "", &config());
    assert!(matches!(r, Err(ConverterError::DimensionTooLarge(5000, 4096))));
}

#[test]
fn height_above_ceiling_is_too_large() {
    let r = validate_request("/b/k", &query(Some(10), Some(4097), None, None), "", &config());
    assert!(matches!(r, Err(ConverterError::DimensionTooLarge(4097, 4096))));
}

#[test]
fn ceiling_itself_is_allowed() {
    let r = validate_request("/b/k", &query(Some(4096), Some(4096), None, None), "", &config());
    assert!(r.is_ok());
}

#[test]
fn zero_dimensions_are_invalid() {
    let c = config();
    let r = validate_request("/b/k", &query(Some(0), None, None, None), "", &c);
    assert!(matches!(r, Err(ConverterError::InvalidParameter(_))));
    match validate_request("/b/k", &query(None, Some(0), None, None), "", &c) {
        Err(ConverterError::InvalidParameter(msg)) => assert_eq!(msg, "height must be greater than 0"),
        other => panic!("unexpected {:?}", other),
    }
}

#[test]
fn path_is_checked_before_dimensions() {
    let r = validate_request("/bucket", &query(Some(5000), None, None, None), "", &config());
    assert!(matches!(r, Err(ConverterError::InvalidParameter(_))));
}

#[test]
fn fit_names_fall_back_to_cover() {
    let c = config();
    let r = validate_request("/b/k", &query(None, None, None, Some("FILL")), "", &c).unwrap();
    assert_eq!(r.fit_mode, FitMode::Fill);
    let r = validate_request("/b/k", &query(None, None, None, Some("contain")), "", &c).unwrap();
    assert_eq!(r.fit_mode, FitMode::Contain);
    let r = validate_request("/b/k", &query(None, None, None, Some("zoom")), "", &c).unwrap();
    assert_eq!(r.fit_mode, FitMode::Cover);
}

#[test]
fn validated_request_carries_everything() {
    let r = validate_request(
        "/images/photo.png",
        &query(Some(200), Some(100), Some(70), Some("cover")),
        "image/webp",
        &config(),
    )
    .unwrap();
    assert_eq!(r.bucket, "images");
    assert_eq!(r.key, "photo.png");
    assert_eq!(r.width, Some(200));
    assert_eq!(r.height, Some(100));
    assert_eq!(r.quality, 70);
    assert_eq!(r.fit_mode, FitMode::Cover);
    assert_eq!(r.output_format, OutputFormat::WebP);
}
