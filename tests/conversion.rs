use std::io::Cursor;

use converter::config::Config;
use converter::converter::{
    convert, decode_image, encode_image, proportional_side, resize_image, ConversionRequest,
    FitMode, OutputFormat,
};
use converter::error::ConverterError;
use converter::request::{validate_request, ImageQuery};
use image::{DynamicImage, ImageOutputFormat, Rgba, RgbaImage};

fn png_of(w: u32, h: u32) -> Vec<u8> {
    let img = RgbaImage::from_fn(w, h, |x, y| Rgba([(x % 256) as u8, (y % 256) as u8, 128, 200]));
    let mut buf = Vec::new();
    DynamicImage::ImageRgba8(img)
        .write_to(&mut Cursor::new(&mut buf), ImageOutputFormat::Png)
        .unwrap();
    buf
}

fn dims_of(data: &[u8]) -> (u32, u32) {
    let img = image::load_from_memory(data).unwrap();
    (img.width(), img.height())
}

fn request(data: Vec<u8>, w: Option<u32>, h: Option<u32>, f: OutputFormat, fit: FitMode) -> ConversionRequest {
    ConversionRequest { data, width: w, height: h, output_format: f, quality: 85, fit_mode: fit }
}

fn resized(src: (u32, u32), w: Option<u32>, h: Option<u32>, fit: FitMode) -> (u32, u32) {
    let img = decode_image(&png_of(src.0, src.1)).unwrap();
    let out = resize_image(&img, w, h, fit).unwrap();
    (out.width(), out.height())
}

#[test]
fn decode_reports_dimensions() {
    let img = decode_image(&png_of(37, 19)).unwrap();
    assert_eq!((img.width(), img.height()), (37, 19));
}

#[test]
fn decode_rejects_garbage() {
    let r = decode_image(&vec![1u8, 2, 3, 4, 5]);
    assert!(matches!(r, Err(ConverterError::ImageError(_))));
}

#[test]
fn proportional_side_rounds_to_nearest() {
    assert_eq!(proportional_side(400, 200, 800), Some(100));
    assert_eq!(proportional_side(401, 3, 800), Some(2));
    assert_eq!(proportional_side(1, 1, 2), Some(1));
    assert_eq!(proportional_side(1, 1, 3), Some(0));
    assert_eq!(proportional_side(2, 1, 3), Some(1));
    assert_eq!(proportional_side(5, 7, 0), Some(0));
    assert_eq!(proportional_side(u32::MAX, 1, 1), Some(u32::MAX));
    assert_eq!(proportional_side(u32::MAX, 2, 1), None);
}

#[test]
fn cover_yields_exact_box() {
    assert_eq!(resized((800, 400), Some(200), Some(100), FitMode::Cover), (200, 100));
    assert_eq!(resized((800, 400), Some(100), Some(100), FitMode::Cover), (100, 100));
    assert_eq!(resized((30, 70), Some(64), Some(17), FitMode::Cover), (64, 17));
}

#[test]
fn fill_yields_exact_box() {
    assert_eq!(resized((800, 400), Some(123), Some(45), FitMode::Fill), (123, 45));
    assert_eq!(resized((10, 90), Some(123), Some(45), FitMode::Fill), (123, 45));
}

#[test]
fn contain_fits_within_box() {
    assert_eq!(resized((800, 400), Some(200), Some(200), FitMode::Contain), (200, 100));
    assert_eq!(resized((400, 800), Some(200), Some(300), FitMode::Contain), (150, 300));
}

#[test]
fn width_only_keeps_aspect_ratio() {
    assert_eq!(resized((800, 400), Some(200), None, FitMode::Cover), (200, 100));
    assert_eq!(resized((800, 401), Some(3), None, FitMode::Fill), (3, 2));
}

#[test]
fn height_only_keeps_aspect_ratio() {
    assert_eq!(resized((800, 400), None, Some(50), FitMode::Cover), (100, 50));
    assert_eq!(resized((3, 7), None, Some(10), FitMode::Contain), (4, 10));
}

#[test]
fn no_dimensions_pass_through() {
    assert_eq!(resized((31, 17), None, None, FitMode::Cover), (31, 17));
}

#[test]
fn png_round_trip_keeps_dimensions() {
    let img = decode_image(&png_of(64, 33)).unwrap();
    let (data, ct) = encode_image(&img, OutputFormat::Png, 85).unwrap();
    assert_eq!(ct, "image/png");
    assert_eq!(dims_of(&data), (64, 33));
}

#[test]
fn webp_keeps_dimensions_at_any_quality() {
    let img = decode_image(&png_of(64, 33)).unwrap();
    for q in [1u8, 50, 100] {
        let (data, ct) = encode_image(&img, OutputFormat::WebP, q).unwrap();
        assert_eq!(ct, "image/webp");
        assert_eq!(&data[..4], b"RIFF");
        assert_eq!(dims_of(&data), (64, 33));
    }
}

#[test]
fn png_ignores_quality() {
    let img = decode_image(&png_of(20, 10)).unwrap();
    let (a, _) = encode_image(&img, OutputFormat::Png, 1).unwrap();
    let (b, _) = encode_image(&img, OutputFormat::Png, 100).unwrap();
    assert_eq!(a, b);
}

#[test]
fn convert_reports_both_dimensions() {
    let r = convert(request(png_of(50, 40), None, None, OutputFormat::Png, FitMode::Cover)).unwrap();
    assert_eq!((r.original_width, r.original_height), (50, 40));
    assert_eq!((r.output_width, r.output_height), (50, 40));
    assert_eq!(r.content_type, "image/png");
}

#[test]
fn convert_rejects_undecodable_bytes() {
    let r = convert(request(b"not an image".to_vec(), Some(10), None, OutputFormat::WebP, FitMode::Cover));
    assert!(matches!(r, Err(ConverterError::ImageError(_))));
}

fn config() -> Config {
    Config {
        port: 8000,
        s3_endpoint: "http://localhost:9000".to_string(),
        s3_access_key: "access".to_string(),
        s3_secret_key: "secret".to_string(),
        s3_region: "us-east-1".to_string(),
        webp_default_quality: 85,
        max_dimension: 4096,
    }
}

fn cover_200x100(accept: &str) -> converter::converter::ConversionResult {
    let q = ImageQuery { w: Some(200), h: Some(100), q: None, fit: Some("cover".to_string()) };
    let v = validate_request("/images/photo.png", &q, accept, &config()).unwrap();
    assert_eq!((v.bucket, v.key), ("images", "photo.png"));
    convert(v.into_conversion(png_of(800, 400))).unwrap()
}

#[test]
fn webp_request_end_to_end() {
    let r = cover_200x100("image/webp");
    assert_eq!(r.content_type, "image/webp");
    assert_eq!((r.output_width, r.output_height), (200, 100));
    assert_eq!((r.original_width, r.original_height), (800, 400));
    assert_eq!(dims_of(&r.data), (200, 100));
}

#[test]
fn png_request_end_to_end() {
    let r = cover_200x100("text/html,*/*");
    assert_eq!(r.content_type, "image/png");
    assert_eq!((r.output_width, r.output_height), (200, 100));
    assert_eq!((r.original_width, r.original_height), (800, 400));
    assert_eq!(dims_of(&r.data), (200, 100));
}

#[test]
fn same_request_gives_same_bytes() {
    let a = convert(request(png_of(60, 30), Some(20), None, OutputFormat::WebP, FitMode::Cover)).unwrap();
    let b = convert(request(png_of(60, 30), Some(20), None, OutputFormat::WebP, FitMode::Cover)).unwrap();
    assert_eq!(a.data, b.data);
    assert_eq!((a.output_width, a.output_height), (20, 10));
}

#[test]
fn png_conversion_ignores_quality() {
    let mut r1 = request(png_of(40, 20), Some(10), Some(10), OutputFormat::Png, FitMode::Contain);
    r1.quality = 1;
    let mut r2 = request(png_of(40, 20), Some(10), Some(10), OutputFormat::Png, FitMode::Contain);
    r2.quality = 100;
    let a = convert(r1).unwrap();
    let b = convert(r2).unwrap();
    assert_eq!(a.data, b.data);
    assert_eq!((a.output_width, a.output_height), (10, 5));
}
