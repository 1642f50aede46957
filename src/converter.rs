use vstd::prelude::*;
use crate::error::ConverterError;
use image::DynamicImage;
use image::imageops::FilterType;
use std::io::Cursor;

verus! {

/// Declares the image crate's decoded pixel grid.
#[verifier::external_type_specification]
#[verifier::external_body]
pub struct ExDynamicImage(DynamicImage);

/// The encoding of the response body.
#[derive(Debug, Clone, Copy, Default, PartialEq, Eq, Structural)]
pub enum OutputFormat {
    /// Lossless; the quality setting does not apply.
    Png,
    /// Lossy, controlled by the quality setting.
    #[default]
    WebP,
}

/// How a requested box is reconciled with the source's aspect ratio.
#[derive(Debug, Clone, Copy, Default, PartialEq, Eq, Structural)]
pub enum FitMode {
    /// Scale to cover the box, then crop the overflow from the center.
    #[default]
    Cover,
    /// Scale to fit within the box, keeping the aspect ratio.
    Contain,
    /// Stretch to the exact box, ignoring the aspect ratio.
    Fill,
}

/// The fit mode that a lower-cased name denotes, if any.
pub open spec fn fit_named(s: Seq<char>) -> Option<FitMode> {
    if s == "cover"@ {
        Some(FitMode::Cover)
    } else if s == "contain"@ {
        Some(FitMode::Contain)
    } else if s == "fill"@ {
        Some(FitMode::Fill)
    } else {
        None
    }
}

/// What `str::to_lowercase` returns on the given characters.
pub uninterp spec fn lower_of(s: Seq<char>) -> Seq<char>;

/// Relies on `str::to_lowercase`: the result depends on the characters alone.
#[verifier::external_body]
fn lowercase(s: &str) -> (r: String)
    ensures
        r@ == lower_of(s@),
{
    s.to_lowercase()
}

impl FitMode {
    /// Parses a fit mode name, ignoring case.
    pub fn from_str(s: &str) -> (r: Option<FitMode>)
        ensures
            r == fit_named(lower_of(s@)),
    {
        let lower = lowercase(s);
        FitMode::from_lowercase(lower.as_str())
    }

    /// Parses a fit mode name that is already in lower case.
    pub fn from_lowercase(s: &str) -> (r: Option<FitMode>)
        ensures
            r == fit_named(s@),
    {
        proof {
            reveal_strlit("cover");
            reveal_strlit("contain");
            reveal_strlit("fill");
        }
        if crate::text::same_text(s, "cover") {
            Some(FitMode::Cover)
        } else if crate::text::same_text(s, "contain") {
            Some(FitMode::Contain)
        } else if crate::text::same_text(s, "fill") {
            Some(FitMode::Fill)
        } else {
            None
        }
    }
}

/// The media type announced for each output format.
pub open spec fn content_type_of(f: OutputFormat) -> Seq<char> {
    match f {
        OutputFormat::Png => "image/png"@,
        OutputFormat::WebP => "image/webp"@,
    }
}

/// What a decoded image holds, as plain values: its dimensions, its colour
/// layout (channels per pixel and bytes per pixel) and its raw sample bytes.
pub struct RasterView {
    pub width: u32,
    pub height: u32,
    pub channels: u8,
    pub bytes_per_pixel: u8,
    pub pixels: Seq<u8>,
}

/// The width and height of an image view.
pub open spec fn dims(v: RasterView) -> (u32, u32) {
    (v.width, v.height)
}

/// A decoded image together with its dimensions, colour layout and samples.
pub struct Raster {
    image: DynamicImage,
    width: u32,
    height: u32,
    channels: u8,
    bytes_per_pixel: u8,
    pixels: Vec<u8>,
}

impl View for Raster {
    type V = RasterView;

    closed spec fn view(&self) -> RasterView {
        RasterView {
            width: self.width,
            height: self.height,
            channels: self.channels,
            bytes_per_pixel: self.bytes_per_pixel,
            pixels: self.pixels@,
        }
    }
}

impl Raster {
    /// Width in pixels.
    pub fn width(&self) -> (r: u32)
        ensures
            r == self@.width,
    {
        self.width
    }

    /// Height in pixels.
    pub fn height(&self) -> (r: u32)
        ensures
            r == self@.height,
    {
        self.height
    }
}

/// What `image::load_from_memory` decodes the bytes into, if anything.
pub uninterp spec fn decoded(data: Seq<u8>) -> Option<RasterView>;

/// The samples `DynamicImage::resize_exact` produces from an image.
pub uninterp spec fn resampled(src: RasterView, w: u32, h: u32) -> Seq<u8>;

/// The samples `DynamicImage::resize_to_fill` produces from an image.
pub uninterp spec fn filled(src: RasterView, w: u32, h: u32) -> Seq<u8>;

/// The image `DynamicImage::resize` produces from an image.
pub uninterp spec fn fitted(src: RasterView, w: u32, h: u32) -> RasterView;

/// The PNG stream `DynamicImage::write_to` writes for an image, if it succeeds.
pub uninterp spec fn png_encoding(img: RasterView) -> Option<Seq<u8>>;

/// The RGBA samples `DynamicImage::to_rgba8` converts an image into.
pub uninterp spec fn rgba_of(img: RasterView) -> Seq<u8>;

/// The WebP stream `webp::Encoder::encode_simple` makes of RGBA samples, if
/// it succeeds.
pub uninterp spec fn webp_encoding(rgba: Seq<u8>, w: u32, h: u32, quality: u8) -> Option<Seq<u8>>;

/// An image of the source's colour layout with the given size and samples.
pub open spec fn reshaped(src: RasterView, w: u32, h: u32, pixels: Seq<u8>) -> RasterView {
    RasterView {
        width: w,
        height: h,
        channels: src.channels,
        bytes_per_pixel: src.bytes_per_pixel,
        pixels,
    }
}

/// `n / d` rounded to the nearest integer, halves rounding up.
pub open spec fn round_div(n: int, d: int) -> int {
    (2 * n + d) / (2 * d)
}

/// The side that keeps the aspect ratio when the side `base` becomes `target`:
/// `round(other * target / base)`; an empty source stays empty.
pub open spec fn proportional(other: u32, target: u32, base: u32) -> int {
    if base == 0 {
        0
    } else {
        round_div(other as int * target as int, base as int)
    }
}

/// Whether the dimensions of the source `(sw, sh)` are both nonzero.
pub open spec fn non_empty(src: (u32, u32)) -> bool {
    src.0 > 0 && src.1 > 0
}

/// Scaling the source to cover the box `(w, h)` would need a side longer than
/// a `u32` can hold.
pub open spec fn cover_overflows(src: (u32, u32), w: u32, h: u32) -> bool {
    non_empty(src) && (src.1 as int * w as int > u32::MAX as int * src.0 as int || src.0 as int
        * h as int > u32::MAX as int * src.1 as int)
}

/// Whether resizing the source with these parameters cannot be carried out
/// because a computed side does not fit in a `u32`.
pub open spec fn resize_overflows(
    src: (u32, u32),
    width: Option<u32>,
    height: Option<u32>,
    fit: FitMode,
) -> bool {
    match (width, height) {
        (Some(w), Some(h)) => fit == FitMode::Cover && cover_overflows(src, w, h),
        (Some(w), None) => proportional(src.1, w, src.0) > u32::MAX,
        (None, Some(h)) => proportional(src.0, h, src.1) > u32::MAX,
        (None, None) => false,
    }
}

/// The dimensions `out` are what resizing a source of dimensions `src` with
/// the requested width, height and fit mode yields.
pub open spec fn resized_dims(
    src: (u32, u32),
    width: Option<u32>,
    height: Option<u32>,
    fit: FitMode,
    out: (u32, u32),
) -> bool {
    match (width, height) {
        (Some(w), Some(h)) => match fit {
            FitMode::Cover => out == (w, h),
            FitMode::Fill => out == (w, h),
            FitMode::Contain => 1 <= out.0 <= w && 1 <= out.1 <= h && keeps_ratio(src, w, h, out),
        },
        (Some(w), None) => out.0 == w && out.1 as int == proportional(src.1, w, src.0),
        (None, Some(h)) => out.1 == h && out.0 as int == proportional(src.0, h, src.1),
        (None, None) => out == src,
    }
}

/// `a` is within one unit of `n / d`: `|a * d - n| <= d`.
pub open spec fn within_one(a: int, n: int, d: int) -> bool {
    a * d <= n + d && n <= a * d + d
}

/// The side of a contained image that does not meet the box is the source
/// side scaled by the same ratio, to within one pixel.
pub open spec fn keeps_ratio(src: (u32, u32), w: u32, h: u32, out: (u32, u32)) -> bool {
    non_empty(src) ==> ((out.0 == w && within_one(out.1 as int, src.1 as int * w as int, src.0 as int))
        || (out.1 == h && within_one(out.0 as int, src.0 as int * h as int, src.1 as int)))
}

/// The image that resizing `src` with these parameters yields, when no
/// computed side overflows.
pub open spec fn resized_view(
    src: RasterView,
    width: Option<u32>,
    height: Option<u32>,
    fit: FitMode,
) -> RasterView {
    match (width, height) {
        (Some(w), Some(h)) => match fit {
            FitMode::Cover => if non_empty(dims(src)) {
                reshaped(src, w, h, filled(src, w, h))
            } else {
                reshaped(src, w, h, resampled(src, w, h))
            },
            FitMode::Contain => fitted(src, w, h),
            FitMode::Fill => reshaped(src, w, h, resampled(src, w, h)),
        },
        (Some(w), None) => {
            let nh = proportional(src.height, w, src.width) as u32;
            reshaped(src, w, nh, resampled(src, w, nh))
        },
        (None, Some(h)) => {
            let nw = proportional(src.width, h, src.height) as u32;
            reshaped(src, nw, h, resampled(src, nw, h))
        },
        (None, None) => src,
    }
}

/// The bytes that encoding an image in a format at a quality yields, if the
/// encoder succeeds.
pub open spec fn encoding(img: RasterView, format: OutputFormat, quality: u8) -> Option<Seq<u8>> {
    match format {
        OutputFormat::Png => png_encoding(img),
        OutputFormat::WebP => if img.width <= WEBP_MAX_WIDTH {
            webp_encoding(rgba_of(img), img.width, img.height, quality)
        } else {
            None
        },
    }
}

/// Relies on `image::load_from_memory`, whose result depends on the bytes
/// alone; the image's size, colour layout and samples are recorded.
#[verifier::external_body]
fn load(data: &Vec<u8>) -> (r: Result<Raster, image::ImageError>)
    ensures
        r is Ok <==> decoded(data@) is Some,
        r is Ok ==> decoded(data@) == Some(r->Ok_0@),
{
    match image::load_from_memory(data) {
        Ok(image) => Ok(Raster {
        width: image.width(),
        height: image.height(),
        channels: image.color().channel_count(),
        bytes_per_pixel: image.color().bytes_per_pixel(),
        pixels: image.as_bytes().to_vec(),
        image,
    }),
        Err(e) => Err(e),
    }
}

/// Relies on `DynamicImage::resize_exact`, which resamples to exactly the
/// requested dimensions and keeps the colour layout.
#[verifier::external_body]
fn resize_exact(src: &Raster, w: u32, h: u32) -> (r: Raster)
    ensures
        r@ == reshaped(src@, w, h, resampled(src@, w, h)),
{
    let image = src.image.resize_exact(w, h, FilterType::Lanczos3);
    Raster {
        width: image.width(),
        height: image.height(),
        channels: image.color().channel_count(),
        bytes_per_pixel: image.color().bytes_per_pixel(),
        pixels: image.as_bytes().to_vec(),
        image,
    }
}

/// Relies on `DynamicImage::resize_to_fill`: it scales by the larger of the
/// two ratios, so that no side is shorter than the box, then crops the
/// center to exactly the box, keeping the colour layout. The `requires` keeps
/// the scaled sides within `u32`, where no side is clamped.
#[verifier::external_body]
fn resize_to_fill(src: &Raster, w: u32, h: u32) -> (r: Raster)
    requires
        non_empty(dims(src@)),
        w > 0,
        h > 0,
        !cover_overflows(dims(src@), w, h),
    ensures
        r@ == reshaped(src@, w, h, filled(src@, w, h)),
{
    let image = src.image.resize_to_fill(w, h, FilterType::Lanczos3);
    Raster {
        width: image.width(),
        height: image.height(),
        channels: image.color().channel_count(),
        bytes_per_pixel: image.color().bytes_per_pixel(),
        pixels: image.as_bytes().to_vec(),
        image,
    }
}

/// Relies on `DynamicImage::resize`: it scales both sides by the smaller of
/// the two ratios (in `f64`), rounds each and keeps it at least 1, so the
/// result lies within the box and, for a non-empty source, meets it on one
/// side while the other is the scaled source side, rounded.
#[verifier::external_body]
fn resize_within(src: &Raster, w: u32, h: u32) -> (r: Raster)
    requires
        w > 0,
        h > 0,
    ensures
        r@ == fitted(src@, w, h),
        1 <= r@.width <= w,
        1 <= r@.height <= h,
        keeps_ratio(dims(src@), w, h, dims(r@)),
{
    let image = src.image.resize(w, h, FilterType::Lanczos3);
    Raster {
        width: image.width(),
        height: image.height(),
        channels: image.color().channel_count(),
        bytes_per_pixel: image.color().bytes_per_pixel(),
        pixels: image.as_bytes().to_vec(),
        image,
    }
}

/// Relies on `DynamicImage::clone`, which copies the pixel grid.
#[verifier::external_body]
fn copy_raster(src: &Raster) -> (r: Raster)
    ensures
        r@ == src@,
{
    let image = src.image.clone();
    Raster {
        width: image.width(),
        height: image.height(),
        channels: image.color().channel_count(),
        bytes_per_pixel: image.color().bytes_per_pixel(),
        pixels: image.as_bytes().to_vec(),
        image,
    }
}

/// `proportional(other, target, base)` when it fits in a `u32`.
pub fn proportional_side(other: u32, target: u32, base: u32) -> (r: Option<u32>)
    ensures
        r is Some <==> proportional(other, target, base) <= u32::MAX,
        r is Some ==> r->Some_0 as int == proportional(other, target, base),
{
    if base == 0 {
        return Some(0);
    }
    proof {
        lemma_product_bound(other, target);
    }
    let n: u128 = (other as u128) * (target as u128);
    let d: u128 = base as u128;
    let q: u128 = (2 * n + d) / (2 * d);
    if q > (u32::MAX as u128) {
        None
    } else {
        Some(q as u32)
    }
}

/// Resizes the image as the requested dimensions and fit mode say; with
/// neither dimension the image passes through unchanged.
pub fn resize_image(
    img: &Raster,
    width: Option<u32>,
    height: Option<u32>,
    fit_mode: FitMode,
) -> (r: Result<Raster, ConverterError>)
    requires
        width is Some ==> width->Some_0 > 0,
        height is Some ==> height->Some_0 > 0,
    ensures
        r is Err <==> resize_overflows(dims(img@), width, height, fit_mode),
        r is Err ==> r->Err_0 is Internal,
        r is Ok ==> resized_dims(dims(img@), width, height, fit_mode, dims(r->Ok_0@)),
        r is Ok ==> r->Ok_0@ == resized_view(img@, width, height, fit_mode),
{
    match (width, height) {
        (Some(w), Some(h)) => {
            match fit_mode {
                FitMode::Cover => {
                    if img.width == 0 || img.height == 0 {
                        // An empty source covers any box once stretched.
                        Ok(resize_exact(img, w, h))
                    } else if fill_overflows(img.width, img.height, w, h) {
                        Err(
                            ConverterError::Internal(
                                String::from_str("scaled image exceeds the pixel range"),
                            ),
                        )
                    } else {
                        Ok(resize_to_fill(img, w, h))
                    }
                },
                FitMode::Contain => Ok(resize_within(img, w, h)),
                FitMode::Fill => Ok(resize_exact(img, w, h)),
            }
        },
        (Some(w), None) => match proportional_side(img.height, w, img.width) {
            Some(new_height) => Ok(resize_exact(img, w, new_height)),
            None => Err(
                ConverterError::Internal(String::from_str("scaled height exceeds the pixel range")),
            ),
        },
        (None, Some(h)) => match proportional_side(img.width, h, img.height) {
            Some(new_width) => Ok(resize_exact(img, new_width, h)),
            None => Err(
                ConverterError::Internal(String::from_str("scaled width exceeds the pixel range")),
            ),
        },
        (None, None) => Ok(copy_raster(img)),
    }
}

proof fn lemma_product_bound(a: u32, b: u32)
    ensures
        0 <= a as int * b as int <= u32::MAX as int * u32::MAX as int,
{
    assert(0 <= a as int * b as int <= u32::MAX as int * u32::MAX as int) by (nonlinear_arith)
        requires
            a <= u32::MAX,
            b <= u32::MAX,
    ;
}

/// Whether covering the box `(w, h)` from a non-empty `(sw, sh)` source
/// would need a side longer than a `u32` can hold.
fn fill_overflows(sw: u32, sh: u32, w: u32, h: u32) -> (r: bool)
    requires
        sw > 0,
        sh > 0,
    ensures
        r == cover_overflows((sw, sh), w, h),
{
    proof {
        lemma_product_bound(sh, w);
    }
    proof {
        lemma_product_bound(sw, h);
    }
    let a: u64 = (sh as u64) * (w as u64);
    let b: u64 = (u32::MAX as u64) * (sw as u64);
    let c: u64 = (sw as u64) * (h as u64);
    let d: u64 = (u32::MAX as u64) * (sh as u64);
    a > b || c > d
}

/// Relies on `DynamicImage::write_to` with the PNG output format, which
/// writes a lossless PNG stream of the image's samples into the buffer.
#[verifier::external_body]
fn encode_png(img: &Raster) -> (r: Result<Vec<u8>, image::ImageError>)
    ensures
        r is Ok <==> png_encoding(img@) is Some,
        r is Ok ==> png_encoding(img@) == Some(r->Ok_0@),
{
    let mut buffer = Vec::new();
    match img.image.write_to(&mut Cursor::new(&mut buffer), image::ImageOutputFormat::Png) {
        Ok(()) => Ok(buffer),
        Err(e) => Err(e),
    }
}

/// Relies on `DynamicImage::to_rgba8`: four bytes per pixel, row by row.
#[verifier::external_body]
fn rgba_pixels(img: &Raster) -> (r: Vec<u8>)
    ensures
        r@ == rgba_of(img@),
        r@.len() == 4 * img@.width as int * img@.height as int,
{
    img.image.to_rgba8().into_raw()
}

/// Relies on `webp::Encoder::from_rgba` and `Encoder::encode_simple` (lossy,
/// at the given quality); the encoder's error is kept as its name. The
/// `requires` matches the buffer to the dimensions, which the encoder reads
/// without checking, and keeps the row stride within `i32`.
#[verifier::external_body]
fn encode_webp(rgba: &Vec<u8>, w: u32, h: u32, quality: u8) -> (r: Result<Vec<u8>, String>)
    requires
        rgba@.len() == 4 * w as int * h as int,
        4 * w as int <= i32::MAX,
    ensures
        r is Ok <==> webp_encoding(rgba@, w, h, quality) is Some,
        r is Ok ==> webp_encoding(rgba@, w, h, quality) == Some(r->Ok_0@),
{
    let encoder = webp::Encoder::from_rgba(rgba, w, h);
    match encoder.encode_simple(false, quality.into()) {
        Ok(memory) => Ok(memory.to_vec()),
        Err(e) => Err(format!("{:?}", e)),
    }
}

/// The widest image whose RGBA rows the WebP encoder can address.
pub const WEBP_MAX_WIDTH: u32 = 0x1FFF_FFFF;

/// Encodes the image in the given format: PNG losslessly (the quality is not
/// used), WebP lossily at the given quality from an RGBA buffer, so that
/// alpha is kept. Returns the bytes and their media type.
pub fn encode_image(img: &Raster, format: OutputFormat, quality: u8) -> (r: Result<
    (Vec<u8>, &'static str),
    ConverterError,
>)
    requires
        1 <= quality <= 100,
    ensures
        r is Ok <==> encoding(img@, format, quality) is Some,
        r is Ok ==> encoding(img@, format, quality) == Some(r->Ok_0.0@),
        r is Ok ==> r->Ok_0.1@ == content_type_of(format),
        r is Err ==> (format == OutputFormat::Png && r->Err_0 is ImageError) || (format
            == OutputFormat::WebP && r->Err_0 is WebPError),
{
    proof {
        reveal_strlit("image/png");
        reveal_strlit("image/webp");
    }
    match format {
        OutputFormat::Png => match encode_png(img) {
            Ok(buffer) => Ok((buffer, "image/png")),
            Err(e) => Err(ConverterError::ImageError(e)),
        },
        OutputFormat::WebP => {
            if img.width > WEBP_MAX_WIDTH {
                return Err(
                    ConverterError::WebPError(String::from_str("image too wide to encode")),
                );
            }
            let rgba = rgba_pixels(img);
            match encode_webp(&rgba, img.width, img.height, quality) {
                Ok(data) => Ok((data, "image/webp")),
                Err(msg) => Err(ConverterError::WebPError(msg)),
            }
        },
    }
}

/// A validated conversion: the encoded source and what to make of it.
pub struct ConversionRequest {
    pub data: Vec<u8>,
    pub width: Option<u32>,
    pub height: Option<u32>,
    pub output_format: OutputFormat,
    pub quality: u8,
    pub fit_mode: FitMode,
}

impl ConversionRequest {
    /// Quality within 1..=100 and any requested dimension positive.
    pub open spec fn wf(&self) -> bool {
        1 <= self.quality <= 100 && (self.width is Some ==> self.width->Some_0 > 0) && (
        self.height is Some ==> self.height->Some_0 > 0)
    }
}

/// The encoded output together with the dimensions before and after resizing.
pub struct ConversionResult {
    pub data: Vec<u8>,
    pub content_type: &'static str,
    pub original_width: u32,
    pub original_height: u32,
    pub output_width: u32,
    pub output_height: u32,
}

/// Decodes encoded image bytes.
pub fn decode_image(data: &Vec<u8>) -> (r: Result<Raster, ConverterError>)
    ensures
        r is Ok <==> decoded(data@) is Some,
        r is Ok ==> decoded(data@) == Some(r->Ok_0@),
        r is Err ==> r->Err_0 is ImageError,
{
    match load(data) {
        Ok(img) => Ok(img),
        Err(e) => Err(ConverterError::ImageError(e)),
    }
}

/// What converting a request yields: `None` where decoding fails, a scaled
/// side overflows or the encoder fails; otherwise the source, the resized
/// image and its encoding.
pub open spec fn conversion_of(request: ConversionRequest) -> Option<(RasterView, RasterView, Seq<u8>)> {
    match decoded(request.data@) {
        None => None,
        Some(src) => if resize_overflows(dims(src), request.width, request.height, request.fit_mode) {
            None
        } else {
            let out = resized_view(src, request.width, request.height, request.fit_mode);
            match encoding(out, request.output_format, request.quality) {
                Some(bytes) => Some((src, out, bytes)),
                None => None,
            }
        },
    }
}

/// Decodes, resizes and re-encodes the image that the request carries.
pub fn convert(request: ConversionRequest) -> (r: Result<ConversionResult, ConverterError>)
    requires
        request.wf(),
    ensures
        r is Ok <==> conversion_of(request) is Some,
        r is Ok ==> {
            let res = r->Ok_0;
            let (src, out, bytes) = conversion_of(request)->Some_0;
            &&& (res.original_width, res.original_height) == dims(src)
            &&& (res.output_width, res.output_height) == dims(out)
            &&& resized_dims(dims(src), request.width, request.height, request.fit_mode, dims(out))
            &&& res.data@ == bytes
            &&& res.content_type@ == content_type_of(request.output_format)
        },
        decoded(request.data@) is None ==> r is Err && r->Err_0 is ImageError,
        r is Err && r->Err_0 is Internal ==> decoded(request.data@) is Some && resize_overflows(
            dims(decoded(request.data@)->Some_0),
            request.width,
            request.height,
            request.fit_mode,
        ),
        r is Err ==> r->Err_0 is ImageError || r->Err_0 is Internal || (r->Err_0 is WebPError
            && request.output_format == OutputFormat::WebP),
{
    let img = decode_image(&request.data)?;
    let original_width = img.width();
    let original_height = img.height();
    let resized = resize_image(&img, request.width, request.height, request.fit_mode)?;
    let output_width = resized.width();
    let output_height = resized.height();
    let (data, content_type) = encode_image(&resized, request.output_format, request.quality)?;
    Ok(
        ConversionResult {
            data,
            content_type,
            original_width,
            original_height,
            output_width,
            output_height,
        },
    )
}

} // verus!
