use vstd::prelude::*;
use crate::config::Config;
use crate::converter::{ConversionRequest, FitMode, OutputFormat, fit_named, lower_of};
use crate::error::ConverterError;
use crate::text::{chars_of, contains, find_char, find_from, has_substring};

verus! {

/// The query parameters of an image request, each optional.
#[derive(Debug)]
pub struct ImageQuery {
    /// Requested width.
    pub w: Option<u32>,
    /// Requested height.
    pub h: Option<u32>,
    /// Requested quality.
    pub q: Option<u8>,
    /// Requested fit mode, by name.
    pub fit: Option<String>,
}

/// Where the container starts: after one leading slash, if there is one.
pub open spec fn path_start(p: Seq<char>) -> int {
    if p.len() > 0 && p[0] == '/' {
        1
    } else {
        0
    }
}

/// The container and key that a path names: one leading slash is dropped,
/// the container runs to the next slash and the key is everything after it.
pub open spec fn path_parts(p: Seq<char>) -> Option<(Seq<char>, Seq<char>)> {
    let start = path_start(p);
    let pos = find_from(p, '/', start);
    if pos >= p.len() {
        None
    } else {
        Some((p.subrange(start, pos), p.subrange(pos + 1, p.len() as int)))
    }
}

/// A path is accepted when it names a non-empty container and a non-empty key.
pub open spec fn path_ok(p: Seq<char>) -> bool {
    match path_parts(p) {
        Some((b, k)) => b.len() > 0 && k.len() > 0,
        None => false,
    }
}

/// The message that a rejected path is reported with.
pub open spec fn path_error(p: Seq<char>) -> Seq<char> {
    match path_parts(p) {
        None => "path must be in format: /{bucket}/{key}"@,
        Some((b, k)) => if b.len() == 0 {
            "bucket name is empty"@
        } else {
            "object key is empty"@
        },
    }
}

/// Splits a request path `/{container}/{key}` into its two parts; the key
/// may hold further slashes.
pub fn parse_path(path: &str) -> (r: Result<(&str, &str), ConverterError>)
    ensures
        r is Ok <==> path_ok(path@),
        r is Ok ==> path_parts(path@) == Some((r->Ok_0.0@, r->Ok_0.1@)),
        r is Err ==> r->Err_0 is InvalidParameter && r->Err_0->InvalidParameter_0@ == path_error(
            path@,
        ),
{
    proof {
        reveal_strlit("path must be in format: /{bucket}/{key}");
        reveal_strlit("bucket name is empty");
        reveal_strlit("object key is empty");
    }
    let cs = chars_of(path);
    let n = cs.len();
    let start: usize = if n > 0 && cs[0] == '/' {
        1
    } else {
        0
    };
    let pos = find_char(&cs, '/', start);
    if pos == n {
        return Err(
            ConverterError::InvalidParameter(
                String::from_str("path must be in format: /{bucket}/{key}"),
            ),
        );
    }
    let bucket = path.substring_char(start, pos);
    let key = path.substring_char(pos + 1, n);
    if bucket.unicode_len() == 0 {
        return Err(ConverterError::InvalidParameter(String::from_str("bucket name is empty")));
    }
    if key.unicode_len() == 0 {
        return Err(ConverterError::InvalidParameter(String::from_str("object key is empty")));
    }
    Ok((bucket, key))
}

/// A requested dimension is absent, or positive and within the ceiling.
pub open spec fn dimension_ok(d: Option<u32>, max: u32) -> bool {
    match d {
        Some(v) => 0 < v <= max,
        None => true,
    }
}

/// A requested dimension exceeds the ceiling.
pub open spec fn dimension_too_large(d: Option<u32>, max: u32) -> bool {
    match d {
        Some(v) => v > max,
        None => false,
    }
}

/// The quality a request asks for, or the configured default.
pub open spec fn quality_of(q: Option<u8>, default: u8) -> u8 {
    match q {
        Some(v) => v,
        None => default,
    }
}

/// The fit mode a request asks for; absent or unknown names mean cover.
pub open spec fn fit_of(fit: Option<String>) -> FitMode {
    match fit {
        Some(s) => match fit_named(lower_of(s@)) {
            Some(m) => m,
            None => FitMode::Cover,
        },
        None => FitMode::Cover,
    }
}

/// The output format that an `Accept` value selects.
pub open spec fn format_for(accept: Seq<char>) -> OutputFormat {
    if has_substring(accept, "image/webp"@) {
        OutputFormat::WebP
    } else {
        OutputFormat::Png
    }
}

/// Checks one requested dimension against the ceiling.
fn check_dimension(d: Option<u32>, max: u32, is_width: bool) -> (r: Result<(), ConverterError>)
    ensures
        r is Ok <==> dimension_ok(d, max),
        dimension_too_large(d, max) ==> r == Err::<(), ConverterError>(
            ConverterError::DimensionTooLarge(d->Some_0, max),
        ),
        d == Some(0u32) ==> r is Err && r->Err_0 is InvalidParameter,
{
    if let Some(v) = d {
        if v > max {
            return Err(ConverterError::DimensionTooLarge(v, max));
        }
        if v == 0 {
            let msg = if is_width {
                "width must be greater than 0"
            } else {
                "height must be greater than 0"
            };
            return Err(ConverterError::InvalidParameter(String::from_str(msg)));
        }
    }
    Ok(())
}

/// Picks WebP when the `Accept` value mentions `image/webp`, PNG otherwise.
pub fn determine_format(accept: &str) -> (r: OutputFormat)
    ensures
        r == format_for(accept@),
{
    proof {
        reveal_strlit("image/webp");
    }
    if contains(accept, "image/webp") {
        OutputFormat::WebP
    } else {
        OutputFormat::Png
    }
}

/// Everything a request asks for once it has been validated.
#[derive(Debug)]
pub struct ValidatedRequest<'a> {
    pub bucket: &'a str,
    pub key: &'a str,
    pub width: Option<u32>,
    pub height: Option<u32>,
    pub quality: u8,
    pub fit_mode: FitMode,
    pub output_format: OutputFormat,
}

/// The request is valid: a well-formed path, dimensions within the ceiling
/// and a quality within 1..=100.
pub open spec fn request_ok(path: Seq<char>, query: ImageQuery, config: Config) -> bool {
    &&& path_ok(path)
    &&& dimension_ok(query.w, config.max_dimension)
    &&& dimension_ok(query.h, config.max_dimension)
    &&& 1 <= quality_of(query.q, config.webp_default_quality) <= 100
}

/// Validates the path and query of a request and negotiates its output
/// format; fails before any storage access or decoding.
pub fn validate_request<'a>(
    path: &'a str,
    query: &ImageQuery,
    accept: &str,
    config: &Config,
) -> (r: Result<ValidatedRequest<'a>, ConverterError>)
    ensures
        r is Ok <==> request_ok(path@, *query, *config),
        r is Ok ==> {
            let v = r->Ok_0;
            &&& path_parts(path@) == Some((v.bucket@, v.key@))
            &&& v.width == query.w
            &&& v.height == query.h
            &&& v.quality == quality_of(query.q, config.webp_default_quality)
            &&& v.fit_mode == fit_of(query.fit)
            &&& v.output_format == format_for(accept@)
        },
        !path_ok(path@) ==> r is Err && r->Err_0 is InvalidParameter
            && r->Err_0->InvalidParameter_0@ == path_error(path@),
        path_ok(path@) && dimension_too_large(query.w, config.max_dimension) ==> r
            is Err && r->Err_0 == ConverterError::DimensionTooLarge(
            query.w->Some_0,
            config.max_dimension,
        ),
        path_ok(path@) && query.w == Some(0u32) ==> r is Err && r->Err_0 is InvalidParameter,
        path_ok(path@) && dimension_ok(query.w, config.max_dimension) && dimension_too_large(
            query.h,
            config.max_dimension,
        ) ==> r is Err && r->Err_0 == ConverterError::DimensionTooLarge(
            query.h->Some_0,
            config.max_dimension,
        ),
        path_ok(path@) && dimension_ok(query.w, config.max_dimension) && query.h == Some(0u32)
            ==> r is Err && r->Err_0 is InvalidParameter,
        path_ok(path@) && dimension_ok(query.w, config.max_dimension) && dimension_ok(
            query.h,
            config.max_dimension,
        ) && !(1 <= quality_of(query.q, config.webp_default_quality) <= 100) ==> r is Err
            && r->Err_0 is InvalidParameter,
{
    let (bucket, key) = parse_path(path)?;
    check_dimension(query.w, config.max_dimension, true)?;
    check_dimension(query.h, config.max_dimension, false)?;
    let quality = match query.q {
        Some(q) => q,
        None => config.webp_default_quality,
    };
    if quality == 0 || quality > 100 {
        return Err(
            ConverterError::InvalidParameter(String::from_str("quality must be between 1 and 100")),
        );
    }
    let fit_mode = match &query.fit {
        Some(f) => match FitMode::from_str(f.as_str()) {
            Some(m) => m,
            None => FitMode::Cover,
        },
        None => FitMode::Cover,
    };
    let output_format = determine_format(accept);
    Ok(
        ValidatedRequest {
            bucket,
            key,
            width: query.w,
            height: query.h,
            quality,
            fit_mode,
            output_format,
        },
    )
}

impl<'a> ValidatedRequest<'a> {
    /// The conversion of the fetched bytes that this request asks for.
    pub fn into_conversion(&self, data: Vec<u8>) -> (r: ConversionRequest)
        requires
            1 <= self.quality <= 100,
            self.width is Some ==> self.width->Some_0 > 0,
            self.height is Some ==> self.height->Some_0 > 0,
        ensures
            r.wf(),
            r.data@ == data@,
            r.width == self.width,
            r.height == self.height,
            r.quality == self.quality,
            r.fit_mode == self.fit_mode,
            r.output_format == self.output_format,
    {
        ConversionRequest {
            data,
            width: self.width,
            height: self.height,
            output_format: self.output_format,
            quality: self.quality,
            fit_mode: self.fit_mode,
        }
    }
}

} // verus!
