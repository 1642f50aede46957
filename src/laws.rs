use vstd::prelude::*;
use crate::converter::{ConversionRequest, FitMode, OutputFormat, conversion_of, resized_dims, round_div};

verus! {

/// `round_div(n, d)` is the integer nearest to `n / d`, halves rounding up:
/// `n / d` lies in `[r - 1/2, r + 1/2)`.
pub proof fn round_div_is_nearest(n: int, d: int)
    requires
        n >= 0,
        d > 0,
    ensures
        d * (2 * round_div(n, d) - 1) <= 2 * n < d * (2 * round_div(n, d) + 1),
{
    let x = 2 * n + d;
    let q = x / (2 * d);
    vstd::arithmetic::div_mod::lemma_fundamental_div_mod(x, 2 * d);
    assert(0 <= x % (2 * d) < 2 * d);
    assert(d * (2 * q - 1) <= 2 * n < d * (2 * q + 1)) by (nonlinear_arith)
        requires
            x == 2 * n + d,
            x == (2 * d) * q + (x % (2 * d)),
            0 <= x % (2 * d) < 2 * d,
    ;
}

/// Covering a box yields exactly the box, whatever the source.
pub proof fn cover_yields_box(src: (u32, u32), w: u32, h: u32, out: (u32, u32))
    requires
        resized_dims(src, Some(w), Some(h), FitMode::Cover, out),
    ensures
        out == (w, h),
{
}

/// Filling a box yields exactly the box, so two sources of any aspect ratio
/// come out with the same dimensions.
pub proof fn fill_ignores_source(
    src1: (u32, u32),
    src2: (u32, u32),
    w: u32,
    h: u32,
    out1: (u32, u32),
    out2: (u32, u32),
)
    requires
        resized_dims(src1, Some(w), Some(h), FitMode::Fill, out1),
        resized_dims(src2, Some(w), Some(h), FitMode::Fill, out2),
    ensures
        out1 == (w, h),
        out2 == out1,
{
}

/// With only a width requested, a non-empty source comes out exactly that
/// wide and as high as its height scaled by the same ratio, rounded to the
/// nearest integer, whatever the fit mode.
pub proof fn width_only_keeps_ratio(src: (u32, u32), w: u32, fit: FitMode, out: (u32, u32))
    requires
        src.0 > 0,
        resized_dims(src, Some(w), None, fit, out),
    ensures
        out.0 == w,
        out.1 == round_div(src.1 as int * w as int, src.0 as int),
        src.0 * (2 * out.1 - 1) <= 2 * (src.1 as int * w as int) < src.0 * (2 * out.1 + 1),
{
    assert(0 <= src.1 as int * w as int) by (nonlinear_arith);
    round_div_is_nearest(src.1 as int * w as int, src.0 as int);
}

/// With only a height requested, the width follows as the height does in the
/// width-only case.
pub proof fn height_only_keeps_ratio(src: (u32, u32), h: u32, fit: FitMode, out: (u32, u32))
    requires
        src.1 > 0,
        resized_dims(src, None, Some(h), fit, out),
    ensures
        out.1 == h,
        out.0 == round_div(src.0 as int * h as int, src.1 as int),
        src.1 * (2 * out.0 - 1) <= 2 * (src.0 as int * h as int) < src.1 * (2 * out.0 + 1),
{
    assert(0 <= src.0 as int * h as int) by (nonlinear_arith);
    round_div_is_nearest(src.0 as int * h as int, src.1 as int);
}

/// Requests that agree on the source bytes and every parameter convert to
/// the same outcome: both fail, or both give the same dimensions and bytes.
pub proof fn conversion_is_deterministic(r1: ConversionRequest, r2: ConversionRequest)
    requires
        r1.data@ == r2.data@,
        r1.width == r2.width,
        r1.height == r2.height,
        r1.output_format == r2.output_format,
        r1.quality == r2.quality,
        r1.fit_mode == r2.fit_mode,
    ensures
        conversion_of(r1) == conversion_of(r2),
{
}

/// PNG output does not depend on the quality: two PNG requests that differ
/// only in quality convert to the same outcome.
pub proof fn png_ignores_quality(r1: ConversionRequest, r2: ConversionRequest)
    requires
        r1.data@ == r2.data@,
        r1.width == r2.width,
        r1.height == r2.height,
        r1.fit_mode == r2.fit_mode,
        r1.output_format == OutputFormat::Png,
        r2.output_format == OutputFormat::Png,
    ensures
        conversion_of(r1) == conversion_of(r2),
{
}

} // verus!
