use vstd::prelude::*;

verus! {

/// Declares the image crate's error type so that decode and encode failures
/// can be carried without inspecting them.
#[verifier::external_type_specification]
#[verifier::external_body]
pub struct ExImageError(image::ImageError);

/// Every way a request can fail, each mapped to exactly one response.
#[derive(Debug)]
pub enum ConverterError {
    /// The object is absent from the store.
    NotFound(String),
    /// The store could not be reached or answered with a failure.
    S3Error(String),
    /// The input bytes could not be decoded, or PNG encoding failed.
    ImageError(image::ImageError),
    /// The WebP encoder reported a failure.
    WebPError(String),
    /// A malformed path, a zero dimension or an out-of-range quality.
    InvalidParameter(String),
    /// A requested dimension (first) above the configured ceiling (second).
    DimensionTooLarge(u32, u32),
    /// A failure that none of the other kinds describes.
    Internal(String),
}

/// The HTTP status that each kind of error is answered with.
pub open spec fn status_of(e: ConverterError) -> u16 {
    match e {
        ConverterError::NotFound(_) => 404,
        ConverterError::InvalidParameter(_) => 400,
        ConverterError::DimensionTooLarge(_, _) => 400,
        ConverterError::S3Error(_) => 502,
        ConverterError::ImageError(_) => 500,
        ConverterError::WebPError(_) => 500,
        ConverterError::Internal(_) => 500,
    }
}

/// Whether the error comes from the caller's input (and may echo it back).
pub open spec fn is_client_error(e: ConverterError) -> bool {
    e is InvalidParameter || e is DimensionTooLarge
}

/// The generic message that replaces the detail of an error that is not
/// shown to the caller.
pub open spec fn generic_text(e: ConverterError) -> Seq<char> {
    match e {
        ConverterError::S3Error(_) => "Failed to fetch image from storage"@,
        ConverterError::ImageError(_) => "Failed to process image"@,
        ConverterError::WebPError(_) => "Failed to encode image"@,
        _ => "Internal server error"@,
    }
}

impl ConverterError {
    /// The message shown in place of the detail when it is not public.
    pub fn generic_message(&self) -> (r: &'static str)
        ensures
            r@ == generic_text(*self),
    {
        proof {
            reveal_strlit("Failed to fetch image from storage");
            reveal_strlit("Failed to process image");
            reveal_strlit("Failed to encode image");
            reveal_strlit("Internal server error");
        }
        match self {
            ConverterError::S3Error(_) => "Failed to fetch image from storage",
            ConverterError::ImageError(_) => "Failed to process image",
            ConverterError::WebPError(_) => "Failed to encode image",
            _ => "Internal server error",
        }
    }

    /// The HTTP status of the response that reports this error.
    pub fn status_code(&self) -> (r: u16)
        ensures
            r == status_of(*self),
            is_client_error(*self) <==> r == 400,
    {
        match self {
            ConverterError::NotFound(_) => 404,
            ConverterError::InvalidParameter(_) => 400,
            ConverterError::DimensionTooLarge(_, _) => 400,
            ConverterError::S3Error(_) => 502,
            ConverterError::ImageError(_) => 500,
            ConverterError::WebPError(_) => 500,
            ConverterError::Internal(_) => 500,
        }
    }

    /// Whether the detail of this error may be shown to the caller; storage
    /// and codec details are only logged.
    pub fn is_public(&self) -> (r: bool)
        ensures
            r == (*self is NotFound || is_client_error(*self)),
    {
        match self {
            ConverterError::NotFound(_) => true,
            ConverterError::InvalidParameter(_) => true,
            ConverterError::DimensionTooLarge(_, _) => true,
            _ => false,
        }
    }
}

} // verus!
