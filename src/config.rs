use vstd::prelude::*;

verus! {

/// The already-resolved settings of the gateway.
#[derive(Clone)]
pub struct Config {
    pub port: u16,
    pub s3_endpoint: String,
    pub s3_access_key: String,
    pub s3_secret_key: String,
    pub s3_region: String,
    /// Quality used when a request names none.
    pub webp_default_quality: u8,
    /// The largest width or height a request may ask for.
    pub max_dimension: u32,
}

} // verus!
