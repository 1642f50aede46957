//! An on-demand image transformation gateway: request validation, output
//! format negotiation, and a decode / resize / encode pipeline, with the
//! storage client and HTTP surface kept at the edge.

pub mod config;
pub mod error;
pub mod laws;
pub mod request;
pub mod converter;
pub mod text;
pub mod storage;

use vstd::prelude::*;

verus! {

/// What every request handler shares: the settings and the store client.
pub struct AppState {
    pub config: config::Config,
    pub s3_client: storage::S3Client,
}

} // verus!
