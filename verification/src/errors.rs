//! The error taxonomy of the service, and the HTTP status each error maps to.

use vstd::prelude::*;

verus! {

/// Everything that can go wrong while serving a request, plus the startup
/// configuration failure.
///
/// `CacheWriteFailed` is never sent to a client: cache population is
/// fire-and-forget and its failure is only reported out of band.
#[derive(Clone, Copy, Debug, PartialEq, Eq, Structural)]
pub enum ApiError {
    /// The admission controller refused the request; the client may retry.
    AdmissionDenied,
    /// A requested dimension is outside the accepted range; the offending
    /// values are echoed for diagnostics.
    InvalidDimensions { width: u32, height: u32 },
    /// The selected source asset could not be read.
    AssetNotFound,
    /// The codec failed to decode or encode.
    CodecFailed,
    /// A cache population attempt failed; the response already went out.
    CacheWriteFailed,
    /// The asset pool is empty: the service must refuse to start.
    ConfigurationError,
}

impl ApiError {
    /// The HTTP status code this error is reported with.
    pub fn http_status(&self) -> (s: u16)
        ensures
            s == self.spec_http_status(),
    {
        match self {
            ApiError::AdmissionDenied => 429,
            ApiError::InvalidDimensions { .. } => 400,
            ApiError::AssetNotFound => 404,
            ApiError::CodecFailed => 500,
            ApiError::CacheWriteFailed => 500,
            ApiError::ConfigurationError => 500,
        }
    }

    /// The status code, stated once so contracts elsewhere can quote it.
    pub open spec fn spec_http_status(self) -> u16 {
        match self {
            ApiError::AdmissionDenied => 429,
            ApiError::InvalidDimensions { .. } => 400,
            ApiError::AssetNotFound => 404,
            ApiError::CodecFailed => 500,
            ApiError::CacheWriteFailed => 500,
            ApiError::ConfigurationError => 500,
        }
    }
}

} // verus!
