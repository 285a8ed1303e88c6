//! Random selection of a source asset.
//!
//! The pool size is counted once at startup, outside this crate, by scanning
//! the source directory; an empty pool is a configuration error and the
//! service must refuse to serve rather than divide by zero on the first
//! request. A pick maps one draw of entropy to an asset id in
//! `[1, pool_size]` by remainder.

use crate::errors::ApiError;
use vstd::prelude::*;

verus! {

/// Relies on rand::random: one draw from the thread-local generator. Nothing
/// can be promised of the value drawn.
pub assume_specification<T>[ rand::random::<T> ]() -> (r: T)
    where
        rand::distributions::Standard: rand::distributions::Distribution<T>,
;

/// The set of valid asset ids, `[1, pool_size]`, fixed for the process
/// lifetime.
#[derive(Clone, Copy, Debug, PartialEq, Eq, Structural)]
pub struct AssetPool {
    pub pool_size: u32,
}

impl AssetPool {
    /// A pool the service can serve from: at least one asset.
    pub open spec fn wf(self) -> bool {
        1 <= self.pool_size
    }

    /// Accepts the asset count found at startup; an empty pool is refused as
    /// a configuration error.
    pub fn new(count: u32) -> (r: Result<AssetPool, ApiError>)
        ensures
            count == 0 <==> r == Result::<AssetPool, ApiError>::Err(
                ApiError::ConfigurationError,
            ),
            count >= 1 ==> r == Result::<AssetPool, ApiError>::Ok(AssetPool { pool_size: count })
                && r->Ok_0.wf(),
    {
        if count == 0 {
            Err(ApiError::ConfigurationError)
        } else {
            Ok(AssetPool { pool_size: count })
        }
    }

    /// The asset id one draw of entropy selects.
    pub fn pick_with(&self, entropy: u32) -> (id: u32)
        requires
            self.wf(),
        ensures
            id == entropy % self.pool_size + 1,
            1 <= id <= self.pool_size,
    {
        entropy % self.pool_size + 1
    }

    /// Selects an asset id at random; every outcome is a valid id.
    pub fn pick(&self) -> (id: u32)
        requires
            self.wf(),
        ensures
            1 <= id <= self.pool_size,
    {
        let entropy: u32 = rand::random::<u32>();
        self.pick_with(entropy)
    }
}

} // verus!
