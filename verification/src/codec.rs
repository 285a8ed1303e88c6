//! The codec step of a cache miss: decode the source bytes, resize the
//! raster, encode the result as JPEG. The chain is the black-box codec
//! capability of an outside crate; everything around it — when the step is
//! taken, what error a failure turns into, what the pipeline may conclude —
//! is verified here.
//!
//! The chain reads nothing but the source bytes and the requested
//! dimensions, so its behaviour is a function of them alone: whether it
//! succeeds is named `decodes_ok`, and the bytes it produces are named
//! `resized_artifact_of`. The second name is what pins a miss's response
//! down — the served bytes, the cached bytes, and any concurrent recompute
//! of the same source at the same dimensions are all the same sequence.

use crate::config::MAX_DIM;
use crate::errors::ApiError;
use vstd::prelude::*;

verus! {

#[verifier::external_type_specification]
#[verifier::external_body]
pub struct ExPhotonError(photon_rs::native::Error);

/// Whether the codec can decode these bytes into a raster. Decoding reads
/// nothing but the bytes, so this is a function of the bytes alone.
pub uninterp spec fn decodes_ok(bytes: Seq<u8>) -> bool;

/// The bytes the codec chain produces for a decodable source at the given
/// dimensions: a function of source and dimensions alone, in every process
/// and on every machine — the fact that makes redundant concurrent resizes
/// byte-identical and the cache's last-writer-wins race harmless.
pub uninterp spec fn resized_artifact_of(source: Seq<u8>, width: u32, height: u32) -> Seq<u8>;

/// Relies on photon_rs::native::open_image_from_bytes,
/// photon_rs::transform::resize (triangle filter) and
/// photon_rs::PhotonImage::get_bytes_jpeg (quality 90): decode the source,
/// scale the raster to width by height, encode it as JPEG. Each step reads
/// only its arguments, so success is exactly `decodes_ok` of the source and
/// the output is `resized_artifact_of` of source and dimensions. The
/// dimension bounds keep the chain total: resize yields a raster of exactly
/// the requested dimensions, at least one pixel each way and well inside
/// what the JPEG encoder accepts, whatever the decoded raster's own
/// dimensions were.
#[verifier::external_body]
fn photon_resize_chain(source: &Vec<u8>, width: u32, height: u32) -> (r: Result<
    Vec<u8>,
    photon_rs::native::Error,
>)
    requires
        1 <= width <= MAX_DIM,
        1 <= height <= MAX_DIM,
    ensures
        (r is Ok) <==> decodes_ok(source@),
        r matches Ok(b) ==> b@ == resized_artifact_of(source@, width, height),
{
    let img = photon_rs::native::open_image_from_bytes(source.as_slice())?;
    let resized = photon_rs::transform::resize(
        &img,
        width,
        height,
        photon_rs::transform::SamplingFilter::Triangle,
    );
    Ok(resized.get_bytes_jpeg(90))
}

/// The resize computation of a cache miss: decode, resize, encode. Succeeds
/// exactly when the source bytes decode, and then returns exactly the
/// codec's artifact for this source at these dimensions; any codec failure
/// is reported as one internal error, never served as a broken image.
pub fn resize_artifact(source: &Vec<u8>, width: u32, height: u32) -> (r: Result<Vec<u8>, ApiError>)
    requires
        1 <= width <= MAX_DIM,
        1 <= height <= MAX_DIM,
    ensures
        (r is Ok) <==> decodes_ok(source@),
        r matches Ok(b) ==> b@ == resized_artifact_of(source@, width, height),
        r is Err ==> r->Err_0 == ApiError::CodecFailed,
{
    match photon_resize_chain(source, width, height) {
        Ok(artifact) => Ok(artifact),
        Err(_) => Err(ApiError::CodecFailed),
    }
}

} // verus!
