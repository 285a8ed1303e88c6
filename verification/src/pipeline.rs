//! The per-request pipeline: admission, validation, selection, cache probe,
//! codec step, cache population.
//!
//! Each stage is a function from the values observed so far to the next
//! obligation, so the transport around it only moves bytes: it calls
//! `begin_request` with the clock, probes the store at the key's path, reads
//! the source on a miss, runs `complete_resize` off its event loop, sends the
//! reply, and persists the returned `CacheWrite` — fire-and-forget, after the
//! reply — if there is one. A cache hit responds directly and never reaches
//! the codec; a write failure can only follow the response and so can never
//! fail the request that triggered it.
//!
//! Two requests for the same key that both miss each resize and each store;
//! that race is deliberate, and `lemma_concurrent_misses_converge` is why it
//! is harmless.

use crate::cache::{
    apply_stores, lemma_redundant_stores_converge, lemma_store_then_lookup, lookup_model,
    store_model, CacheKey,
};
use crate::codec::{decodes_ok, resize_artifact, resized_artifact_of};
use crate::config::MAX_DIM;
use crate::errors::ApiError;
use crate::limiter::TokenBucket;
use crate::response::{
    error_reply, spec_invalid_dims_body, spec_rate_limited_body, Reply, ReplyBody,
};
use crate::selector::AssetPool;
use vstd::prelude::*;

verus! {

/// Dimensions the service accepts: both sides in `[1, MAX_DIM]`.
pub open spec fn spec_dims_valid(width: u32, height: u32) -> bool {
    &&& 1 <= width <= MAX_DIM
    &&& 1 <= height <= MAX_DIM
}

/// Accepts or rejects a requested dimension pair; a rejection carries the
/// offending values.
pub fn validate_dims(width: u32, height: u32) -> (r: Result<(), ApiError>)
    ensures
        (r is Ok) <==> spec_dims_valid(width, height),
        r is Err ==> r->Err_0 == (ApiError::InvalidDimensions { width, height }),
{
    if width == 0 || height == 0 || width > MAX_DIM || height > MAX_DIM {
        Err(ApiError::InvalidDimensions { width, height })
    } else {
        Ok(())
    }
}

/// Admission, validation and selection, in that order — both gates fail
/// fast, before any expensive work. A refusal is a finished reply; success
/// is the cache key to serve.
pub fn begin_request(
    limiter: &mut TokenBucket,
    pool: &AssetPool,
    now_ms: u64,
    width: u32,
    height: u32,
) -> (r: Result<CacheKey, Reply>)
    requires
        old(limiter).wf(),
        old(limiter).last_ms <= now_ms,
        pool.wf(),
    ensures
        *final(limiter) == old(limiter).spec_after(now_ms),
        !old(limiter).spec_allowed(now_ms) ==> (r matches Err(rep) && rep.status == 429 && (
        rep.body matches ReplyBody::Json(b) && b@ == spec_rate_limited_body())),
        old(limiter).spec_allowed(now_ms) && !spec_dims_valid(width, height) ==> (r matches Err(
            rep,
        ) && rep.status == 400 && (rep.body matches ReplyBody::Json(b) && b@
            == spec_invalid_dims_body(width, height))),
        old(limiter).spec_allowed(now_ms) && spec_dims_valid(width, height) ==> (r matches Ok(k)
            && k.width == width && k.height == height && 1 <= k.asset_id <= pool.pool_size
            && k.wf()),
{
    if !limiter.try_acquire(now_ms) {
        return Err(error_reply(&ApiError::AdmissionDenied));
    }
    match validate_dims(width, height) {
        Err(e) => Err(error_reply(&e)),
        Ok(_) => {
            let asset_id = pool.pick();
            Ok(CacheKey { asset_id, width, height })
        },
    }
}

/// What the pipeline does once the store has been probed.
pub enum AfterCache {
    /// A hit: the reply, served straight from the store.
    Respond(Reply),
    /// A miss: read the source asset for this key next.
    FetchSource(CacheKey),
}

/// A hit is served exactly as stored, bypassing the codec; a miss goes on to
/// the source asset.
pub fn handle_cache(key: CacheKey, cached: Option<Vec<u8>>) -> (r: AfterCache)
    ensures
        cached matches Some(b) ==> (r matches AfterCache::Respond(rep) && rep.is_image_with(b@)),
        cached is None ==> r == AfterCache::FetchSource(key),
{
    match cached {
        Some(bytes) => AfterCache::Respond(Reply { status: 200, body: ReplyBody::Image(bytes) }),
        None => AfterCache::FetchSource(key),
    }
}

/// What the pipeline does once the source asset has been read.
pub enum AfterSource {
    /// The source could not be read: a finished error reply.
    Respond(Reply),
    /// The source bytes, ready for the codec step.
    Resize(CacheKey, Vec<u8>),
}

/// An unreadable source asset ends the request as not-found; a readable one
/// goes on to the codec.
pub fn handle_source(key: CacheKey, source: Option<Vec<u8>>) -> (r: AfterSource)
    ensures
        source is None ==> (r matches AfterSource::Respond(rep) && rep.status == 404 && (
        rep.body matches ReplyBody::Text(t) && t@ == "Image not found"@)),
        source matches Some(b) ==> (r matches AfterSource::Resize(k, s) && k == key && s@ == b@),
{
    match source {
        None => AfterSource::Respond(error_reply(&ApiError::AssetNotFound)),
        Some(bytes) => AfterSource::Resize(key, bytes),
    }
}

/// What the transport must persist after a fresh resize: the artifact bytes
/// at the key's path, creating the directory first. Population is
/// fire-and-forget: it happens after the reply is sent, and its failure is
/// only logged.
pub struct CacheWrite {
    pub dir: String,
    pub path: String,
    pub bytes: Vec<u8>,
}

/// A verified copy of a byte buffer.
pub fn clone_bytes(v: &Vec<u8>) -> (r: Vec<u8>)
    ensures
        r@ == v@,
{
    let mut r: Vec<u8> = Vec::new();
    let mut i: usize = 0;
    while i < v.len()
        invariant
            i <= v.len(),
            r@ == v@.take(i as int),
        decreases v.len() - i,
    {
        proof {
            assert(v@.take(i + 1 as int) =~= v@.take(i as int).push(v@[i as int]));
        }
        r.push(v[i]);
        i = i + 1;
    }
    proof {
        assert(v@.take(v@.len() as int) =~= v@);
    }
    r
}

/// The codec step of a miss. When the source decodes, the reply carries
/// exactly the codec's artifact for this source at the key's dimensions,
/// and the very same bytes are handed back for population at the key's own
/// path; when it does not, the request ends as an internal error and
/// nothing is written.
pub fn complete_resize(key: CacheKey, source: &Vec<u8>) -> (r: (Reply, Option<CacheWrite>))
    requires
        key.wf(),
    ensures
        decodes_ok(source@) ==> (r.0 matches Reply { status: 200, body: ReplyBody::Image(b) } && b@
            == resized_artifact_of(source@, key.width, key.height) && (r.1 matches Some(w)
            && w.path@ == key.spec_cache_path() && w.dir@ == key.spec_cache_dir() && w.bytes@
            == b@)),
        !decodes_ok(source@) ==> (r.0.status == 500 && r.1 is None && (r.0.body
            matches ReplyBody::Text(t) && t@ == "Failed to process image"@)),
{
    match resize_artifact(source, key.width, key.height) {
        Ok(artifact) => {
            let copy = clone_bytes(&artifact);
            let w = CacheWrite { dir: key.cache_dir(), path: key.cache_path(), bytes: copy };
            (Reply { status: 200, body: ReplyBody::Image(artifact) }, Some(w))
        },
        Err(e) => (error_reply(&e), None),
    }
}

/// Where a request is answered from, given what the cache probe and, on a
/// miss, the source read observed.
pub enum ServedFrom {
    /// The store held an artifact: served as stored, codec untouched.
    CacheHit,
    /// A miss over a readable source that decodes: served fresh.
    Fresh,
    /// A miss whose source asset cannot be read: not-found.
    MissingSource,
    /// A miss whose source does not decode: internal error.
    CodecFailure,
}

/// Classifies one request, matching the stage functions above: a hit is
/// served from the store alone; only a miss consults the source and then the
/// codec.
pub open spec fn spec_served_from(cached: Option<Seq<u8>>, source: Option<Seq<u8>>) -> ServedFrom {
    if cached is Some {
        ServedFrom::CacheHit
    } else if source is None {
        ServedFrom::MissingSource
    } else if decodes_ok(source->Some_0) {
        ServedFrom::Fresh
    } else {
        ServedFrom::CodecFailure
    }
}

/// A request that passes admission and validation is served an image — with
/// the image content type, by `handle_cache` on a hit and by
/// `complete_resize` on a miss — whenever the service can serve one at all:
/// the store holds an artifact, or the source asset is readable and decodes.
/// The only other endings are not-found for an unreadable source and an
/// internal error for an undecodable one; rejected dimensions never get this
/// far, `begin_request` answers them with the echoing bad-request body.
pub proof fn lemma_serviceable_request_is_served_an_image(
    cached: Option<Seq<u8>>,
    source: Option<Seq<u8>>,
)
    ensures
        (spec_served_from(cached, source) == ServedFrom::CacheHit || spec_served_from(
            cached,
            source,
        ) == ServedFrom::Fresh) <==> (cached is Some || (source matches Some(b) && decodes_ok(b))),
{
}

/// Idempotence of a successful miss: once its artifact is stored for its
/// key, a second request for the same key finds exactly those bytes in the
/// store and is classified as a hit — served byte-identically, without
/// consulting the codec again, whatever the source read would have said.
pub proof fn lemma_repeat_request_served_from_cache(
    m: Map<CacheKey, Seq<u8>>,
    k: CacheKey,
    artifact: Seq<u8>,
    source: Option<Seq<u8>>,
)
    ensures
        lookup_model(store_model(m, k, artifact), k) == Some(artifact),
        spec_served_from(lookup_model(store_model(m, k, artifact), k), source)
            == ServedFrom::CacheHit,
{
    lemma_store_then_lookup(m, k, artifact);
}

/// Concurrent misses for one new key race without coordination: each
/// resizes, each stores. Every such write carries the bytes
/// `complete_resize` pins down — `resized_artifact_of` of the shared source
/// at the key's dimensions, one fixed sequence — so however the writes
/// interleave with writes for other keys, the store ends up holding exactly
/// that artifact, and every later request for the key is a hit on it.
pub proof fn lemma_concurrent_misses_converge(
    m: Map<CacheKey, Seq<u8>>,
    writes: Seq<(CacheKey, Seq<u8>)>,
    k: CacheKey,
    source: Seq<u8>,
    later_source: Option<Seq<u8>>,
)
    requires
        forall|i: int| 0 <= i < writes.len() && (#[trigger] writes[i]).0 == k ==> writes[i].1
            == resized_artifact_of(source, k.width, k.height),
        exists|i: int| 0 <= i < writes.len() && (#[trigger] writes[i]).0 == k,
    ensures
        lookup_model(apply_stores(m, writes), k) == Some(
            resized_artifact_of(source, k.width, k.height),
        ),
        spec_served_from(lookup_model(apply_stores(m, writes), k), later_source)
            == ServedFrom::CacheHit,
{
    lemma_redundant_stores_converge(m, writes, k, resized_artifact_of(source, k.width, k.height));
}

} // verus!
