use resize_server::cache::{source_path, CacheKey};
use resize_server::errors::ApiError;
use resize_server::limiter::TokenBucket;
use resize_server::pipeline::{
    begin_request, handle_cache, handle_source, validate_dims, AfterCache, AfterSource,
};
use resize_server::response::{Reply, ReplyBody};
use resize_server::selector::AssetPool;

fn pool_of(n: u32) -> AssetPool {
    AssetPool::new(n).expect("a non-empty pool")
}

#[test]
fn dimensions_in_range_are_accepted() {
    assert!(validate_dims(1, 1).is_ok());
    assert!(validate_dims(3000, 3000).is_ok());
    assert!(validate_dims(640, 480).is_ok());
}

#[test]
fn dimensions_out_of_range_are_rejected_with_echo() {
    match validate_dims(0, 480) {
        Err(ApiError::InvalidDimensions { width, height }) => {
            assert_eq!((width, height), (0, 480));
        }
        other => panic!("expected a dimension rejection, got {:?}", other),
    }
    assert!(validate_dims(640, 0).is_err());
    assert!(validate_dims(3001, 480).is_err());
    assert!(validate_dims(640, 3001).is_err());
}

#[test]
fn valid_request_yields_a_key_for_the_requested_dimensions() {
    let mut limiter = TokenBucket::new(10, 0);
    let pool = pool_of(5);
    let key = begin_request(&mut limiter, &pool, 0, 640, 480).expect("an admitted valid request");
    assert_eq!(key.width, 640);
    assert_eq!(key.height, 480);
    assert!((1..=5).contains(&key.asset_id));
}

#[test]
fn oversized_request_is_rejected_with_the_exact_body() {
    let mut limiter = TokenBucket::new(10, 0);
    let pool = pool_of(5);
    let reply = begin_request(&mut limiter, &pool, 0, 3001, 5).expect_err("a rejection");
    assert_eq!(reply.status, 400);
    match reply.body {
        ReplyBody::Json(b) => assert_eq!(
            b,
            "{\"error\":\"Invalid image dimensions\",\"message\":\"Width and height must be between 1 and 3000 pixels\",\"requested\":{\"width\":3001,\"height\":5}}"
        ),
        other => panic!("expected a JSON body, got {:?}", content_type_of(&other)),
    }
}

#[test]
fn exhausted_budget_is_rejected_with_the_rate_limit_body() {
    let mut limiter = TokenBucket::new(1, 0);
    let pool = pool_of(5);
    assert!(begin_request(&mut limiter, &pool, 0, 10, 10).is_ok());
    let reply = begin_request(&mut limiter, &pool, 0, 10, 10).expect_err("a refusal");
    assert_eq!(reply.status, 429);
    match reply.body {
        ReplyBody::Json(b) => {
            assert_eq!(b, "{\"error\":\"Too many requests\",\"retry_after\":\"1 second\"}")
        }
        other => panic!("expected a JSON body, got {:?}", content_type_of(&other)),
    }
}

#[test]
fn admission_is_checked_before_validation() {
    let mut limiter = TokenBucket::new(1, 0);
    let pool = pool_of(5);
    assert!(begin_request(&mut limiter, &pool, 0, 10, 10).is_ok());
    // Invalid dimensions and an exhausted budget: the refusal wins.
    let reply = begin_request(&mut limiter, &pool, 0, 0, 0).expect_err("a refusal");
    assert_eq!(reply.status, 429);
}

#[test]
fn cache_hit_is_served_as_stored() {
    let key = CacheKey { asset_id: 1, width: 2, height: 2 };
    let stored = vec![9u8, 8, 7, 6];
    match handle_cache(key, Some(stored.clone())) {
        AfterCache::Respond(Reply { status, body: ReplyBody::Image(b) }) => {
            assert_eq!(status, 200);
            assert_eq!(b, stored);
        }
        _ => panic!("expected an image reply from a hit"),
    }
}

#[test]
fn cache_hit_content_type_is_the_image_type() {
    let key = CacheKey { asset_id: 1, width: 2, height: 2 };
    match handle_cache(key, Some(vec![1u8])) {
        AfterCache::Respond(reply) => assert_eq!(reply.body.content_type(), "image/jpeg"),
        _ => panic!("expected a reply from a hit"),
    }
}

#[test]
fn cache_miss_goes_on_to_the_source() {
    let key = CacheKey { asset_id: 3, width: 20, height: 30 };
    match handle_cache(key, None) {
        AfterCache::FetchSource(k) => assert_eq!(k, key),
        _ => panic!("expected a miss to fetch the source"),
    }
}

#[test]
fn unreadable_source_is_not_found() {
    let key = CacheKey { asset_id: 3, width: 20, height: 30 };
    match handle_source(key, None) {
        AfterSource::Respond(Reply { status, body: ReplyBody::Text(t) }) => {
            assert_eq!(status, 404);
            assert_eq!(t, "Image not found");
        }
        _ => panic!("expected a not-found reply"),
    }
}

#[test]
fn readable_source_goes_to_the_codec() {
    let key = CacheKey { asset_id: 3, width: 20, height: 30 };
    let bytes = vec![1u8, 2, 3];
    match handle_source(key, Some(bytes.clone())) {
        AfterSource::Resize(k, s) => {
            assert_eq!(k, key);
            assert_eq!(s, bytes);
        }
        _ => panic!("expected the codec step"),
    }
}

#[test]
fn largest_accepted_dimensions_pass_the_gate() {
    let mut limiter = TokenBucket::new(10, 0);
    let pool = pool_of(1);
    let key = begin_request(&mut limiter, &pool, 0, 3000, 3000).expect("the bound is inclusive");
    assert_eq!((key.width, key.height), (3000, 3000));
    assert_eq!(key.asset_id, 1);
}

#[test]
fn reply_content_types_follow_the_body() {
    let mut limiter = TokenBucket::new(1, 0);
    let pool = pool_of(1);
    assert!(begin_request(&mut limiter, &pool, 0, 10, 10).is_ok());
    let refusal = begin_request(&mut limiter, &pool, 0, 10, 10).expect_err("a refusal");
    assert_eq!(refusal.body.content_type(), "application/json");
    let key = CacheKey { asset_id: 1, width: 2, height: 2 };
    match handle_source(key, None) {
        AfterSource::Respond(reply) => assert_eq!(reply.body.content_type(), "text/plain"),
        _ => panic!("expected a not-found reply"),
    }
}

#[test]
fn empty_pool_is_a_configuration_error() {
    assert_eq!(AssetPool::new(0), Err(ApiError::ConfigurationError));
}

#[test]
fn nonempty_pool_is_accepted() {
    assert_eq!(AssetPool::new(4), Ok(AssetPool { pool_size: 4 }));
}

#[test]
fn pick_maps_entropy_by_remainder() {
    let pool = pool_of(3);
    assert_eq!(pool.pick_with(0), 1);
    assert_eq!(pool.pick_with(5), 3);
    assert_eq!(pool.pick_with(6), 1);
}

#[test]
fn pick_is_always_in_range() {
    let pool = pool_of(7);
    for _ in 0..100 {
        let id = pool.pick();
        assert!((1..=7).contains(&id));
    }
}

#[test]
fn paths_are_derived_consistently() {
    let key = CacheKey { asset_id: 2, width: 300, height: 400 };
    assert_eq!(key.cache_path(), "./.cache/2/300/400");
    assert_eq!(key.cache_dir(), "./.cache/2/300");
    assert_eq!(source_path(7), "./images/7.jpeg");
}

#[test]
fn distinct_keys_have_distinct_paths() {
    let a = CacheKey { asset_id: 1, width: 23, height: 4 };
    let b = CacheKey { asset_id: 12, width: 3, height: 4 };
    assert_ne!(a.cache_path(), b.cache_path());
}

#[test]
fn error_statuses_match_the_taxonomy() {
    assert_eq!(ApiError::AdmissionDenied.http_status(), 429);
    assert_eq!(ApiError::InvalidDimensions { width: 0, height: 1 }.http_status(), 400);
    assert_eq!(ApiError::AssetNotFound.http_status(), 404);
    assert_eq!(ApiError::CodecFailed.http_status(), 500);
    assert_eq!(ApiError::CacheWriteFailed.http_status(), 500);
    assert_eq!(ApiError::ConfigurationError.http_status(), 500);
}

fn content_type_of(body: &ReplyBody) -> &'static str {
    body.content_type()
}
