use svc_cargo::cache::{
    classify_decoded_draft, classify_fetch_reply, interpret_insert_reply, interpret_expire_reply,
    CacheError, DraftCache, StoreReply, DRAFT_TTL_MS,
};
use svc_cargo::types::{CurrencyUnit, Itinerary};

fn sample_itinerary(weight: u32) -> Itinerary {
    Itinerary {
        flight_plans: Vec::new(),
        currency_unit: CurrencyUnit::Usd,
        invoice: Vec::new(),
        cargo_weight_g: weight,
        user_id: uuid::Uuid::new_v4().to_string(),
        acquisition_vertiport_id: uuid::Uuid::new_v4().to_string(),
        delivery_vertiport_id: uuid::Uuid::new_v4().to_string(),
    }
}

#[test]
fn test_cache_error_display() {
    assert_eq!(CacheError::PoolUnavailable.to_text(), "Pool is unavailable.");
    assert_eq!(CacheError::CouldNotCreatePool.to_text(), "Could not create pool.");
    assert_eq!(CacheError::CouldNotConfigure.to_text(), "Could not configure cache.");
    assert_eq!(CacheError::CouldNotConnect.to_text(), "Could not connect to cache.");
    assert_eq!(CacheError::OperationFailed.to_text(), "Cache operation failed.");
    assert_eq!(CacheError::NotFound.to_text(), "Key was not found.");
    assert_eq!(CacheError::InvalidValue.to_text(), "Invalid value retrieved.");
    assert_eq!(CacheError::Unexpected.to_text(), "Unexpected response.");
    assert_eq!(CacheError::KeyCollision.to_text(), "Key collision.");
}

#[test]
fn test_store_and_get_draft() {
    let mut cache = DraftCache::new();
    let now: i64 = 1_700_000_000_000;
    let id = uuid::Uuid::new_v4().to_string();
    let itinerary = sample_itinerary(10);

    cache
        .store_itinerary(id.clone(), itinerary, now)
        .expect("fresh key must store");

    let fetched = cache.get_itinerary(&id, now).expect("stored draft must be found");
    assert_eq!(fetched.cargo_weight_g, 10);

    // storing under the same live key is a collision, never an overwrite
    let err = cache
        .store_itinerary(id.clone(), sample_itinerary(99), now)
        .unwrap_err();
    assert_eq!(err, CacheError::KeyCollision);
    let fetched = cache.get_itinerary(&id, now).expect("draft must survive a collision");
    assert_eq!(fetched.cargo_weight_g, 10);
}

#[test]
fn test_draft_expiry() {
    let mut cache = DraftCache::new();
    let now: i64 = 1_700_000_000_000;
    let id = uuid::Uuid::new_v4().to_string();
    cache
        .store_itinerary(id.clone(), sample_itinerary(5), now)
        .unwrap();

    // still alive one instant before the expiry
    assert!(cache.get_itinerary(&id, now + DRAFT_TTL_MS - 1).is_ok());
    // expired silently at the expiry instant
    let err = cache.get_itinerary(&id, now + DRAFT_TTL_MS).unwrap_err();
    assert_eq!(err, CacheError::NotFound);
    // an expired key may be reused
    cache
        .store_itinerary(id.clone(), sample_itinerary(7), now + DRAFT_TTL_MS)
        .expect("expired key must be reusable");
}

#[test]
fn test_draft_lookup_idempotent() {
    let mut cache = DraftCache::new();
    let now: i64 = 1_700_000_000_000;
    let itinerary = sample_itinerary(123);
    let expected_user = itinerary.user_id.clone();
    let id = cache.put(itinerary, now).expect("put must succeed on an empty cache");

    let first = cache.get_itinerary(&id, now).expect("first lookup");
    let first_user = first.user_id.clone();
    let first_weight = first.cargo_weight_g;
    let second = cache.get_itinerary(&id, now).expect("second lookup");
    assert_eq!(first_user, second.user_id);
    assert_eq!(first_weight, second.cargo_weight_g);
    assert_eq!(second.user_id, expected_user);
}

#[test]
fn test_put_collision_bound() {
    let mut cache = DraftCache::new();
    let now: i64 = 1_700_000_000_000;
    let a = uuid::Uuid::new_v4().to_string();
    let b = uuid::Uuid::new_v4().to_string();
    let c = uuid::Uuid::new_v4().to_string();

    cache.store_itinerary(a.clone(), sample_itinerary(1), now).unwrap();
    cache.store_itinerary(b.clone(), sample_itinerary(2), now).unwrap();

    // the first two candidates collide; the put must still succeed on the third
    let candidates = vec![a.clone(), b.clone(), c.clone()];
    let id = cache
        .put_with_ids(sample_itinerary(3), &candidates, now)
        .expect("third candidate is free");
    assert_eq!(id, c);

    // all three candidates collide: the put fails and corrupts nothing
    let candidates = vec![a.clone(), b.clone(), c.clone()];
    let err = cache
        .put_with_ids(sample_itinerary(4), &candidates, now)
        .unwrap_err();
    assert_eq!(err, CacheError::OperationFailed);
    assert_eq!(cache.get_itinerary(&a, now).unwrap().cargo_weight_g, 1);
    assert_eq!(cache.get_itinerary(&b, now).unwrap().cargo_weight_g, 2);
    assert_eq!(cache.get_itinerary(&c, now).unwrap().cargo_weight_g, 3);
}

#[test]
fn test_put_generates_fresh_ids() {
    let mut cache = DraftCache::new();
    let now: i64 = 1_700_000_000_000;
    let first = cache.put(sample_itinerary(1), now).expect("first put");
    let second = cache.put(sample_itinerary(2), now).expect("second put");
    assert_ne!(first, second);
    assert_eq!(cache.get_itinerary(&first, now).unwrap().cargo_weight_g, 1);
    assert_eq!(cache.get_itinerary(&second, now).unwrap().cargo_weight_g, 2);
}

#[test]
fn test_interpret_insert_reply() {
    assert!(interpret_insert_reply(Ok(StoreReply::Int(1))).is_ok());
    assert_eq!(
        interpret_insert_reply(Ok(StoreReply::Int(0))).unwrap_err(),
        CacheError::KeyCollision
    );
    assert_eq!(
        interpret_insert_reply(Ok(StoreReply::Int(2))).unwrap_err(),
        CacheError::Unexpected
    );
    assert_eq!(
        interpret_insert_reply(Ok(StoreReply::Nil)).unwrap_err(),
        CacheError::Unexpected
    );
    assert_eq!(
        interpret_insert_reply(Err(())).unwrap_err(),
        CacheError::OperationFailed
    );
}

#[test]
fn test_interpret_expire_reply() {
    assert!(interpret_expire_reply(Ok(StoreReply::Int(1))).is_ok());
    assert_eq!(
        interpret_expire_reply(Ok(StoreReply::Int(0))).unwrap_err(),
        CacheError::Unexpected
    );
    assert_eq!(
        interpret_expire_reply(Err(())).unwrap_err(),
        CacheError::OperationFailed
    );
}

#[test]
fn test_classify_fetch_reply() {
    assert_eq!(
        classify_fetch_reply(Ok(StoreReply::Data(vec![1, 2, 3]))).unwrap(),
        vec![1, 2, 3]
    );
    assert_eq!(
        classify_fetch_reply(Ok(StoreReply::Nil)).unwrap_err(),
        CacheError::NotFound
    );
    assert_eq!(
        classify_fetch_reply(Ok(StoreReply::Int(5))).unwrap_err(),
        CacheError::InvalidValue
    );
    assert_eq!(
        classify_fetch_reply(Err(())).unwrap_err(),
        CacheError::OperationFailed
    );
}

#[test]
fn test_classify_decoded_draft() {
    let itinerary = sample_itinerary(42);
    let decoded = classify_decoded_draft(Some(itinerary)).expect("a decoded draft passes through");
    assert_eq!(decoded.cargo_weight_g, 42);
    // bytes that fail to deserialize are InvalidValue, not NotFound
    assert_eq!(
        classify_decoded_draft(None).unwrap_err(),
        CacheError::InvalidValue
    );
}
