use meteostation_pi::cache::ObservationCache;
use meteostation_pi::observation::{DataErrorKind, DataValue};

#[test]
fn cache_starts_empty_and_reads_always_succeed() {
    let cache = ObservationCache::new();
    let snapshot = cache.read().unwrap();
    assert!(snapshot.data_point.is_none());
    assert!(snapshot.data_error.is_none());
}

#[test]
fn cache_is_shared_between_handles() {
    let cache = ObservationCache::new();
    let reader = cache.clone();
    cache.update(Ok(DataValue::new(230, 540)));
    let snapshot = reader.read().unwrap();
    assert_eq!(snapshot.data_point, Some(DataValue::new(230, 540)));
    assert!(snapshot.data_error.is_none());
}

#[test]
fn cache_serves_stale_value_up_to_the_threshold() {
    let cache = ObservationCache::new();
    cache.update(Ok(DataValue::new(230, 540)));
    for _ in 0..10 {
        cache.update(Err(DataErrorKind::Timeout));
    }
    // ten consecutive failures: the value is stale but still served
    let snapshot = cache.read().unwrap();
    assert_eq!(snapshot.data_point, Some(DataValue::new(230, 540)));
    assert_eq!(snapshot.data_error.unwrap().error_count, 10);

    // the eleventh failure evicts it
    cache.update(Err(DataErrorKind::Timeout));
    let snapshot = cache.read().unwrap();
    assert!(snapshot.data_point.is_none());
    assert_eq!(snapshot.data_error.unwrap().error_count, 11);

    // one success restores a fresh value and clears the streak
    cache.update(Ok(DataValue::new(240, 550)));
    let snapshot = cache.read().unwrap();
    assert_eq!(snapshot.data_point, Some(DataValue::new(240, 550)));
    assert!(snapshot.data_error.is_none());
}

#[test]
fn cache_tracks_the_newest_failure_kind() {
    let cache = ObservationCache::new();
    cache.update(Err(DataErrorKind::Timeout));
    cache.update(Err(DataErrorKind::IO));
    let snapshot = cache.read().unwrap();
    let streak = snapshot.data_error.unwrap();
    assert_eq!(streak.last_error, DataErrorKind::IO);
    assert_eq!(streak.error_count, 2);
}
