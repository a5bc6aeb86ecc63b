use magic_mirror::cache::SnapshotCache;
use magic_mirror::errors::{SettingsError, UIError};
use magic_mirror::fetch::{
    build_request_url, classify_fetch_event, classify_response, resolve_fallback, FetchEvent,
    FetchOutcome,
};
use magic_mirror::model::UserSettings;

#[test]
fn valid_units_are_accepted() {
    for unit in ["f", "F", "c", "C"] {
        let settings = UserSettings::new("70737".to_string(), unit.to_string(), true);
        assert!(settings.is_ok());
        assert_eq!(settings.unwrap().unit, unit);
    }
}

#[test]
fn invalid_unit_fails_configuration() {
    for unit in ["k", "K", "fahrenheit", "", "ff"] {
        match UserSettings::new("70737".to_string(), unit.to_string(), false) {
            Err(SettingsError::SerdeError { error_desc }) => {
                assert_eq!(error_desc, "Invalid unit.");
            }
            other => panic!("expected a configuration error, got {:?}", other),
        }
    }
}

#[test]
fn request_url_is_built_from_location() {
    let url = build_request_url("70737").unwrap();
    assert_eq!(url, "http://wttr.in/70737?format=j1");
}

#[test]
fn non_success_status_requires_fallback() {
    match classify_response(503, "{}".to_string()) {
        FetchOutcome::FallbackNeeded { status } => assert_eq!(status, 503),
        FetchOutcome::Fresh { .. } => panic!("a 503 must not pass as fresh data"),
    }
}

#[test]
fn success_with_clean_body_is_fresh() {
    match classify_response(200, "{\"weather\":[]}".to_string()) {
        FetchOutcome::Fresh { body } => assert_eq!(body, "{\"weather\":[]}"),
        FetchOutcome::FallbackNeeded { .. } => panic!("a clean 200 is fresh data"),
    }
}

#[test]
fn unknown_location_sentinel_is_a_failure() {
    let body = "Unknown location; please try ~Gonzales".to_string();
    match classify_response(200, body) {
        FetchOutcome::FallbackNeeded { status } => assert_eq!(status, 429),
        FetchOutcome::Fresh { .. } => panic!("a sentinel body must not be normalized as data"),
    }
}

#[test]
fn transport_failure_is_gateway_timeout() {
    match classify_fetch_event(FetchEvent::TransportFailure) {
        FetchOutcome::FallbackNeeded { status } => assert_eq!(status, 504),
        FetchOutcome::Fresh { .. } => panic!("a transport failure is never fresh data"),
    }
}

#[test]
fn fallback_uses_cached_snapshot() {
    let cached = Some("{\"cached\":true}".to_string());
    assert_eq!(resolve_fallback(503, cached).unwrap(), "{\"cached\":true}");
}

#[test]
fn fallback_without_cache_reports_fetch_failure() {
    let err = resolve_fallback(503, None).unwrap_err();
    assert_eq!(err.http_code, 503);
    assert_eq!(err.details, "Service Unavailable");
}

#[test]
fn fetch_failure_with_cache_end_to_end() {
    // A 503 with a prior snapshot: the payload comes from the cache,
    // and the classification the caller would see is the 503.
    let mut cache = SnapshotCache::new();
    cache.save("{\"snapshot\":1}".to_string());
    let outcome = classify_response(503, "service unavailable".to_string());
    match outcome {
        FetchOutcome::FallbackNeeded { status } => {
            let payload = resolve_fallback(status, cache.load()).unwrap();
            assert_eq!(payload, "{\"snapshot\":1}");
            assert_eq!(status, 503);
        }
        FetchOutcome::Fresh { .. } => panic!("a 503 must not pass as fresh data"),
    }
}

#[test]
fn cache_round_trip_is_byte_identical() {
    let mut cache = SnapshotCache::new();
    assert_eq!(cache.load(), None);
    let payload = "{\"current_condition\":[{\"temp_F\":\"72\"}]}".to_string();
    cache.save(payload.clone());
    assert_eq!(cache.load(), Some(payload));
}

#[test]
fn cache_save_replaces_wholesale() {
    let mut cache = SnapshotCache::new();
    cache.save("first".to_string());
    cache.save("second".to_string());
    assert_eq!(cache.load(), Some("second".to_string()));
}

#[test]
fn empty_snapshot_counts_as_missing() {
    let mut cache = SnapshotCache::new();
    cache.save("".to_string());
    assert_eq!(cache.load(), None);
}

#[test]
fn ui_error_from_request_error() {
    let err = magic_mirror::errors::RequestError::new(429);
    match UIError::from(err) {
        UIError::APIError { msg } => assert_eq!(msg, "Too Many Requests"),
        UIError::DataError { .. } => panic!("a request failure maps to the API error variant"),
    }
}
