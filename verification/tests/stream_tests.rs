use qbz_core::error::ApiError;
use qbz_core::quality::Quality;
use qbz_core::stream::fallback_start_index;
use qbz_core::stream::plan_qualities;
use qbz_core::stream::resolve_fallback;
use qbz_core::stream::stream_url_from_fields;
use qbz_core::stream::StreamAttempt;
use qbz_core::stream::StreamUrl;

fn delivered(track_id: u64, restrictions: Vec<String>) -> StreamAttempt {
    StreamAttempt::Delivered(StreamUrl {
        url: format!("https://cdn.example/{}", track_id),
        format_id: 27,
        mime_type: "audio/flac".to_string(),
        sampling_rate_hz: 192000,
        bit_depth: Some(24),
        track_id,
        restrictions,
    })
}

#[test]
fn restricted_preferred_falls_to_next_quality() {
    // Preferred quality restricted, next lower unrestricted: the walk
    // returns the lower quality's location.
    let attempts = vec![
        delivered(1, vec!["FormatRestrictedByFormatAvailability".to_string()]),
        delivered(2, vec![]),
    ];
    let got = resolve_fallback(attempts).unwrap();
    assert_eq!(got.track_id, 2);
    assert!(got.restrictions.is_empty());
}

#[test]
fn exhaustion_is_no_quality_available() {
    let attempts = vec![
        delivered(1, vec!["r".to_string()]),
        StreamAttempt::Failed,
        delivered(3, vec!["r".to_string()]),
        StreamAttempt::Failed,
    ];
    assert!(matches!(resolve_fallback(attempts), Err(ApiError::NoQualityAvailable)));
    assert!(matches!(resolve_fallback(vec![]), Err(ApiError::NoQualityAvailable)));
}

#[test]
fn secret_rejection_aborts_immediately() {
    // A rejected secret on the first probed quality propagates unchanged
    // even though a later quality would have been unrestricted.
    let attempts = vec![StreamAttempt::SecretRejected, delivered(2, vec![])];
    assert!(matches!(resolve_fallback(attempts), Err(ApiError::InvalidAppSecret)));
}

#[test]
fn first_fit_wins_over_later_deliveries() {
    let attempts = vec![StreamAttempt::Failed, delivered(2, vec![]), delivered(3, vec![])];
    assert_eq!(resolve_fallback(attempts).unwrap().track_id, 2);
}

#[test]
fn plan_starts_at_preferred_and_never_wraps() {
    assert_eq!(
        plan_qualities(Quality::HiRes192),
        vec![Quality::HiRes192, Quality::HiRes96, Quality::Cd, Quality::Mp3]
    );
    assert_eq!(plan_qualities(Quality::Cd), vec![Quality::Cd, Quality::Mp3]);
    assert_eq!(plan_qualities(Quality::Mp3), vec![Quality::Mp3]);
    assert_eq!(fallback_start_index(Quality::HiRes96), 1);
}

#[test]
fn stream_url_defaults_for_missing_fields() {
    let u = stream_url_from_fields(42, None, None, None, None, None, vec![]);
    assert_eq!(u.track_id, 42);
    assert_eq!(u.url, "");
    assert_eq!(u.format_id, 0);
    assert_eq!(u.mime_type, "");
    assert_eq!(u.sampling_rate_hz, 0);
    assert_eq!(u.bit_depth, None);
    assert!(!u.has_restrictions());
}

#[test]
fn stream_url_keeps_given_fields() {
    let u = stream_url_from_fields(
        7,
        Some("https://cdn.example/7".to_string()),
        Some(27),
        Some("audio/flac".to_string()),
        Some(96000),
        Some(24),
        vec!["why".to_string()],
    );
    assert_eq!(u.url, "https://cdn.example/7");
    assert_eq!(u.format_id, 27);
    assert_eq!(u.mime_type, "audio/flac");
    assert_eq!(u.sampling_rate_hz, 96000);
    assert_eq!(u.bit_depth, Some(24));
    assert!(u.has_restrictions());
}
