use qbz_core::error::ApiError;
use qbz_core::request::album_query;
use qbz_core::request::artist_query;
use qbz_core::request::playlist_query;
use qbz_core::request::track_query;
use qbz_core::quality::Quality;
use qbz_core::request::build_url;
use qbz_core::request::favorites_query;
use qbz_core::request::login_status_error;
use qbz_core::request::missing_section_error;
use qbz_core::request::path_track_get_file_url;
use qbz_core::request::path_user_login;
use qbz_core::request::probe_accepts;
use qbz_core::request::search_query;
use qbz_core::request::stream_query;
use qbz_core::request::stream_status_error;
use qbz_core::request::PROBE_FORMAT_ID;
use qbz_core::request::PROBE_TRACK_ID;
use qbz_core::text::u64_to_string;

#[test]
fn urls_are_base_plus_path() {
    assert_eq!(
        build_url(path_track_get_file_url()),
        "https://www.qobuz.com/api.json/0.2/track/getFileUrl"
    );
    assert_eq!(build_url(path_user_login()), "https://www.qobuz.com/api.json/0.2/user/login");
}

#[test]
fn decimal_rendering_is_exact() {
    assert_eq!(u64_to_string(0), "0");
    assert_eq!(u64_to_string(7), "7");
    assert_eq!(u64_to_string(5966783), "5966783");
    assert_eq!(u64_to_string(u64::MAX), "18446744073709551615");
}

#[test]
fn stream_query_is_exact() {
    let q = stream_query(5966783, 5, 1700000000, "sig".to_string());
    let expected: Vec<(String, String)> = vec![
        ("track_id".to_string(), "5966783".to_string()),
        ("format_id".to_string(), "5".to_string()),
        ("intent".to_string(), "stream".to_string()),
        ("request_ts".to_string(), "1700000000".to_string()),
        ("request_sig".to_string(), "sig".to_string()),
    ];
    assert_eq!(q, expected);
}

#[test]
fn probe_constants_match_known_test_track() {
    assert_eq!(PROBE_TRACK_ID, 5966783);
    assert_eq!(PROBE_FORMAT_ID, 5);
}

#[test]
fn search_and_favorites_queries_are_exact() {
    let s = search_query("aphex twin", 25);
    assert_eq!(s[0], ("query".to_string(), "aphex twin".to_string()));
    assert_eq!(s[1], ("limit".to_string(), "25".to_string()));

    let f = favorites_query("albums", 50, 10, 1700000001, "fsig".to_string());
    assert_eq!(f[0], ("type".to_string(), "albums".to_string()));
    assert_eq!(f[1], ("limit".to_string(), "50".to_string()));
    assert_eq!(f[2], ("offset".to_string(), "10".to_string()));
    assert_eq!(f[3], ("request_ts".to_string(), "1700000001".to_string()));
    assert_eq!(f[4], ("request_sig".to_string(), "fsig".to_string()));
}

#[test]
fn probe_acceptance_is_everything_but_bad_request() {
    assert!(probe_accepts(200));
    assert!(probe_accepts(401));
    assert!(probe_accepts(500));
    assert!(!probe_accepts(400));
}

#[test]
fn login_statuses_map_to_taxonomy() {
    assert!(login_status_error(200).is_none());
    match login_status_error(401) {
        Some(ApiError::AuthenticationError(m)) => assert_eq!(m, "Invalid credentials"),
        _ => panic!("expected an authentication error"),
    }
    assert_eq!(login_status_error(400), Some(ApiError::InvalidAppId));
    match login_status_error(503) {
        Some(ApiError::ApiResponse(m)) => assert_eq!(m, "Unexpected status: 503"),
        _ => panic!("expected an api response error"),
    }
}

#[test]
fn signed_statuses_map_to_taxonomy() {
    assert!(stream_status_error(200).is_none());
    assert_eq!(stream_status_error(400), Some(ApiError::InvalidAppSecret));
    match stream_status_error(429) {
        Some(ApiError::ApiResponse(m)) => assert_eq!(m, "Unexpected status: 429"),
        _ => panic!("expected an api response error"),
    }
}

#[test]
fn missing_section_names_the_field() {
    match missing_section_error("albums") {
        ApiError::ApiResponse(m) => assert_eq!(m, "No albums in response"),
        _ => panic!("expected an api response error"),
    }
}

#[test]
fn quality_ids_and_order() {
    assert_eq!(Quality::Mp3.id(), 5);
    assert_eq!(Quality::Cd.id(), 6);
    assert_eq!(Quality::HiRes96.id(), 7);
    assert_eq!(Quality::HiRes192.id(), 27);
    assert_eq!(
        Quality::fallback_order(),
        vec![Quality::HiRes192, Quality::HiRes96, Quality::Cd, Quality::Mp3]
    );
}

#[test]
fn get_queries_are_exact() {
    assert_eq!(album_query("abc123"), vec![("album_id".to_string(), "abc123".to_string())]);
    assert_eq!(track_query(42), vec![("track_id".to_string(), "42".to_string())]);
    assert_eq!(
        artist_query(9, false),
        vec![("artist_id".to_string(), "9".to_string())]
    );
    assert_eq!(
        artist_query(9, true),
        vec![
            ("artist_id".to_string(), "9".to_string()),
            ("extra".to_string(), "albums".to_string()),
        ]
    );
    assert_eq!(
        playlist_query(77),
        vec![
            ("playlist_id".to_string(), "77".to_string()),
            ("limit".to_string(), "500".to_string()),
        ]
    );
}
