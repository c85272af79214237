use qbz_core::bundle::extract_app_id;
use qbz_core::bundle::extract_bundle_tokens;
use qbz_core::bundle::extract_bundle_url;
use qbz_core::bundle::extract_secrets;
use qbz_core::error::ApiError;

#[test]
fn test_extract_bundle_url() {
    let html = r#"<script src="/resources/7.0.1-b001/bundle.js"></script>"#;
    let result = extract_bundle_url(html);
    assert!(result.is_ok());
    assert_eq!(result.unwrap(), "/resources/7.0.1-b001/bundle.js");
}

#[test]
fn test_extract_app_id() {
    let bundle = r#"production:{api:{appId:"123456789",appSecret:"abc"}"#;
    let result = extract_app_id(bundle);
    assert!(result.is_ok());
    assert_eq!(result.unwrap(), "123456789");
}

#[test]
fn bundle_url_not_found() {
    let html = r#"<script src="/other/path.js"></script>"#;
    let result = extract_bundle_url(html);
    match result {
        Err(ApiError::BundleExtractionError(m)) => assert_eq!(m, "Bundle URL not found"),
        _ => panic!("expected a bundle extraction error"),
    }
}

#[test]
fn bundle_url_takes_first_match() {
    let html = format!(
        "{}{}",
        r#"<script src="/resources/1.2.3-a001/bundle.js"></script>"#,
        r#"<script src="/resources/9.9.9-z999/bundle.js"></script>"#
    );
    assert_eq!(extract_bundle_url(&html).unwrap(), "/resources/1.2.3-a001/bundle.js");
}

#[test]
fn bundle_url_rejects_malformed_versions() {
    // Ten-digit build number, missing letter, and capital letter.
    assert!(extract_bundle_url(r#"<script src="/resources/7.0.1-b0011/bundle.js"></script>"#).is_err());
    assert!(extract_bundle_url(r#"<script src="/resources/7.0.1-001/bundle.js"></script>"#).is_err());
    assert!(extract_bundle_url(r#"<script src="/resources/7.0.1-B001/bundle.js"></script>"#).is_err());
}

#[test]
fn app_id_requires_exactly_nine_digits() {
    assert!(extract_app_id(r#"production:{api:{appId:"12345678",x:1}"#).is_err());
    assert!(extract_app_id(r#"production:{api:{appId:"1234567890",x:1}"#).is_err());
}

#[test]
fn secrets_empty_when_no_patterns() {
    // Lacks the seed/info/extras patterns and the simple fallback: the
    // secret list is empty and the top-level call fails.
    let bundle = r#"production:{api:{appId:"123456789"}} nothing else here"#;
    assert!(extract_secrets(bundle).is_empty());
    match extract_bundle_tokens(bundle) {
        Err(ApiError::BundleExtractionError(m)) => {
            assert_eq!(m, "No secrets found in bundle");
        },
        _ => panic!("expected a bundle extraction error"),
    }
}

// Fragments of the standard base64 encoding of a known secret, split as
// seed + info + extras with 44 trailing filler characters.
const SEED: &str = "OTc5NTQ5NDM3ZmNjNGEz";
const INFO: &str = "ZmFhZDQ4NjdiNW";
const EXTRAS: &str = "NkMjVkY2I=ZZZZZZZZZZZZZZZZZZZZZZZZZZZZZZZZZZZZZZZZZZZZ";
const DERIVED: &str = "979549437fcc4a3faad4867b5cd25dcb";

fn complex_bundle() -> String {
    format!(
        "var a;x.initialSeed(\"{}\",window.utimezone.berlin);var b;\
         \"berlin\":{{info:\"{}\",extras:\"{}\"}},more",
        SEED, INFO, EXTRAS
    )
}

#[test]
fn complex_secret_derivation() {
    // The derived secret round-trips through concatenation, trimming,
    // base64 decoding and UTF-8 reading; a fallback literal present in
    // the same text is ignored because the complex path yielded one.
    let mut bundle = complex_bundle();
    bundle.push_str("appSecret:\"00112233445566778899aabbccddeeff\"");
    let secrets = extract_secrets(&bundle);
    assert_eq!(secrets, vec![DERIVED.to_string()]);
}

#[test]
fn later_seed_overwrites_earlier_per_timezone() {
    // Two seeding calls for the same timezone: the last one wins, and
    // here the first would decode to the right secret, so extraction
    // must not use it.
    let bundle = format!(
        "x.initialSeed(\"{}\",window.utimezone.berlin);\
         y.initialSeed(\"{}\",window.utimezone.berlin);\
         \"berlin\":{{info:\"{}\",extras:\"{}\"}}",
        SEED, "QQQQQQQQQQQQQQQQQQQQ", INFO, EXTRAS
    );
    let secrets = extract_secrets(&bundle);
    assert!(!secrets.contains(&DERIVED.to_string()));
}

#[test]
fn triple_without_seed_is_skipped() {
    let bundle = format!(
        "x.initialSeed(\"{}\",window.utimezone.berlin);\
         \"paris\":{{info:\"{}\",extras:\"{}\"}}",
        SEED, INFO, EXTRAS
    );
    assert!(extract_secrets(&bundle).is_empty());
}

#[test]
fn short_combination_is_skipped() {
    // seed + info + extras no longer than 44 characters never yields a
    // candidate.
    let bundle = "x.initialSeed(\"AA\",window.utimezone.berlin);\
                  \"berlin\":{info:\"BB\",extras:\"CC\"}";
    assert!(extract_secrets(bundle).is_empty());
}

#[test]
fn simple_fallback_secrets() {
    let bundle = "nothing fancy appSecret:\"00112233445566778899aabbccddeeff\" and \
                  appSecret:\"ffeeddccbbaa99887766554433221100\" end";
    let secrets = extract_secrets(bundle);
    assert_eq!(
        secrets,
        vec![
            "00112233445566778899aabbccddeeff".to_string(),
            "ffeeddccbbaa99887766554433221100".to_string(),
        ]
    );
}

#[test]
fn simple_fallback_requires_exactly_32_hex() {
    assert!(extract_secrets("appSecret:\"00112233445566778899aabbccddeef\"").is_empty());
    assert!(extract_secrets("appSecret:\"00112233445566778899aabbccddeeff0\"").is_empty());
    assert!(extract_secrets("appSecret:\"00112233445566778899AABBCCDDEEFF\"").is_empty());
}

#[test]
fn bundle_tokens_assembled() {
    let mut bundle = String::from("production:{api:{appId:\"987654321\",appSecret:\"abc\"}");
    bundle.push_str(&complex_bundle());
    let tokens = extract_bundle_tokens(&bundle).unwrap();
    assert_eq!(tokens.app_id, "987654321");
    assert_eq!(tokens.secrets, vec![DERIVED.to_string()]);
}

#[test]
fn bundle_tokens_need_app_id() {
    let bundle = complex_bundle();
    match extract_bundle_tokens(&bundle) {
        Err(ApiError::BundleExtractionError(m)) => assert_eq!(m, "App ID not found"),
        _ => panic!("expected a bundle extraction error"),
    }
}

#[test]
fn bundle_tokens_via_simple_fallback() {
    let bundle = "production:{api:{appId:\"111222333\"} \
                  appSecret:\"00112233445566778899aabbccddeeff\"";
    let tokens = extract_bundle_tokens(bundle).unwrap();
    assert_eq!(tokens.app_id, "111222333");
    assert_eq!(tokens.secrets, vec!["00112233445566778899aabbccddeeff".to_string()]);
}
