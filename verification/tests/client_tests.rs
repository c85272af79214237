use qbz_core::bundle::BundleTokens;
use qbz_core::client::ClientState;
use qbz_core::client::LoginResponse;
use qbz_core::client::SecretValidation;
use qbz_core::client::UserSession;
use qbz_core::error::ApiError;

fn sample_session() -> UserSession {
    UserSession {
        user_auth_token: "token-123".to_string(),
        display_name: "Listener".to_string(),
        subscription_label: "Studio".to_string(),
    }
}

#[test]
fn fresh_state_rejects_protected_calls() {
    let state = ClientState::new();
    assert!(!state.is_logged_in());
    match state.app_id() {
        Err(ApiError::BundleExtractionError(m)) => assert_eq!(m, "Client not initialized"),
        _ => panic!("expected an initialization error"),
    }
    match state.auth_token() {
        Err(ApiError::AuthenticationError(m)) => assert_eq!(m, "Not logged in"),
        _ => panic!("expected an authentication error"),
    }
    assert!(state.memoized_secret().is_none());
}

#[test]
fn tokens_and_session_are_served_back() {
    let mut state = ClientState::new();
    state.set_tokens(BundleTokens {
        app_id: "123456789".to_string(),
        secrets: vec!["s1".to_string(), "s2".to_string()],
    });
    assert_eq!(state.app_id().unwrap(), "123456789");
    assert_eq!(
        state.secret_candidates().unwrap(),
        vec!["s1".to_string(), "s2".to_string()]
    );
    state.set_session(sample_session());
    assert!(state.is_logged_in());
    assert_eq!(state.auth_token().unwrap(), "token-123");
}

#[test]
fn validated_secret_is_memoized_once() {
    let mut state = ClientState::new();
    assert!(state.memoized_secret().is_none());
    state.note_validated_secret("winner".to_string());
    assert_eq!(state.memoized_secret().unwrap(), "winner");
}

#[test]
fn second_candidate_accepted_and_no_further_probes() {
    // Three candidates; only the second is honored.  The pass probes
    // exactly twice, fixes the second candidate, and a finished pass
    // issues no further probes.
    let candidates = vec!["a".to_string(), "b".to_string(), "c".to_string()];
    let mut pass = SecretValidation::new(candidates);
    let mut probes = 0;
    loop {
        let candidate = match pass.next_probe() {
            Some(c) => c,
            None => break,
        };
        probes += 1;
        let verdict = candidate == "b";
        pass.record_verdict(verdict);
    }
    assert_eq!(probes, 2);
    assert_eq!(pass.outcome().unwrap(), "b");
    assert!(pass.next_probe().is_none());
}

#[test]
fn all_candidates_rejected_is_invalid_app_secret() {
    let mut pass = SecretValidation::new(vec!["a".to_string(), "b".to_string()]);
    let mut probes = 0;
    while let Some(_c) = pass.next_probe() {
        probes += 1;
        pass.record_verdict(false);
    }
    assert_eq!(probes, 2);
    assert_eq!(pass.outcome(), Err(ApiError::InvalidAppSecret));
}

#[test]
fn login_response_reports_session() {
    let r = LoginResponse::from_login_result(&Ok(sample_session()));
    assert!(r.success);
    assert_eq!(r.user_name.unwrap(), "Listener");
    assert_eq!(r.subscription.unwrap(), "Studio");
    assert!(r.error.is_none());
}

#[test]
fn login_response_reports_error_message() {
    let r = LoginResponse::from_login_result(&Err(ApiError::InvalidAppId));
    assert!(!r.success);
    assert!(r.user_name.is_none());
    assert!(r.subscription.is_none());
    assert_eq!(r.error.unwrap(), "Invalid app ID");
}

#[test]
fn error_messages_carry_detail() {
    assert_eq!(
        ApiError::BundleExtractionError("No seeds found".to_string()).message(),
        "Bundle extraction error: No seeds found"
    );
    assert_eq!(
        ApiError::AuthenticationError("Invalid credentials".to_string()).message(),
        "Authentication error: Invalid credentials"
    );
    assert_eq!(ApiError::InvalidAppSecret.message(), "Invalid app secret");
    assert_eq!(
        ApiError::ApiResponse("Unexpected status: 503".to_string()).message(),
        "API response error: Unexpected status: 503"
    );
    assert_eq!(ApiError::NoQualityAvailable.message(), "No audio quality available");
    assert_eq!(
        ApiError::Transport("connection reset".to_string()).message(),
        "Transport error: connection reset"
    );
}
