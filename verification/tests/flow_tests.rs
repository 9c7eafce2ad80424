use oauth_pkce::errors::AuthError;
use oauth_pkce::flow::{
    authorize_endpoint, bypass_enabled, default_listen_addr, mode_from_letter,
    mode_from_numbered, require_config, scopes_or_default, token_endpoint, AuthMode,
    AwaitOutcome, FlowState, LoginFlow,
};
use oauth_pkce::manual::capture_manual;

#[test]
fn callback_path_reaches_success() {
    let f = LoginFlow::new("S1".to_string()).begin();
    let f = f.on_await_outcome(AwaitOutcome::Received {
        code: "CODE".to_string(),
        returned_state: "S1".to_string(),
    });
    let f = f.validate();
    match &f.at {
        FlowState::Exchanging { code } => assert_eq!(code, "CODE"),
        other => panic!("expected Exchanging, got {:?}", other),
    }
    let f = f.on_exchange_result(Ok("tok".to_string()));
    assert!(matches!(f.at, FlowState::Succeeded));
}

#[test]
fn mismatched_state_fails_validation() {
    let f = LoginFlow::new("S1".to_string()).begin();
    let f = f.on_await_outcome(AwaitOutcome::Received {
        code: "CODE".to_string(),
        returned_state: "S2".to_string(),
    });
    let f = f.validate();
    assert!(matches!(
        f.at,
        FlowState::Failed { error: AuthError::StateMismatch }
    ));
}

#[test]
fn timeout_moves_to_manual_fallback_not_failure() {
    let f = LoginFlow::new("S1".to_string()).begin();
    let f = f.on_await_outcome(AwaitOutcome::TimedOut);
    assert!(matches!(f.at, FlowState::ManualFallback));
}

#[test]
fn closed_handoff_moves_to_manual_fallback() {
    let f = LoginFlow::new("S1".to_string()).begin();
    let f = f.on_await_outcome(AwaitOutcome::Closed);
    assert!(matches!(f.at, FlowState::ManualFallback));
}

#[test]
fn timeout_without_interactive_input_fails_with_no_interactive_input() {
    let f = LoginFlow::new("S1".to_string()).begin();
    let f = f.on_await_outcome(AwaitOutcome::TimedOut);
    assert!(matches!(f.at, FlowState::ManualFallback));
    let captured = capture_manual(None, "S1");
    let f = f.on_manual_result(captured);
    assert!(matches!(
        f.at,
        FlowState::Failed { error: AuthError::NoInteractiveInput }
    ));
}

#[test]
fn manual_capture_feeds_validation() {
    let f = LoginFlow::new("S1".to_string()).begin();
    let f = f.on_await_outcome(AwaitOutcome::TimedOut);
    let captured = capture_manual(Some("code=XYZ&state=S1".to_string()), "S1");
    let f = f.on_manual_result(captured);
    let f = f.validate();
    match &f.at {
        FlowState::Exchanging { code } => assert_eq!(code, "XYZ"),
        other => panic!("expected Exchanging, got {:?}", other),
    }
}

#[test]
fn exchange_failure_carries_its_error() {
    let f = LoginFlow::new("S1".to_string()).begin();
    let f = f.on_await_outcome(AwaitOutcome::Received {
        code: "CODE".to_string(),
        returned_state: "S1".to_string(),
    });
    let f = f.validate();
    let f = f.on_exchange_result(Err(AuthError::NoAccessToken));
    assert!(matches!(
        f.at,
        FlowState::Failed { error: AuthError::NoAccessToken }
    ));
}

#[test]
fn letter_prompt_picks_manual_on_m() {
    assert!(matches!(mode_from_letter(" m \n"), AuthMode::Manual));
    assert!(matches!(mode_from_letter("Manual"), AuthMode::Manual));
    assert!(matches!(mode_from_letter("a"), AuthMode::Automatic));
    assert!(matches!(mode_from_letter(""), AuthMode::Automatic));
}

#[test]
fn numbered_prompt_picks_manual_on_two_or_m() {
    assert!(matches!(mode_from_numbered("2\n"), AuthMode::Manual));
    assert!(matches!(mode_from_numbered("m"), AuthMode::Manual));
    assert!(matches!(mode_from_numbered("M"), AuthMode::Manual));
    assert!(matches!(mode_from_numbered("1"), AuthMode::Automatic));
    assert!(matches!(mode_from_numbered("manual"), AuthMode::Automatic));
    assert!(matches!(mode_from_numbered(""), AuthMode::Automatic));
}

#[test]
fn bypass_needs_exactly_one() {
    assert!(bypass_enabled(Some("1".to_string())));
    assert!(!bypass_enabled(Some("0".to_string())));
    assert!(!bypass_enabled(Some("true".to_string())));
    assert!(!bypass_enabled(None));
}

#[test]
fn required_config_fails_by_name() {
    assert_eq!(
        require_config(Some("v".to_string()), "CLIENT_ID").unwrap(),
        "v"
    );
    match require_config(None, "CLIENT_ID") {
        Err(AuthError::ConfigMissing(n)) => assert_eq!(n, "CLIENT_ID"),
        other => panic!("expected ConfigMissing, got {:?}", other),
    }
}

#[test]
fn scopes_default_to_the_two_defaults() {
    assert_eq!(scopes_or_default(None), "read:user user:email");
    assert_eq!(scopes_or_default(Some("repo".to_string())), "repo");
}

#[test]
fn endpoints_and_listen_addr() {
    assert_eq!(
        authorize_endpoint(),
        "https://github.com/login/oauth/authorize"
    );
    assert_eq!(
        token_endpoint(),
        "https://github.com/login/oauth/access_token"
    );
    assert_eq!(default_listen_addr(), "0.0.0.0:8080");
}

#[test]
fn error_messages_name_their_cause() {
    assert_eq!(
        AuthError::StateMismatch.message(),
        "State mismatch in OAuth callback"
    );
    assert_eq!(
        AuthError::ConfigMissing("CLIENT_ID".to_string()).message(),
        "CLIENT_ID is required"
    );
    assert_eq!(
        AuthError::ExchangeRejected("oops".to_string()).message(),
        "Token exchange failed: oops"
    );
    assert_eq!(
        AuthError::NoAccessToken.message(),
        "No access_token in token response"
    );
    assert_eq!(
        AuthError::ListenerBindFailed.message(),
        "Could not bind the callback listener"
    );
    assert_eq!(
        AuthError::NoInteractiveInput.message(),
        "No interactive input available"
    );
    assert_eq!(
        AuthError::NoCodeProvided.message(),
        "No code provided"
    );
    assert_eq!(
        AuthError::ExchangeTransportFailed.message(),
        "Token exchange request could not be sent"
    );
}
