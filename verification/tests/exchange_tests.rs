use oauth_pkce::errors::AuthError;
use oauth_pkce::exchange::{
    build_token_request_body, evaluate_exchange_response, ExchangeResponse,
};

#[test]
fn token_body_holds_every_member_in_order() {
    let body = build_token_request_body(
        &"cid".to_string(),
        &"https://h/cb".to_string(),
        &"C O/DE".to_string(),
        &"VERIF".to_string(),
        &None,
    );
    assert_eq!(
        body,
        "client_id=cid&redirect_uri=https%3A%2F%2Fh%2Fcb&grant_type=authorization_code\
         &code=C+O%2FDE&code_verifier=VERIF"
    );
}

#[test]
fn client_secret_joins_only_when_configured() {
    let body = build_token_request_body(
        &"cid".to_string(),
        &"r".to_string(),
        &"c".to_string(),
        &"v".to_string(),
        &Some("s&1".to_string()),
    );
    assert_eq!(
        body,
        "client_id=cid&redirect_uri=r&grant_type=authorization_code&code=c\
         &code_verifier=v&client_secret=s%261"
    );
}

#[test]
fn success_with_access_token_yields_the_token() {
    let resp = ExchangeResponse::Response {
        success: true,
        body: "{\"access_token\":\"tok123\",\"token_type\":\"bearer\"}".to_string(),
    };
    let r = evaluate_exchange_response(resp);
    assert_eq!(r.unwrap(), "tok123");
}

#[test]
fn missing_access_token_fails_despite_transport_success() {
    let resp = ExchangeResponse::Response {
        success: true,
        body: "{\"token_type\":\"bearer\",\"scope\":\"read:user\"}".to_string(),
    };
    let r = evaluate_exchange_response(resp);
    assert!(matches!(r, Err(AuthError::NoAccessToken)));
}

#[test]
fn non_string_access_token_is_no_token() {
    let resp = ExchangeResponse::Response {
        success: true,
        body: "{\"access_token\":42}".to_string(),
    };
    let r = evaluate_exchange_response(resp);
    assert!(matches!(r, Err(AuthError::NoAccessToken)));
}

#[test]
fn unparseable_body_is_no_token() {
    let resp = ExchangeResponse::Response {
        success: true,
        body: "not json at all".to_string(),
    };
    let r = evaluate_exchange_response(resp);
    assert!(matches!(r, Err(AuthError::NoAccessToken)));
}

#[test]
fn non_success_response_is_rejected_with_its_body() {
    let resp = ExchangeResponse::Response {
        success: false,
        body: "the provider said no".to_string(),
    };
    let r = evaluate_exchange_response(resp);
    match r {
        Err(AuthError::ExchangeRejected(b)) => assert_eq!(b, "the provider said no"),
        other => panic!("expected ExchangeRejected, got {:?}", other),
    }
}

#[test]
fn transport_failure_is_its_own_error() {
    let r = evaluate_exchange_response(ExchangeResponse::TransportFailed);
    assert!(matches!(r, Err(AuthError::ExchangeTransportFailed)));
}
