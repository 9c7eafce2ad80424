use vstd::prelude::*;

verus! {

/// Why a login attempt failed. Every failure of the flow is surfaced as one
/// of these; none is swallowed.
#[derive(Debug)]
pub enum AuthError {
    /// A required configuration value was absent; carries its name.
    ConfigMissing(String),
    /// The local callback listener could not bind its socket.
    ListenerBindFailed,
    /// The returned anti-CSRF state did not equal the expected state.
    StateMismatch,
    /// Manual capture was needed but no interactive input stream exists.
    NoInteractiveInput,
    /// Manual capture produced nothing usable.
    NoCodeProvided,
    /// The token request could not be transported to the provider.
    ExchangeTransportFailed,
    /// The provider answered the token request with a non-success response;
    /// carries the provider's error body.
    ExchangeRejected(String),
    /// The token response parsed but held no `access_token` field.
    NoAccessToken,
}

impl AuthError {
    /// A diagnostic line for this error.
    pub fn message(&self) -> (r: String)
        ensures
            self matches AuthError::ConfigMissing(n) ==> r@ == n@ + " is required"@,
            self matches AuthError::ListenerBindFailed ==> r@ == "Could not bind the callback listener"@,
            self matches AuthError::StateMismatch ==> r@ == "State mismatch in OAuth callback"@,
            self matches AuthError::NoInteractiveInput ==> r@ == "No interactive input available"@,
            self matches AuthError::NoCodeProvided ==> r@ == "No code provided"@,
            self matches AuthError::ExchangeTransportFailed ==> r@ == "Token exchange request could not be sent"@,
            self matches AuthError::ExchangeRejected(b) ==> r@ == "Token exchange failed: "@ + b@,
            self matches AuthError::NoAccessToken ==> r@ == "No access_token in token response"@,
    {
        match self {
            AuthError::ConfigMissing(n) => n.clone().concat(" is required"),
            AuthError::ListenerBindFailed => "Could not bind the callback listener".to_owned(),
            AuthError::StateMismatch => "State mismatch in OAuth callback".to_owned(),
            AuthError::NoInteractiveInput => "No interactive input available".to_owned(),
            AuthError::NoCodeProvided => "No code provided".to_owned(),
            AuthError::ExchangeTransportFailed => "Token exchange request could not be sent".to_owned(),
            AuthError::ExchangeRejected(b) => "Token exchange failed: ".to_owned().concat(b.as_str()),
            AuthError::NoAccessToken => "No access_token in token response".to_owned(),
        }
    }
}

} // verus!
