use vstd::prelude::*;

use crate::errors::AuthError;
use crate::handoff::CallbackResult;
use crate::query::{str_eq, trim_ws, trimmed};

verus! {

/// The states of one login attempt. Terminal states end the attempt; a
/// retry is a fresh attempt with freshly generated PKCE material.
#[derive(Debug)]
pub enum FlowState {
    Init,
    AwaitingCallback,
    ManualFallback,
    Validating { code: String, returned_state: String },
    Exchanging { code: String },
    Succeeded,
    Failed { error: AuthError },
}

/// The three ways the bounded wait on the handoff can end.
pub enum AwaitOutcome {
    /// The listener delivered a code and state through the handoff.
    Received { code: String, returned_state: String },
    /// The handoff closed without a value (listener error).
    Closed,
    /// The timeout elapsed first.
    TimedOut,
}

/// One login attempt: the state it generated, and where it stands. The
/// surrounding program performs the waiting, prompting and HTTP work and
/// reports each outcome; every decision between states is taken here.
pub struct LoginFlow {
    pub expected_state: String,
    pub at: FlowState,
}

impl LoginFlow {
    /// A fresh attempt around a generated state token.
    pub fn new(expected_state: String) -> (f: LoginFlow)
        ensures
            f.at is Init,
            f.expected_state@ == expected_state@,
    {
        LoginFlow { expected_state, at: FlowState::Init }
    }

    /// The preparation is done (URL built, listener bound): wait for the
    /// callback.
    pub fn begin(self) -> (f: LoginFlow)
        requires
            self.at is Init,
        ensures
            f.at is AwaitingCallback,
            f.expected_state == self.expected_state,
    {
        let LoginFlow { expected_state, at } = self;
        LoginFlow { expected_state, at: FlowState::AwaitingCallback }
    }

    /// Decides on the end of the wait: a received pair moves to
    /// validation; a closed handoff or an elapsed timeout moves to manual
    /// fallback — the timeout is a designed transition, never a failure.
    pub fn on_await_outcome(self, outcome: AwaitOutcome) -> (f: LoginFlow)
        requires
            self.at is AwaitingCallback,
        ensures
            f.expected_state == self.expected_state,
            outcome matches AwaitOutcome::Received { code, returned_state } ==> ({
                &&& f.at matches FlowState::Validating { code: c, returned_state: s }
                &&& c == code
                &&& s == returned_state
            }),
            outcome is Closed ==> f.at is ManualFallback,
            outcome is TimedOut ==> f.at is ManualFallback,
    {
        let LoginFlow { expected_state, at } = self;
        match outcome {
            AwaitOutcome::Received { code, returned_state } => LoginFlow {
                expected_state,
                at: FlowState::Validating { code, returned_state },
            },
            AwaitOutcome::Closed => LoginFlow { expected_state, at: FlowState::ManualFallback },
            AwaitOutcome::TimedOut => LoginFlow { expected_state, at: FlowState::ManualFallback },
        }
    }

    /// Decides on the manual capture's outcome: a captured pair moves to
    /// validation; a capture failure fails the attempt with that error.
    pub fn on_manual_result(self, r: Result<CallbackResult, AuthError>) -> (f: LoginFlow)
        requires
            self.at is ManualFallback,
        ensures
            f.expected_state == self.expected_state,
            r matches Ok(cr) ==> ({
                &&& f.at matches FlowState::Validating { code, returned_state }
                &&& code == cr.code
                &&& returned_state == cr.state
            }),
            r matches Err(e) ==> ({
                &&& f.at matches FlowState::Failed { error }
                &&& error == e
            }),
    {
        let LoginFlow { expected_state, at } = self;
        match r {
            Ok(cr) => LoginFlow {
                expected_state,
                at: FlowState::Validating { code: cr.code, returned_state: cr.state },
            },
            Err(e) => LoginFlow { expected_state, at: FlowState::Failed { error: e } },
        }
    }

    /// Validates the returned state against the expected one: an exact
    /// match moves to the exchange, a mismatch fails the attempt.
    pub fn validate(self) -> (f: LoginFlow)
        requires
            self.at is Validating,
        ensures
            f.expected_state == self.expected_state,
            self.at matches FlowState::Validating { code, returned_state } ==> (if returned_state@
                == self.expected_state@ {
                ({
                    &&& f.at matches FlowState::Exchanging { code: c }
                    &&& c == code
                })
            } else {
                ({
                    &&& f.at matches FlowState::Failed { error }
                    &&& error is StateMismatch
                })
            }),
    {
        let LoginFlow { expected_state, at } = self;
        match at {
            FlowState::Validating { code, returned_state } => {
                if str_eq(returned_state.as_str(), expected_state.as_str()) {
                    LoginFlow { expected_state, at: FlowState::Exchanging { code } }
                } else {
                    LoginFlow {
                        expected_state,
                        at: FlowState::Failed { error: AuthError::StateMismatch },
                    }
                }
            },
            other => {
                proof {
                    assert(false);
                }
                LoginFlow { expected_state, at: other }
            },
        }
    }

    /// Decides on the token exchange's outcome: success ends the attempt
    /// with the token observed, a failure carries the exchange error.
    pub fn on_exchange_result(self, r: Result<String, AuthError>) -> (f: LoginFlow)
        requires
            self.at is Exchanging,
        ensures
            f.expected_state == self.expected_state,
            r is Ok ==> f.at is Succeeded,
            r matches Err(e) ==> ({
                &&& f.at matches FlowState::Failed { error }
                &&& error == e
            }),
    {
        let LoginFlow { expected_state, at } = self;
        match r {
            Ok(_) => LoginFlow { expected_state, at: FlowState::Succeeded },
            Err(e) => LoginFlow { expected_state, at: FlowState::Failed { error: e } },
        }
    }
}

/// Which path the interactive menu chose.
pub enum AuthMode {
    Automatic,
    Manual,
}

/// The letter prompt's decision: manual exactly when the trimmed answer
/// begins with `m` in either case; automatic is the default.
pub fn mode_from_letter(answer: &str) -> (m: AuthMode)
    ensures
        m is Manual <==> (trimmed(answer@).len() > 0 && (trimmed(answer@)[0] == 'm' || trimmed(
            answer@,
        )[0] == 'M')),
{
    let t = trim_ws(answer);
    if t.as_str().unicode_len() > 0 {
        let c = t.as_str().get_char(0);
        if c == 'm' || c == 'M' {
            return AuthMode::Manual;
        }
    }
    AuthMode::Automatic
}

/// The numbered prompt's decision: manual exactly when the trimmed answer
/// is `2`, `m` or `M`; automatic is the default.
pub fn mode_from_numbered(answer: &str) -> (m: AuthMode)
    ensures
        m is Manual <==> (trimmed(answer@) == "2"@ || trimmed(answer@) == "m"@ || trimmed(answer@)
            == "M"@),
{
    let t = trim_ws(answer);
    if str_eq(t.as_str(), "2") || str_eq(t.as_str(), "m") || str_eq(t.as_str(), "M") {
        AuthMode::Manual
    } else {
        AuthMode::Automatic
    }
}

/// The controlled-environment bypass switch: set exactly when its value
/// is `1`; unreachable by default.
pub fn bypass_enabled(value: Option<String>) -> (r: bool)
    ensures
        r <==> ({
            &&& value matches Some(s)
            &&& s@ == "1"@
        }),
{
    match value {
        Some(s) => str_eq(s.as_str(), "1"),
        None => false,
    }
}

/// A required configuration value: hands it through, or fails with
/// `ConfigMissing` naming it.
pub fn require_config(value: Option<String>, name: &str) -> (r: Result<String, AuthError>)
    ensures
        value matches Some(s) ==> ({
            &&& r matches Ok(v)
            &&& v@ == s@
        }),
        value is None ==> ({
            &&& r matches Err(AuthError::ConfigMissing(n))
            &&& n@ == name@
        }),
{
    match value {
        Some(s) => Ok(s),
        None => Err(AuthError::ConfigMissing(name.to_owned())),
    }
}

/// The scopes that are asked for when none are configured.
pub open spec fn default_scopes() -> Seq<char> {
    "read:user user:email"@
}

/// The configured scopes, or the default pair.
pub fn scopes_or_default(value: Option<String>) -> (r: String)
    ensures
        value matches Some(s) ==> r@ == s@,
        value is None ==> r@ == default_scopes(),
{
    match value {
        Some(s) => s,
        None => "read:user user:email".to_owned(),
    }
}

/// The provider's authorization endpoint.
pub fn authorize_endpoint() -> (r: String)
    ensures
        r@ == "https://github.com/login/oauth/authorize"@,
{
    "https://github.com/login/oauth/authorize".to_owned()
}

/// The provider's token endpoint.
pub fn token_endpoint() -> (r: String)
    ensures
        r@ == "https://github.com/login/oauth/access_token"@,
{
    "https://github.com/login/oauth/access_token".to_owned()
}

/// The listener address used when none is configured.
pub fn default_listen_addr() -> (r: String)
    ensures
        r@ == "0.0.0.0:8080"@,
{
    "0.0.0.0:8080".to_owned()
}

} // verus!
