use vstd::prelude::*;

use crate::errors::AuthError;
use crate::handoff::CallbackResult;
use crate::query::{
    find_char, find_char_in, find_last_param, last_param, parse_query_pairs, query_pairs, str_eq,
    trim_ws, trimmed,
};

verus! {

/// The query string of the absolute URL that `s` parses as, if it parses
/// as one; empty when the URL carries no query. Computed only by the
/// outside URL parser, named here so that contracts can speak of it.
pub uninterp spec fn url_query_of(s: Seq<char>) -> Option<Seq<char>>;

/// Relies on url::Url::parse and url::Url::query: the answer is Some
/// exactly when the input parses as an absolute URL, and then holds the
/// parsed URL's query string (empty when it has none); determined by the
/// input alone.
#[verifier::external_body]
fn url_query(s: &str) -> (r: Option<String>)
    ensures
        r is Some == url_query_of(s@) is Some,
        r matches Some(q) ==> url_query_of(s@) == Some(q@),
{
    match url::Url::parse(s) {
        Ok(u) => Some(match u.query() {
            Some(q) => q.to_string(),
            None => String::new(),
        }),
        Err(_) => None,
    }
}

/// The decoded `code` parameter of a query string, its last occurrence.
pub open spec fn code_of(q: Seq<char>) -> Option<Seq<char>> {
    last_param(query_pairs(q), "code"@)
}

/// The decoded `state` parameter of a query string, its last occurrence.
pub open spec fn state_of(q: Seq<char>) -> Option<Seq<char>> {
    last_param(query_pairs(q), "state"@)
}

/// What manual capture owes for a pasted line.
pub enum CaptureSpec {
    /// A code was found and the state check passed.
    Accepted { code: Seq<char>, state: Seq<char> },
    /// A state parameter was present and differed from the expected state.
    MismatchedState,
    /// The line held nothing usable.
    Nothing,
}

/// The outcome for a query string that holds a `code` parameter: the state
/// defaults to the expected state when absent — a deliberate relaxation of
/// the anti-CSRF check for this fallback path — and must otherwise equal it
/// exactly.
pub open spec fn pair_capture(q: Seq<char>, expected: Seq<char>) -> CaptureSpec
    recommends
        code_of(q) is Some,
{
    let c = match code_of(q) {
        Some(c) => c,
        None => Seq::empty(),
    };
    let st = match state_of(q) {
        Some(s) => s,
        None => expected,
    };
    if st == expected {
        CaptureSpec::Accepted { code: c, state: st }
    } else {
        CaptureSpec::MismatchedState
    }
}

/// What manual capture owes for the trimmed line `t`, whose URL query (if
/// `t` is an absolute URL) is `uq`. In order of precedence: the query of an
/// absolute URL holding a code; the line itself as a raw query string, when
/// it shows both `=` and `&` and holds a code; the whole line as a bare
/// code; nothing.
pub open spec fn capture_spec(t: Seq<char>, uq: Option<Seq<char>>, expected: Seq<char>) -> CaptureSpec {
    let url_code = match uq {
        Some(q) => code_of(q) is Some,
        None => false,
    };
    if url_code {
        pair_capture(
            match uq {
                Some(q) => q,
                None => Seq::empty(),
            },
            expected,
        )
    } else if find_char(t, '=') >= 0 && find_char(t, '&') >= 0 && code_of(t) is Some {
        pair_capture(t, expected)
    } else if t.len() > 0 {
        CaptureSpec::Accepted { code: t, state: expected }
    } else {
        CaptureSpec::Nothing
    }
}

/// Whether an executable capture result is the one the specification owes.
pub open spec fn capture_agrees(r: Result<CallbackResult, AuthError>, s: CaptureSpec) -> bool {
    match s {
        CaptureSpec::Accepted { code, state } => r matches Ok(cr) && cr.code@ == code && cr.state@
            == state,
        CaptureSpec::MismatchedState => r matches Err(AuthError::StateMismatch),
        CaptureSpec::Nothing => r matches Err(AuthError::NoCodeProvided),
    }
}

/// Settles a found code against an optional returned state: absent state
/// falls back to the expected one; a present state must equal it.
fn finish_pair(code: String, state: Option<String>, expected_state: &str) -> (r: Result<
    CallbackResult,
    AuthError,
>)
    ensures
        ({
            let st = match state {
                Some(s) => s@,
                None => expected_state@,
            };
            if st == expected_state@ {
                r matches Ok(cr) && cr.code@ == code@ && cr.state@ == st
            } else {
                r matches Err(AuthError::StateMismatch)
            }
        }),
{
    match state {
        Some(s) => {
            if str_eq(s.as_str(), expected_state) {
                Ok(CallbackResult { code, state: s })
            } else {
                Err(AuthError::StateMismatch)
            }
        },
        None => Ok(CallbackResult { code, state: expected_state.to_owned() }),
    }
}

/// Extracts the code/state pair from one pasted line: a full redirect URL,
/// a raw query string, or a bare code, in that order of precedence.
pub fn capture_from_line(line: &str, expected_state: &str) -> (r: Result<CallbackResult, AuthError>)
    ensures
        capture_agrees(
            r,
            capture_spec(trimmed(line@), url_query_of(trimmed(line@)), expected_state@),
        ),
{
    let t = trim_ws(line);
    match url_query(t.as_str()) {
        Some(q) => {
            let pairs = parse_query_pairs(q.as_str());
            match find_last_param(&pairs, "code") {
                Some(c) => {
                    let st = find_last_param(&pairs, "state");
                    return finish_pair(c, st, expected_state);
                },
                None => {},
            }
        },
        None => {},
    }
    let has_eq = find_char_in(t.as_str(), '=');
    let has_amp = find_char_in(t.as_str(), '&');
    if has_eq.is_some() && has_amp.is_some() {
        let pairs = parse_query_pairs(t.as_str());
        match find_last_param(&pairs, "code") {
            Some(c) => {
                let st = find_last_param(&pairs, "state");
                return finish_pair(c, st, expected_state);
            },
            None => {},
        }
    }
    if t.as_str().unicode_len() > 0 {
        Ok(CallbackResult { code: t, state: expected_state.to_owned() })
    } else {
        Err(AuthError::NoCodeProvided)
    }
}

/// Manual capture from an optional line of interactive input: no line means
/// no interactive stream was available.
pub fn capture_manual(input: Option<String>, expected_state: &str) -> (r: Result<
    CallbackResult,
    AuthError,
>)
    ensures
        input is None ==> r matches Err(AuthError::NoInteractiveInput),
        input matches Some(line) ==> capture_agrees(
            r,
            capture_spec(trimmed(line@), url_query_of(trimmed(line@)), expected_state@),
        ),
{
    match input {
        None => Err(AuthError::NoInteractiveInput),
        Some(line) => capture_from_line(line.as_str(), expected_state),
    }
}

} // verus!
