use vstd::prelude::*;

use crate::encoding::{form_encode_pairs, form_encoded_pairs};
use crate::errors::AuthError;

verus! {

/// The string field named `key` of the JSON object that `body` parses as,
/// if `body` is valid JSON holding such a string field. Computed only by
/// the outside JSON parser, named here so that contracts can speak of it.
pub uninterp spec fn json_str_field(body: Seq<char>, key: Seq<char>) -> Option<Seq<char>>;

/// Relies on serde_json::from_str, serde_json::Value::get and
/// serde_json::Value::as_str: the string field named `key` of the JSON in
/// `body`, or None when the body is not valid JSON, has no such field, or
/// the field is not a string; determined by `body` and `key` alone.
#[verifier::external_body]
fn json_string_field(body: &str, key: &str) -> (r: Option<String>)
    ensures
        r is Some == json_str_field(body@, key@) is Some,
        r matches Some(s) ==> json_str_field(body@, key@) == Some(s@),
{
    match serde_json::from_str::<serde_json::Value>(body) {
        Ok(v) => match v.get(key) {
            Some(t) => match t.as_str() {
                Some(s) => Some(s.to_string()),
                None => None,
            },
            None => None,
        },
        Err(_) => None,
    }
}

/// The form members of the token request, in the order they are sent; the
/// client secret joins only when one is configured.
pub open spec fn token_request_pairs(
    client_id: Seq<char>,
    redirect_uri: Seq<char>,
    code: Seq<char>,
    verifier: Seq<char>,
    client_secret: Option<Seq<char>>,
) -> Seq<(Seq<char>, Seq<char>)> {
    let base = seq![
        ("client_id"@, client_id),
        ("redirect_uri"@, redirect_uri),
        ("grant_type"@, "authorization_code"@),
        ("code"@, code),
        ("code_verifier"@, verifier),
    ];
    match client_secret {
        Some(s) => base + seq![("client_secret"@, s)],
        None => base,
    }
}

/// Builds the form-encoded body of the code-for-token POST. The verifier
/// travels only here, never in the authorization URL.
pub fn build_token_request_body(
    client_id: &String,
    redirect_uri: &String,
    code: &String,
    verifier: &String,
    client_secret: &Option<String>,
) -> (r: String)
    ensures
        r@ == form_encoded_pairs(
            token_request_pairs(
                client_id@,
                redirect_uri@,
                code@,
                verifier@,
                match client_secret {
                    Some(s) => Some(s@),
                    None => None,
                },
            ),
        ),
{
    let mut pairs: Vec<(String, String)> = Vec::new();
    pairs.push(("client_id".to_owned(), client_id.clone()));
    pairs.push(("redirect_uri".to_owned(), redirect_uri.clone()));
    pairs.push(("grant_type".to_owned(), "authorization_code".to_owned()));
    pairs.push(("code".to_owned(), code.clone()));
    pairs.push(("code_verifier".to_owned(), verifier.clone()));
    match client_secret {
        Some(s) => {
            pairs.push(("client_secret".to_owned(), s.clone()));
        },
        None => {},
    }
    proof {
        assert(pairs.deep_view() =~= token_request_pairs(
            client_id@,
            redirect_uri@,
            code@,
            verifier@,
            match client_secret {
                Some(s) => Some(s@),
                None => None,
            },
        ));
    }
    form_encode_pairs(&pairs)
}

/// What the HTTP exchange handed back: either nothing at all, or a
/// response with its success flag and body.
pub enum ExchangeResponse {
    /// The request never completed.
    TransportFailed,
    /// The provider answered; `success` is whether the transport reported
    /// a successful status.
    Response { success: bool, body: String },
}

/// Decides the outcome of the token exchange from the transport's answer:
/// a transport failure and a non-success response each carry their own
/// error, and a successful response yields the `access_token` string field
/// of its body — its absence is a failure even though the transport
/// succeeded.
pub fn evaluate_exchange_response(resp: ExchangeResponse) -> (r: Result<String, AuthError>)
    ensures
        resp is TransportFailed ==> r matches Err(AuthError::ExchangeTransportFailed),
        resp matches ExchangeResponse::Response { success: false, body } ==> r matches Err(
            AuthError::ExchangeRejected(b),
        ) && b@ == body@,
        resp matches ExchangeResponse::Response { success: true, body } ==> match json_str_field(
            body@,
            "access_token"@,
        ) {
            Some(t) => r matches Ok(tok) && tok@ == t,
            None => r matches Err(AuthError::NoAccessToken),
        },
{
    match resp {
        ExchangeResponse::TransportFailed => Err(AuthError::ExchangeTransportFailed),
        ExchangeResponse::Response { success, body } => {
            if !success {
                Err(AuthError::ExchangeRejected(body))
            } else {
                match json_string_field(body.as_str(), "access_token") {
                    Some(tok) => Ok(tok),
                    None => Err(AuthError::NoAccessToken),
                }
            }
        },
    }
}

} // verus!
