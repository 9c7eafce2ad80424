use vstd::prelude::*;

use crate::encoding::{form_encode_pairs, form_encoded_pairs, push_char};
use crate::pkce::PkceMaterial;

verus! {

/// Everything the provider's authorization endpoint is asked for.
/// Immutable once built.
pub struct AuthorizationRequest {
    pub client_id: String,
    pub redirect_uri: String,
    /// Scope strings already joined by spaces.
    pub scopes: String,
    pub state: String,
    pub challenge: String,
}

/// The query parameters of the authorization request, in the order they
/// are sent: `response_type=code`, the client id, the redirect URI, the
/// scopes, the state token, the challenge, and `code_challenge_method=S256`.
pub open spec fn auth_query_pairs(req: AuthorizationRequest) -> Seq<(Seq<char>, Seq<char>)> {
    seq![
        ("response_type"@, "code"@),
        ("client_id"@, req.client_id@),
        ("redirect_uri"@, req.redirect_uri@),
        ("scope"@, req.scopes@),
        ("state"@, req.state@),
        ("code_challenge"@, req.challenge@),
        ("code_challenge_method"@, "S256"@),
    ]
}

/// The full authorization URL: the endpoint, `?`, and the form-encoded
/// query parameters.
pub open spec fn authorize_url(endpoint: Seq<char>, req: AuthorizationRequest) -> Seq<char> {
    endpoint + seq!['?'] + form_encoded_pairs(auth_query_pairs(req))
}

impl AuthorizationRequest {
    /// Assembles the request for one attempt from its configuration and
    /// the attempt's PKCE material.
    pub fn new(client_id: String, redirect_uri: String, scopes: String, pkce: &PkceMaterial) -> (r:
        AuthorizationRequest)
        ensures
            r.client_id@ == client_id@,
            r.redirect_uri@ == redirect_uri@,
            r.scopes@ == scopes@,
            r.state@ == pkce.state@,
            r.challenge@ == pkce.challenge@,
    {
        AuthorizationRequest {
            client_id,
            redirect_uri,
            scopes,
            state: pkce.state.clone(),
            challenge: pkce.challenge.clone(),
        }
    }
}

/// Builds the authorization URL for `req` on the given endpoint: a pure
/// string assembly, every parameter value percent-encoded.
pub fn build_authorize_url(endpoint: &str, req: &AuthorizationRequest) -> (r: String)
    ensures
        r@ == authorize_url(endpoint@, *req),
{
    let mut pairs: Vec<(String, String)> = Vec::new();
    pairs.push(("response_type".to_owned(), "code".to_owned()));
    pairs.push(("client_id".to_owned(), req.client_id.clone()));
    pairs.push(("redirect_uri".to_owned(), req.redirect_uri.clone()));
    pairs.push(("scope".to_owned(), req.scopes.clone()));
    pairs.push(("state".to_owned(), req.state.clone()));
    pairs.push(("code_challenge".to_owned(), req.challenge.clone()));
    pairs.push(("code_challenge_method".to_owned(), "S256".to_owned()));
    proof {
        assert(pairs.deep_view() =~= auth_query_pairs(*req));
    }
    let q = form_encode_pairs(&pairs);
    let mut out = endpoint.to_owned();
    push_char(&mut out, '?');
    out.append(q.as_str());
    proof {
        assert(out@ =~= authorize_url(endpoint@, *req));
    }
    out
}

} // verus!
