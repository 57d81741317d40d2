//! Server-side authentication.
//!
//! This module holds the verified checks that authentication providers
//! perform on a request: where a token is taken from, when a static bearer
//! token is accepted, and what identity a successful check yields.

use vstd::prelude::*;
use crate::error::FastMCPError;
use crate::mcp::types::JsonRpcRequest;
use crate::util::string_map::StringMap;
use crate::util::text::{after_prefix, chars_of, has_prefix, opt_chars, owned, str_eq, strip_prefix};

pub mod oauth;
pub mod oidc;
pub mod providers;
pub mod proxy;

verus! {

/// Context information derived from authentication.
pub struct AuthContext {
    pub client_id: Option<String>,
    pub user_id: Option<String>,
    pub scopes: Vec<String>,
}

/// Model of an [`AuthContext`].
pub ghost struct AuthView {
    pub client_id: Option<Seq<char>>,
    pub user_id: Option<Seq<char>>,
    pub scopes: Seq<Seq<char>>,
}

impl View for AuthContext {
    type V = AuthView;

    open spec fn view(&self) -> AuthView {
        AuthView {
            client_id: opt_chars(self.client_id),
            user_id: opt_chars(self.user_id),
            scopes: chars_of(self.scopes@),
        }
    }
}

impl Default for AuthContext {
    fn default() -> (r: AuthContext)
        ensures
            r@ == (AuthView { client_id: None, user_id: None, scopes: Seq::empty() }),
    {
        let r = AuthContext { client_id: None, user_id: None, scopes: Vec::new() };
        assert(r@.scopes =~= Seq::<Seq<char>>::empty());
        r
    }
}

/// The value of the first header present among `first` and `second`.
pub open spec fn header_value(
    meta: Option<StringMap>,
    first: Seq<char>,
    second: Seq<char>,
) -> Option<Seq<char>> {
    match meta {
        Some(m) => if m@.contains_key(first) {
            Some(m@[first])
        } else if m@.contains_key(second) {
            Some(m@[second])
        } else {
            None
        },
        None => None,
    }
}

/// The token of a `Bearer` header value.
pub open spec fn bearer_of(h: Option<Seq<char>>) -> Option<Seq<char>> {
    match h {
        Some(v) => if has_prefix(v, "Bearer "@) {
            Some(after_prefix(v, "Bearer "@))
        } else {
            None
        },
        None => None,
    }
}

/// The bearer token of a request, looking at header `first`, else `second`.
pub open spec fn bearer_token(req: JsonRpcRequest, first: Seq<char>, second: Seq<char>) -> Option<
    Seq<char>,
> {
    bearer_of(header_value(req.transport_metadata, first, second))
}

/// The string member `token` of the request parameters.
pub open spec fn params_token(req: JsonRpcRequest) -> Option<Seq<char>> {
    match req.params {
        Some(p) => match p.spec_get("token"@) {
            Some(v) => v.spec_str(),
            None => None,
        },
        None => None,
    }
}

/// The token of a request: the bearer token when there is one, else the
/// `token` parameter.
pub open spec fn request_token(req: JsonRpcRequest, first: Seq<char>, second: Seq<char>) -> Option<
    Seq<char>,
> {
    match bearer_token(req, first, second) {
        Some(t) => Some(t),
        None => params_token(req),
    }
}

/// The bearer token from the request headers, reading header `first`, else `second`.
pub fn header_token(request: &JsonRpcRequest, first: &str, second: &str) -> (r: Option<String>)
    ensures
        opt_chars(r) == bearer_token(*request, first@, second@),
{
    let value = match &request.transport_metadata {
        Some(m) => match m.get(first) {
            Some(v) => Some(v),
            None => m.get(second),
        },
        None => None,
    };
    match value {
        Some(v) => strip_prefix(v.as_str(), "Bearer "),
        None => None,
    }
}

/// The `token` parameter of the request.
pub fn param_token(request: &JsonRpcRequest) -> (r: Option<String>)
    ensures
        opt_chars(r) == params_token(*request),
{
    match &request.params {
        Some(p) => p.get_str("token"),
        None => None,
    }
}

/// The token of the request: bearer header first, then the `token` parameter.
pub fn token_of(request: &JsonRpcRequest, first: &str, second: &str) -> (r: Option<String>)
    ensures
        opt_chars(r) == request_token(*request, first@, second@),
{
    match header_token(request, first, second) {
        Some(t) => Some(t),
        None => param_token(request),
    }
}

/// The identity that a successful static-token check grants.
pub open spec fn static_user() -> AuthView {
    AuthView { client_id: Some("user"@), user_id: Some("user"@), scopes: seq!["admin"@] }
}

/// Bearer-token authentication provider.
///
/// Validates requests by checking for a matching token in either:
/// 1. The `Authorization: Bearer <token>` transport metadata header, or
/// 2. A `"token"` field in the JSON-RPC `params` (fallback).
pub struct SimpleAuthProvider {
    expected_token: String,
}

impl SimpleAuthProvider {
    /// A provider that accepts exactly `token`.
    pub fn new(token: &str) -> (r: SimpleAuthProvider)
        ensures
            r.expected()@ == token@,
    {
        SimpleAuthProvider { expected_token: owned(token) }
    }

    /// The token this provider accepts.
    pub closed spec fn expected(self) -> String {
        self.expected_token
    }

    /// Accepts the request when its bearer header (`authorization`, else
    /// `Authorization`) or its `token` parameter equals the expected token.
    pub fn verify(&self, request: &JsonRpcRequest) -> (r: Result<AuthContext, FastMCPError>)
        ensures
            (bearer_token(*request, "authorization"@, "Authorization"@) == Some(self.expected()@)
                || params_token(*request) == Some(self.expected()@)) ==> (r.is_ok() && r->Ok_0@
                == static_user()),
            !(bearer_token(*request, "authorization"@, "Authorization"@) == Some(
                self.expected()@,
            ) || params_token(*request) == Some(self.expected()@)) ==> (r matches Err(
                FastMCPError::InvalidRequest(m),
            ) && m@ == "Unauthorized: Invalid or missing token"@),
    {
        let header = header_token(request, "authorization", "Authorization");
        let header_ok = match &header {
            Some(t) => str_eq(t.as_str(), self.expected_token.as_str()),
            None => false,
        };
        let valid = if header_ok {
            true
        } else {
            match param_token(request) {
                Some(t) => str_eq(t.as_str(), self.expected_token.as_str()),
                None => false,
            }
        };
        if valid {
            Ok(user_context())
        } else {
            Err(FastMCPError::InvalidRequest(owned("Unauthorized: Invalid or missing token")))
        }
    }
}

/// The identity granted by a static-token check.
fn user_context() -> (r: AuthContext)
    ensures
        r@ == static_user(),
{
    let mut scopes = Vec::new();
    scopes.push(owned("admin"));
    let r = AuthContext { client_id: Some(owned("user")), user_id: Some(owned("user")), scopes };
    assert(r@.scopes =~= seq!["admin"@]);
    r
}

/// The error a request refused by an authentication provider is answered
/// with: an invalid request carrying the provider's message.
pub fn rejection(e: FastMCPError) -> (r: FastMCPError)
    ensures
        r matches FastMCPError::InvalidRequest(m) && m@ == e.text(),
{
    match e {
        FastMCPError::InvalidRequest(m) => FastMCPError::InvalidRequest(m),
        other => FastMCPError::InvalidRequest(other.message()),
    }
}

} // verus!
