//! Generic OAuth2 token introspection.

use vstd::prelude::*;
use crate::error::FastMCPError;
use crate::mcp::types::{JsonRpcRequest, JsonValue};
use crate::server::auth::{params_token, param_token, AuthContext, AuthView};
use crate::util::text::{opt_chars, owned, split_whitespace, whitespace_words};
use crate::util::web::{parse_url, url_parse_result};

verus! {

/// The characters of a string member of a JSON object.
pub open spec fn member_str(v: JsonValue, key: Seq<char>) -> Option<Seq<char>> {
    match v.spec_get(key) {
        Some(m) => m.spec_str(),
        None => None,
    }
}

/// The identity an introspection reply grants for an active token.
pub open spec fn introspected(body: JsonValue) -> AuthView {
    AuthView {
        client_id: member_str(body, "client_id"@),
        user_id: member_str(body, "sub"@),
        scopes: match member_str(body, "scope"@) {
            Some(s) => whitespace_words(s),
            None => Seq::empty(),
        },
    }
}

/// Generic OAuth2 provider that validates tokens through an introspection endpoint.
pub struct OAuthProvider {
    pub introspection_url: Option<String>,
}

impl OAuthProvider {
    /// A provider for the given endpoints; the introspection URL, when given,
    /// must parse as a URL.
    pub fn new(
        client_id: &str,
        client_secret: Option<&str>,
        auth_url: &str,
        token_url: &str,
        introspection_url: Option<&str>,
    ) -> (r: Result<OAuthProvider, FastMCPError>)
        ensures
            match introspection_url {
                Some(u) => match url_parse_result(u@) {
                    Ok(_) => r matches Ok(p) && opt_chars(p.introspection_url) == Some(u@),
                    Err(e) => r matches Err(FastMCPError::Message(m)) && m@
                        == "Invalid Introspection URL: "@ + e,
                },
                None => r matches Ok(p) && p.introspection_url.is_none(),
            },
    {
        match introspection_url {
            Some(u) => match parse_url(u) {
                Ok(_) => Ok(OAuthProvider { introspection_url: Some(owned(u)) }),
                Err(e) => {
                    let mut m = owned("Invalid Introspection URL: ");
                    m.append(e.as_str());
                    Err(FastMCPError::Message(m))
                },
            },
            None => Ok(OAuthProvider { introspection_url: None }),
        }
    }

    /// The token of a request (its `token` parameter).
    pub fn token(request: &JsonRpcRequest) -> (r: Result<String, FastMCPError>)
        ensures
            match params_token(*request) {
                Some(t) => r matches Ok(s) && s@ == t,
                None => r matches Err(FastMCPError::InvalidRequest(m)) && m@ == "Missing token"@,
            },
    {
        match param_token(request) {
            Some(t) => Ok(t),
            None => Err(FastMCPError::InvalidRequest(owned("Missing token"))),
        }
    }

    /// The endpoint to introspect tokens with, or the error when none is configured.
    pub fn endpoint(&self) -> (r: Result<String, FastMCPError>)
        ensures
            match self.introspection_url {
                Some(u) => r matches Ok(s) && s@ == u@,
                None => r matches Err(FastMCPError::Message(m)) && m@
                    == "No introspection URL configured"@,
            },
    {
        match &self.introspection_url {
            Some(u) => Ok(u.clone()),
            None => Err(FastMCPError::new(owned("No introspection URL configured"))),
        }
    }

    /// The outcome of an introspection reply: a failed HTTP status rejects the
    /// token; otherwise the token is accepted exactly when `active` is `true`.
    pub fn context_from_reply(success: bool, body: &JsonValue) -> (r: Result<
        AuthContext,
        FastMCPError,
    >)
        ensures
            !success ==> (r matches Err(FastMCPError::InvalidRequest(m)) && m@
                == "Token introspection failed"@),
            success && body.spec_get("active"@) == Some(JsonValue::Bool(true)) ==> (r matches Ok(c)
                && c@ == introspected(*body)),
            success && body.spec_get("active"@) != Some(JsonValue::Bool(true)) ==> (r matches Err(
                FastMCPError::InvalidRequest(m),
            ) && m@ == "Token inactive"@),
    {
        if !success {
            return Err(FastMCPError::InvalidRequest(owned("Token introspection failed")));
        }
        let active = match body.get("active") {
            Some(JsonValue::Bool(b)) => *b,
            _ => false,
        };
        if active {
            let scopes = match body.get_str("scope") {
                Some(s) => split_whitespace(s.as_str()),
                None => Vec::new(),
            };
            let r = AuthContext {
                client_id: body.get_str("client_id"),
                user_id: body.get_str("sub"),
                scopes,
            };
            assert(r@.scopes =~= introspected(*body).scopes);
            Ok(r)
        } else {
            Err(FastMCPError::InvalidRequest(owned("Token inactive")))
        }
    }
}

} // verus!
