//! Google access-token checks (token introspection through `tokeninfo`).

use vstd::prelude::*;
use crate::error::FastMCPError;
use crate::mcp::types::JsonRpcRequest;
use crate::server::auth::{request_token, token_of, AuthContext, AuthView};
use crate::util::text::{owned, split_whitespace, str_eq, whitespace_words};
use crate::util::web::{url_with_param, url_with_query};

verus! {

/// Google authentication: the `tokeninfo` endpoint must accept the token and
/// name this client as its audience.
pub struct GoogleProvider {
    pub client_id: String,
    pub validation_url: String,
}

/// The fields of a Google `tokeninfo` reply.
pub struct GoogleTokenInfo {
    pub sub: String,
    pub aud: String,
    pub scope: Option<String>,
    pub email: Option<String>,
    pub email_verified: Option<String>,
}

impl GoogleProvider {
    /// A provider for `client_id`, validating at Google's `tokeninfo` endpoint.
    pub fn new(client_id: &str) -> (r: GoogleProvider)
        ensures
            r.client_id@ == client_id@,
            r.validation_url@ == "https://oauth2.googleapis.com/tokeninfo"@,
    {
        GoogleProvider {
            client_id: owned(client_id),
            validation_url: owned("https://oauth2.googleapis.com/tokeninfo"),
        }
    }

    /// The same provider, validating at `url`.
    pub fn with_validation_url(self, url: &str) -> (r: GoogleProvider)
        ensures
            r.client_id == self.client_id,
            r.validation_url@ == url@,
    {
        GoogleProvider { validation_url: owned(url), ..self }
    }

    /// The token of a request: bearer header (`authorization`, else
    /// `Authorization`), else the `token` parameter.
    pub fn token(request: &JsonRpcRequest) -> (r: Result<String, FastMCPError>)
        ensures
            match request_token(*request, "authorization"@, "Authorization"@) {
                Some(t) => r matches Ok(s) && s@ == t,
                None => r matches Err(FastMCPError::InvalidRequest(m)) && m@
                    == "Missing token parameter"@,
            },
    {
        match token_of(request, "authorization", "Authorization") {
            Some(t) => Ok(t),
            None => Err(FastMCPError::InvalidRequest(owned("Missing token parameter"))),
        }
    }

    /// The URL that validates `token`: the validation URL with an
    /// `access_token` query parameter.
    pub fn validation_request_url(&self, token: &str) -> (r: Result<String, FastMCPError>)
        ensures
            match url_with_param(self.validation_url@, "access_token"@, token@) {
                Ok(u) => r matches Ok(s) && s@ == u,
                Err(e) => r matches Err(FastMCPError::Message(m)) && m@ == "Failed to build URL: "@
                    + e,
            },
    {
        match url_with_query(self.validation_url.as_str(), "access_token", token) {
            Ok(u) => Ok(u),
            Err(e) => {
                let mut m = owned("Failed to build URL: ");
                m.append(e.as_str());
                Err(FastMCPError::Message(m))
            },
        }
    }

    /// The outcome of a `tokeninfo` reply: a failed status rejects the token; a
    /// reply that could not be read is an error; a token for another audience
    /// is rejected; otherwise the subject is the user and the scopes are the
    /// words of `scope`.
    pub fn context_from_reply(&self, success: bool, info: Result<GoogleTokenInfo, String>) -> (r:
        Result<AuthContext, FastMCPError>)
        ensures
            !success ==> (r matches Err(FastMCPError::InvalidRequest(m)) && m@
                == "Invalid Google Access Token"@),
            success ==> match info {
                Err(e) => r matches Err(FastMCPError::Message(m)) && m@
                    == "Failed to parse Google token info: "@ + e@,
                Ok(i) => if i.aud@ != self.client_id@ {
                    r matches Err(FastMCPError::InvalidRequest(m)) && m@
                        == "Token audience mismatch. Expected "@ + self.client_id@ + ", got "@
                        + i.aud@
                } else {
                    r matches Ok(c) && c@ == (AuthView {
                        client_id: Some(self.client_id@),
                        user_id: Some(i.sub@),
                        scopes: match i.scope {
                            Some(s) => whitespace_words(s@),
                            None => Seq::empty(),
                        },
                    })
                },
            },
    {
        if !success {
            return Err(FastMCPError::InvalidRequest(owned("Invalid Google Access Token")));
        }
        match info {
            Err(e) => {
                let mut m = owned("Failed to parse Google token info: ");
                m.append(e.as_str());
                Err(FastMCPError::Message(m))
            },
            Ok(i) => {
                if !str_eq(i.aud.as_str(), self.client_id.as_str()) {
                    let mut m = owned("Token audience mismatch. Expected ");
                    m.append(self.client_id.as_str());
                    m.append(", got ");
                    m.append(i.aud.as_str());
                    return Err(FastMCPError::InvalidRequest(m));
                }
                let scopes = match &i.scope {
                    Some(s) => split_whitespace(s.as_str()),
                    None => Vec::new(),
                };
                let r = AuthContext {
                    client_id: Some(self.client_id.clone()),
                    user_id: Some(i.sub),
                    scopes,
                };
                assert(r@.scopes =~= (match i.scope {
                    Some(s) => whitespace_words(s@),
                    None => Seq::<Seq<char>>::empty(),
                }));
                Ok(r)
            },
        }
    }
}

} // verus!
