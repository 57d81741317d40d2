//! GitHub token checks.

use vstd::prelude::*;
use crate::error::FastMCPError;
use crate::mcp::types::JsonRpcRequest;
use crate::server::auth::{request_token, token_of, AuthContext, AuthView};
use crate::util::text::{decimal, owned, u64_to_decimal};

verus! {

/// GitHub authentication: a token is valid when the GitHub user API accepts it.
pub struct GitHubProvider {
    user_agent: String,
}

/// The user profile GitHub returns.
pub struct GitHubUser {
    pub id: u64,
    pub login: String,
    pub email: Option<String>,
}

impl GitHubProvider {
    /// The user agent sent to the GitHub API.
    pub closed spec fn agent(self) -> Seq<char> {
        self.user_agent@
    }

    /// A provider identifying itself as `rs-fast-mcp-server`.
    pub fn new() -> (r: GitHubProvider)
        ensures
            r.agent() == "rs-fast-mcp-server"@,
    {
        GitHubProvider { user_agent: owned("rs-fast-mcp-server") }
    }

    /// A provider identifying itself with `agent`.
    pub fn with_user_agent(agent: &str) -> (r: GitHubProvider)
        ensures
            r.agent() == agent@,
    {
        GitHubProvider { user_agent: owned(agent) }
    }

    /// The user agent sent to the GitHub API.
    pub fn user_agent(&self) -> (r: &String)
        ensures
            r@ == self.agent(),
    {
        &self.user_agent
    }

    /// The token of a request: bearer header (`authorization`, else
    /// `Authorization`), else the `token` parameter.
    pub fn token(request: &JsonRpcRequest) -> (r: Result<String, FastMCPError>)
        ensures
            match request_token(*request, "authorization"@, "Authorization"@) {
                Some(t) => r matches Ok(s) && s@ == t,
                None => r matches Err(FastMCPError::InvalidRequest(m)) && m@
                    == "Missing token parameter"@,
            },
    {
        match token_of(request, "authorization", "Authorization") {
            Some(t) => Ok(t),
            None => Err(FastMCPError::InvalidRequest(owned("Missing token parameter"))),
        }
    }

    /// The outcome of the user API reply: a failed status rejects the token; a
    /// profile that could not be read is an error; otherwise the login is the
    /// client and the numeric id the user.
    pub fn context_from_reply(success: bool, user: Result<GitHubUser, String>) -> (r: Result<
        AuthContext,
        FastMCPError,
    >)
        ensures
            !success ==> (r matches Err(FastMCPError::InvalidRequest(m)) && m@
                == "Invalid GitHub Token"@),
            success ==> match user {
                Ok(u) => r matches Ok(c) && c@ == (AuthView {
                    client_id: Some(u.login@),
                    user_id: Some(decimal(u.id as nat)),
                    scopes: Seq::empty(),
                }),
                Err(e) => r matches Err(FastMCPError::Message(m)) && m@
                    == "Failed to parse GitHub user info: "@ + e@,
            },
    {
        if !success {
            return Err(FastMCPError::InvalidRequest(owned("Invalid GitHub Token")));
        }
        match user {
            Ok(u) => {
                let r = AuthContext {
                    client_id: Some(u.login),
                    user_id: Some(u64_to_decimal(u.id)),
                    scopes: Vec::new(),
                };
                assert(r@.scopes =~= Seq::<Seq<char>>::empty());
                Ok(r)
            },
            Err(e) => {
                let mut m = owned("Failed to parse GitHub user info: ");
                m.append(e.as_str());
                Err(FastMCPError::Message(m))
            },
        }
    }
}

impl Default for GitHubProvider {
    fn default() -> (r: GitHubProvider)
        ensures
            r.agent() == "rs-fast-mcp-server"@,
    {
        GitHubProvider::new()
    }
}

} // verus!
