//! Discord token checks.

use vstd::prelude::*;
use crate::error::FastMCPError;
use crate::mcp::types::JsonRpcRequest;
use crate::server::auth::{bearer_token, header_token, AuthContext, AuthView};
use crate::util::text::{chars_of, owned, opt_chars, str_eq};

verus! {

/// Discord OAuth2 authentication: the token must be accepted by the Discord
/// user API. It is read from the `Authorization: Bearer <token>` header only.
pub struct DiscordProvider {
    /// Required guild ID — if set, the authenticated user must be a member.
    pub required_guild_id: Option<String>,
}

/// The user profile Discord returns.
pub struct DiscordUser {
    pub id: String,
    pub username: String,
    pub discriminator: Option<String>,
    pub email: Option<String>,
}

/// The identity of a Discord user.
pub open spec fn discord_identity(u: DiscordUser) -> AuthView {
    AuthView {
        client_id: Some("discord"@),
        user_id: Some("discord:"@ + u.id@),
        scopes: if u.email.is_some() {
            seq!["identify"@, "email"@]
        } else {
            seq!["identify"@]
        },
    }
}

impl DiscordProvider {
    /// A provider without guild restriction.
    pub fn new() -> (r: DiscordProvider)
        ensures
            r.required_guild_id.is_none(),
    {
        DiscordProvider { required_guild_id: None }
    }

    /// Restrict access to members of a specific Discord guild.
    pub fn with_guild(self, guild_id: &str) -> (r: DiscordProvider)
        ensures
            opt_chars(r.required_guild_id) == Some(guild_id@),
    {
        DiscordProvider { required_guild_id: Some(owned(guild_id)) }
    }

    /// The bearer token of a request (`authorization`, else `Authorization`).
    pub fn token(request: &JsonRpcRequest) -> (r: Result<String, FastMCPError>)
        ensures
            match bearer_token(*request, "authorization"@, "Authorization"@) {
                Some(t) => r matches Ok(s) && s@ == t,
                None => r matches Err(FastMCPError::InvalidRequest(m)) && m@
                    == "Missing Bearer token"@,
            },
    {
        match header_token(request, "authorization", "Authorization") {
            Some(t) => Ok(t),
            None => Err(FastMCPError::InvalidRequest(owned("Missing Bearer token"))),
        }
    }

    /// The outcome of the user API reply and, where a guild is required, of the
    /// guild list reply (the IDs of the user's guilds; `None` when it was not
    /// asked for). A failed status (given as its text) rejects the token; a
    /// profile or guild list that could not be read is an error; a user outside
    /// the required guild is refused; otherwise the user is identified as
    /// `discord:{id}`.
    pub fn context_from_reply(
        &self,
        success: bool,
        status: &str,
        user: Result<DiscordUser, String>,
        guilds: Option<Result<Vec<String>, String>>,
    ) -> (r: Result<AuthContext, FastMCPError>)
        ensures
            !success ==> (r matches Err(FastMCPError::InvalidRequest(m)) && m@
                == "Discord token verification failed: HTTP "@ + status@),
            success ==> match user {
                Err(e) => r matches Err(FastMCPError::Message(m)) && m@
                    == "Discord response parse error: "@ + e@,
                Ok(u) => match self.required_guild_id {
                    None => r matches Ok(c) && c@ == discord_identity(u),
                    Some(g) => match guilds {
                        None => r matches Err(FastMCPError::Message(m)) && m@
                            == "Discord guild membership was not checked"@,
                        Some(Err(e)) => r matches Err(FastMCPError::Message(m)) && m@
                            == "Discord guild list error: "@ + e@,
                        Some(Ok(ids)) => if chars_of(ids@).contains(g@) {
                            r matches Ok(c) && c@ == discord_identity(u)
                        } else {
                            r matches Err(FastMCPError::InvalidRequest(m)) && m@
                                == "User is not a member of guild "@ + g@
                        },
                    },
                },
            },
    {
        if !success {
            let mut m = owned("Discord token verification failed: HTTP ");
            m.append(status);
            return Err(FastMCPError::InvalidRequest(m));
        }
        let u = match user {
            Ok(u) => u,
            Err(e) => {
                let mut m = owned("Discord response parse error: ");
                m.append(e.as_str());
                return Err(FastMCPError::Message(m));
            },
        };
        match &self.required_guild_id {
            None => {},
            Some(g) => match guilds {
                None => {
                    return Err(FastMCPError::Message(owned("Discord guild membership was not checked")));
                },
                Some(Err(e)) => {
                    let mut m = owned("Discord guild list error: ");
                    m.append(e.as_str());
                    return Err(FastMCPError::Message(m));
                },
                Some(Ok(ids)) => {
                    if !contains_str(&ids, g.as_str()) {
                        let mut m = owned("User is not a member of guild ");
                        m.append(g.as_str());
                        return Err(FastMCPError::InvalidRequest(m));
                    }
                },
            },
        }
        let ghost gu = u;
        let mut scopes = Vec::new();
        scopes.push(owned("identify"));
        if u.email.is_some() {
            scopes.push(owned("email"));
        }
        let mut id = owned("discord:");
        id.append(u.id.as_str());
        let r = AuthContext { client_id: Some(owned("discord")), user_id: Some(id), scopes };
        assert(r@.scopes =~= discord_identity(gu).scopes);
        Ok(r)
    }
}

/// Whether one of `v` is `x`.
fn contains_str(v: &Vec<String>, x: &str) -> (r: bool)
    ensures
        r == chars_of(v@).contains(x@),
{
    let mut i: usize = 0;
    while i < v.len()
        invariant
            i <= v.len(),
            forall|j: int| 0 <= j < i ==> v@[j]@ != x@,
        decreases v.len() - i,
    {
        if str_eq(v[i].as_str(), x) {
            assert(chars_of(v@)[i as int] == x@);
            return true;
        }
        i = i + 1;
    }
    proof {
        if chars_of(v@).contains(x@) {
            let j = choose|j: int| 0 <= j < chars_of(v@).len() && chars_of(v@)[j] == x@;
            assert(v@[j]@ == x@);
        }
    }
    false
}

impl Default for DiscordProvider {
    fn default() -> (r: DiscordProvider)
        ensures
            r.required_guild_id.is_none(),
    {
        DiscordProvider::new()
    }
}

} // verus!
