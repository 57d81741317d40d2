//! Supabase Auth token checks.

use vstd::prelude::*;
use crate::error::FastMCPError;
use crate::mcp::types::JsonRpcRequest;
use crate::mcp::types::JsonValue;
use crate::server::auth::oidc::{
    exp_claim, has_exp_claim, has_optional_str_claim, jwt_check, jwt_claims, jwt_header, jwt_signature_ok,
    oidc_token, optional_str_claim, rsa_key_error, str_claim, token_alg, JwkKey, JwtCheck,
};
use crate::server::auth::{request_token, AuthContext, AuthView};
use crate::util::text::{has_prefix, owned, trim_end_char, trim_end_matches_char};

verus! {

/// Supabase authentication: JWTs issued by the project's Auth service, checked
/// against its published key set.
pub struct SupabaseProvider {
    pub project_url: String,
    pub jwks_url: String,
    pub issuer: String,
}

impl SupabaseProvider {
    /// A provider for a project URL (trailing slashes removed).
    pub fn new(project_url: &str) -> (r: SupabaseProvider)
        ensures
            r.project_url@ == trim_end_char(project_url@, '/'),
            r.jwks_url@ == trim_end_char(project_url@, '/') + "/auth/v1/.well-known/jwks.json"@,
            r.issuer@ == trim_end_char(project_url@, '/') + "/auth/v1"@,
    {
        let base = trim_end_matches_char(project_url, '/');
        let mut jwks = base.clone();
        jwks.append("/auth/v1/.well-known/jwks.json");
        let mut issuer = base.clone();
        issuer.append("/auth/v1");
        SupabaseProvider { project_url: base, jwks_url: jwks, issuer }
    }

    /// The token of a request: bearer header (`Authorization`, else
    /// `authorization`), else the `token` parameter.
    pub fn token(request: &JsonRpcRequest) -> (r: Result<String, FastMCPError>)
        ensures
            match request_token(*request, "Authorization"@, "authorization"@) {
                Some(t) => r matches Ok(s) && s@ == t,
                None => r matches Err(FastMCPError::InvalidRequest(m)) && m@ == "Missing token"@,
            },
    {
        oidc_token(request)
    }

    /// The identity of a verified token: the project is the client, the
    /// subject the user, and the role (if any) the only scope.
    pub fn context_for(&self, sub: String, role: Option<String>) -> (r: AuthContext)
        ensures
            r@ == (AuthView {
                client_id: Some(self.project_url@),
                user_id: Some(sub@),
                scopes: match role {
                    Some(x) => seq![x@],
                    None => Seq::empty(),
                },
            }),
    {
        let ghost grole = role;
        let mut scopes = Vec::new();
        if let Some(x) = role {
            scopes.push(x);
        }
        let r = AuthContext {
            client_id: Some(self.project_url.clone()),
            user_id: Some(sub),
            scopes,
        };
        assert(r@.scopes =~= (match grole {
            Some(x) => seq![x@],
            None => Seq::<Seq<char>>::empty(),
        }));
        r
    }

    /// The outcome of a token check: claims of the shape of a Supabase token
    /// (see [`supabase_claims`]) give the identity `sub` for this
    /// project, the role as only scope; other claims, a key that could not be
    /// read and a refused token are errors.
    pub fn context_from_check(&self, check: JwtCheck) -> (r: Result<AuthContext, FastMCPError>)
        ensures
            match check {
                JwtCheck::Claims(c) => if supabase_claims(c) {
                    r matches Ok(x) && x@ == (AuthView {
                        client_id: Some(self.project_url@),
                        user_id: str_claim(c, "sub"@),
                        scopes: match str_claim(c, "role"@) {
                            Some(role) => seq![role],
                            None => Seq::empty(),
                        },
                    })
                } else {
                    r matches Err(FastMCPError::InvalidRequest(m)) && m@
                        == "Supabase Token Verification Failed: invalid claims"@
                },
                JwtCheck::BadKey(m) => r matches Err(FastMCPError::Message(x)) && x@
                    == "Invalid key components: "@ + m@,
                JwtCheck::Rejected(m) => r matches Err(FastMCPError::InvalidRequest(x)) && x@
                    == "Supabase Token Verification Failed: "@ + m@,
            },
    {
        match check {
            JwtCheck::Claims(c) => {
                let ok = c.get_str("iss").is_some() && has_exp_claim(&c) && has_optional_str_claim(&c, "aud")
                    && has_optional_str_claim(&c, "email") && has_optional_str_claim(&c, "role");
                match c.get_str("sub") {
                    Some(sub) => if ok {
                        return Ok(self.context_for(sub, c.get_str("role")));
                    },
                    None => {},
                }
                Err(FastMCPError::InvalidRequest(owned("Supabase Token Verification Failed: invalid claims")))
            },
            JwtCheck::BadKey(m) => {
                let mut x = owned("Invalid key components: ");
                x.append(m.as_str());
                Err(FastMCPError::Message(x))
            },
            JwtCheck::Rejected(m) => {
                let mut x = owned("Supabase Token Verification Failed: ");
                x.append(m.as_str());
                Err(FastMCPError::InvalidRequest(x))
            },
        }
    }

    /// Verifies a token with the key its header names: the algorithm its
    /// header names, this project's issuer, no audience check. Whether a token
    /// passes rests on the clock (expiry), so success is not promised. What is
    /// stated: a header that does not decode is reported as such, and only
    /// then; for a header that decodes, a key whose components do not build an
    /// RSA key is reported, and only such a key; a success comes from a token
    /// whose signature verifies under this key with the algorithm its header
    /// names, and whose payload's claims are those of a Supabase token issued
    /// by this project's issuer; it identifies the token's subject for this
    /// project, the role as only scope. Every other failure is one of the
    /// errors of [`SupabaseProvider::context_from_check`].
    pub fn verify_with_key(&self, token: &str, key: &JwkKey) -> (r: Result<AuthContext, FastMCPError>)
        ensures
            r matches Ok(x) ==> (jwt_header(token@) matches Ok((_, a)) && jwt_signature_ok(
                token@,
                key.n@,
                key.e@,
                a,
            )),
            r matches Ok(x) ==> exists|c: JsonValue|
                #![trigger supabase_claims(c)]
                supabase_claims(c) && c@ == jwt_claims(token@) && str_claim(c, "iss"@) == Some(
                    self.issuer@,
                ) && x@ == (AuthView {
                    client_id: Some(self.project_url@),
                    user_id: str_claim(c, "sub"@),
                    scopes: match str_claim(c, "role"@) {
                        Some(role) => seq![role],
                        None => Seq::empty(),
                    },
                }),
            jwt_header(token@) matches Err(e) ==> (r matches Err(FastMCPError::InvalidRequest(m))
                && m@ == "Invalid Token Header: "@ + e),
            jwt_header(token@) is Ok ==> !(r matches Err(FastMCPError::InvalidRequest(m)) && has_prefix(
                m@,
                "Invalid Token Header: "@,
            )),
            jwt_header(token@) is Ok ==> (rsa_key_error(key.n@, key.e@) matches Some(m) ==> (r matches Err(
                FastMCPError::Message(x),
            ) && x@ == "Invalid key components: "@ + m)),
            rsa_key_error(key.n@, key.e@) is None ==> !(r matches Err(FastMCPError::Message(_))),
            r matches Err(e) ==> (e matches FastMCPError::Message(m) && has_prefix(
                m@,
                "Invalid key components: "@,
            )) || (e matches FastMCPError::InvalidRequest(m) && (has_prefix(
                m@,
                "Supabase Token Verification Failed: "@,
            ) || has_prefix(m@, "Invalid Token Header: "@))),
    {
        let alg = match token_alg(token) {
            Ok(a) => a,
            Err(e) => {
                proof {
                    reveal_strlit("Invalid Token Header: ");
                    let p = "Invalid Token Header: "@;
                    assert(e->InvalidRequest_0@.subrange(0, p.len() as int) =~= p);
                }
                return Err(e);
            },
        };
        let check = jwt_check(
            token,
            key.n.as_str(),
            key.e.as_str(),
            alg.as_str(),
            None,
            self.issuer.as_str(),
        );
        let ghost gcheck = check;
        let r = self.context_from_check(check);
        proof {
            reveal_strlit("Invalid key components: ");
            reveal_strlit("Supabase Token Verification Failed: ");
            reveal_strlit("Supabase Token Verification Failed: invalid claims");
            reveal_strlit("Invalid Token Header: ");
            if r is Ok {
                let c = gcheck->Claims_0;
                assert(supabase_claims(c));
            }
            if let Err(FastMCPError::InvalidRequest(m)) = &r {
                let p = "Invalid Token Header: "@;
                assert(m@[0] == 'S');
                if has_prefix(m@, p) {
                    assert(m@.subrange(0, p.len() as int)[0] == p[0]);
                }
            }
        }
        match &r {
            Err(FastMCPError::Message(m)) => {
                assert(has_prefix(m@, "Invalid key components: "@)) by {
                    let p = "Invalid key components: "@;
                    assert(m@.subrange(0, p.len() as int) =~= p);
                }
            },
            Err(FastMCPError::InvalidRequest(m)) => {
                assert(has_prefix(m@, "Supabase Token Verification Failed: "@)) by {
                    let p = "Supabase Token Verification Failed: "@;
                    assert(m@.subrange(0, p.len() as int) =~= p);
                }
            },
            _ => {},
        }
        r
    }
}

/// The claims a Supabase token must carry: string `sub` and `iss`, an
/// unsigned `exp`, and `aud`, `email` and `role` that are strings where
/// present.
pub open spec fn supabase_claims(c: JsonValue) -> bool {
    &&& str_claim(c, "sub"@) is Some
    &&& str_claim(c, "iss"@) is Some
    &&& exp_claim(c)
    &&& optional_str_claim(c, "aud"@)
    &&& optional_str_claim(c, "email"@)
    &&& optional_str_claim(c, "role"@)
}

} // verus!
