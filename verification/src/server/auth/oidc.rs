//! OpenID Connect token checks.

use vstd::prelude::*;
use crate::error::FastMCPError;
use crate::mcp::types::{JsonRpcRequest, JsonValue, JsonView};
use crate::util::json_text::json_from_serde;
use crate::server::auth::{request_token, token_of, AuthContext, AuthView};
use crate::util::text::{has_prefix, opt_chars, owned, parse_unsigned, str_eq, trim_end_char, trim_end_matches_char, unsigned_value};

verus! {

/// A JSON Web Key with RSA components.
pub struct JwkKey {
    pub kid: String,
    pub kty: String,
    pub n: String,
    pub e: String,
}

/// Position of the first key with identifier `kid`, or the error to report
/// (`"Key ID {kid} not found in {place}"`).
pub fn find_key(keys: &Vec<JwkKey>, kid: &str, place: &str) -> (r: Result<usize, FastMCPError>)
    ensures
        match r {
            Ok(i) => i < keys@.len() && keys@[i as int].kid@ == kid@ && forall|j: int|
                0 <= j < i ==> keys@[j].kid@ != kid@,
            Err(e) => (forall|j: int| 0 <= j < keys@.len() ==> keys@[j].kid@ != kid@) && e
                == FastMCPError::Message(e->Message_0) && e.text() == "Key ID "@ + kid@
                + " not found in "@ + place@,
        },
{
    let mut i: usize = 0;
    while i < keys.len()
        invariant
            i <= keys@.len(),
            forall|j: int| 0 <= j < i ==> keys@[j].kid@ != kid@,
        decreases keys@.len() - i,
    {
        if str_eq(keys[i].kid.as_str(), kid) {
            return Ok(i);
        }
        i = i + 1;
    }
    let mut msg = owned("Key ID ");
    msg.append(kid);
    msg.append(" not found in ");
    msg.append(place);
    Err(FastMCPError::Message(msg))
}

/// The token of a request for OIDC-style providers: bearer header
/// (`Authorization`, else `authorization`), else the `token` parameter.
pub fn oidc_token(request: &JsonRpcRequest) -> (r: Result<String, FastMCPError>)
    ensures
        match request_token(*request, "Authorization"@, "authorization"@) {
            Some(t) => r matches Ok(s) && s@ == t,
            None => r matches Err(FastMCPError::InvalidRequest(m)) && m@ == "Missing token"@,
        },
{
    match token_of(request, "Authorization", "authorization") {
        Some(t) => Ok(t),
        None => Err(FastMCPError::InvalidRequest(owned("Missing token"))),
    }
}

/// What `jsonwebtoken::decode_header` gives for a token: the key id of the
/// header (if it names one) and the name of its algorithm, or the error's
/// message.
pub uninterp spec fn jwt_header(token: Seq<char>) -> Result<(Option<Seq<char>>, Seq<char>), Seq<char>>;

/// Wraps `jsonwebtoken::decode_header`, keeping the header's key id and the
/// name of its algorithm (as `jsonwebtoken::Algorithm` prints it, `RS256` for
/// instance).
#[verifier::external_body]
fn decode_header_parts(token: &str) -> (r: Result<(Option<String>, String), String>)
    ensures
        match r {
            Ok((k, a)) => jwt_header(token@) == Ok::<_, Seq<char>>((opt_chars(k), a@)),
            Err(e) => jwt_header(token@) matches Err(m) && m == e@,
        },
{
    match jsonwebtoken::decode_header(token) {
        Ok(header) => Ok((header.kid, format!("{:?}", header.alg))),
        Err(e) => Err(e.to_string()),
    }
}

/// The key id named in a token's header, or the error to report.
pub fn token_kid(token: &str) -> (r: Result<String, FastMCPError>)
    ensures
        match jwt_header(token@) {
            Ok((Some(k), _)) => r matches Ok(s) && s@ == k,
            Ok((None, _)) => r matches Err(FastMCPError::InvalidRequest(m)) && m@
                == "Missing kid in token header"@,
            Err(e) => r matches Err(FastMCPError::InvalidRequest(m)) && m@
                == "Invalid Token Header: "@ + e,
        },
{
    match decode_header_parts(token) {
        Ok((Some(k), _)) => Ok(k),
        Ok((None, _)) => Err(FastMCPError::InvalidRequest(owned("Missing kid in token header"))),
        Err(e) => {
            let mut m = owned("Invalid Token Header: ");
            m.append(e.as_str());
            Err(FastMCPError::InvalidRequest(m))
        },
    }
}

/// The name of the algorithm of a token's header, or the error to report.
pub fn token_alg(token: &str) -> (r: Result<String, FastMCPError>)
    ensures
        match jwt_header(token@) {
            Ok((_, a)) => r matches Ok(s) && s@ == a,
            Err(e) => r matches Err(FastMCPError::InvalidRequest(m)) && m@
                == "Invalid Token Header: "@ + e,
        },
{
    match decode_header_parts(token) {
        Ok((_, a)) => Ok(a),
        Err(e) => {
            let mut m = owned("Invalid Token Header: ");
            m.append(e.as_str());
            Err(FastMCPError::InvalidRequest(m))
        },
    }
}

/// The outcome of checking a JWT's signature and claims against a key.
pub enum JwtCheck {
    /// The token is valid; these are its claims.
    Claims(JsonValue),
    /// The key's RSA components could not be read; the error's message.
    BadKey(String),
    /// The token was refused (format, signature, algorithm, expiry, audience
    /// or issuer); the error's message.
    Rejected(String),
}

/// What `jsonwebtoken::DecodingKey::from_rsa_components` gives for the RSA
/// components `n` and `e` (base64url text): `None` when it builds a key, else
/// the message of its error.
pub uninterp spec fn rsa_key_error(n: Seq<char>, e: Seq<char>) -> Option<Seq<char>>;

/// Whether the signature of `token` verifies over its header and payload
/// with `jsonwebtoken`'s verifier for the algorithm named `alg`, under the RSA
/// key with components `n` and `e` (the signature check of
/// `jsonwebtoken::decode`, which involves no clock).
pub uninterp spec fn jwt_signature_ok(token: Seq<char>, n: Seq<char>, e: Seq<char>, alg: Seq<char>) -> bool;

/// The claims of a token as `jsonwebtoken::decode` reads them (its payload,
/// base64url-decoded and read as a `serde_json::Value`), converted one for one.
pub uninterp spec fn jwt_claims(token: Seq<char>) -> JsonView;

/// Checks a JWT with `jsonwebtoken`: the key is built from the RSA components
/// `n` and `e` (`DecodingKey::from_rsa_components`), the token must use the
/// algorithm named `alg`, come from `issuer` and, where `audience` is given,
/// be meant for it (else the audience is not checked); `jsonwebtoken::decode`
/// then checks the signature and the expiry against the clock. Because of the
/// expiry, the outcome is not a function of the arguments and has no name.
/// What is stated: the key error comes back exactly when the components do not
/// build a key; and every token whose claims come back has a header that
/// decodes and names the algorithm `alg` (`decode` refuses any other), a
/// signature that verifies under this key with that algorithm, the claims of
/// its payload, an `iss` claim that is `issuer` where it is a string, and,
/// where an audience is given, an `aud` claim that is that audience where it
/// is a string (the claim checks of `jsonwebtoken::validation::validate`).
#[verifier::external_body]
pub(crate) fn jwt_check(token: &str, n: &str, e: &str, alg: &str, audience: Option<&str>, issuer: &str) -> (r: JwtCheck)
    ensures
        r matches JwtCheck::BadKey(m) ==> rsa_key_error(n@, e@) == Some(m@),
        rsa_key_error(n@, e@) is Some ==> r is BadKey,
        r matches JwtCheck::Claims(c) ==> jwt_signature_ok(token@, n@, e@, alg@) && c@ == jwt_claims(token@),
        r matches JwtCheck::Claims(c) ==> (jwt_header(token@) matches Ok((_, a)) && a == alg@),
        r matches JwtCheck::Claims(c) ==> (str_claim(c, "iss"@) matches Some(i) ==> i == issuer@),
        r matches JwtCheck::Claims(c) ==> (audience matches Some(aud) ==> (str_claim(c, "aud"@) matches Some(
            x,
        ) ==> x == aud@)),
{
    let key = match jsonwebtoken::DecodingKey::from_rsa_components(n, e) {
        Ok(k) => k,
        Err(err) => return JwtCheck::BadKey(err.to_string()),
    };
    let mut validation = match alg.parse::<jsonwebtoken::Algorithm>() {
        Ok(a) => jsonwebtoken::Validation::new(a),
        Err(err) => return JwtCheck::Rejected(err.to_string()),
    };
    match audience { Some(a) => validation.set_audience(&[a]), None => validation.validate_aud = false }
    validation.set_issuer(&[issuer]);
    match jsonwebtoken::decode::<serde_json::Value>(token, &key, &validation) {
        Ok(data) => JwtCheck::Claims(json_from_serde(&data.claims)),
        Err(err) => JwtCheck::Rejected(err.to_string()),
    }
}

/// The string claim `key`, where the claims hold one.
pub open spec fn str_claim(c: JsonValue, key: Seq<char>) -> Option<Seq<char>> {
    match c.spec_get(key) {
        Some(v) => v.spec_str(),
        None => None,
    }
}

/// The claim `key` is absent, `null` or a string.
pub open spec fn optional_str_claim(c: JsonValue, key: Seq<char>) -> bool {
    match c.spec_get(key) {
        Some(JsonValue::Str(_)) | Some(JsonValue::Null) | None => true,
        _ => false,
    }
}

/// The claim `exp` is an unsigned integer that fits in `usize`.
pub open spec fn exp_claim(c: JsonValue) -> bool {
    match c.spec_get("exp"@) {
        Some(JsonValue::Number(t)) => match unsigned_value(t@) {
            Some(v) => v <= usize::MAX,
            None => false,
        },
        _ => false,
    }
}

/// The claims an OIDC token must carry: string `sub`, `iss` and `aud`, an
/// unsigned `exp`, and `name` and `email` that are strings where present.
pub open spec fn oidc_claims(c: JsonValue) -> bool {
    &&& str_claim(c, "sub"@) is Some
    &&& str_claim(c, "iss"@) is Some
    &&& str_claim(c, "aud"@) is Some
    &&& exp_claim(c)
    &&& optional_str_claim(c, "name"@)
    &&& optional_str_claim(c, "email"@)
}

/// Whether the claim `key` is absent, `null` or a string.
pub(crate) fn has_optional_str_claim(c: &JsonValue, key: &str) -> (r: bool)
    ensures
        r == optional_str_claim(*c, key@),
{
    match c.get(key) {
        Some(JsonValue::Str(_)) | Some(JsonValue::Null) | None => true,
        _ => false,
    }
}

/// Whether the claim `exp` is an unsigned integer that fits in `usize`.
pub(crate) fn has_exp_claim(c: &JsonValue) -> (r: bool)
    ensures
        r == exp_claim(*c),
{
    match c.get("exp") {
        Some(JsonValue::Number(t)) => parse_unsigned(t.as_str(), usize::MAX as u64).is_some(),
        _ => false,
    }
}

/// The discovery document URL of an issuer.
pub open spec fn discovery_url_of(issuer: Seq<char>) -> Seq<char> {
    trim_end_char(issuer, '/') + "/.well-known/openid-configuration"@
}

/// An OIDC provider: tokens are RS256 JWTs issued by `issuer` for `client_id`,
/// signed by a key published at `jwks_url`.
pub struct OIDCProvider {
    pub issuer: String,
    pub client_id: String,
    pub jwks_url: String,
}

impl OIDCProvider {
    /// The discovery document URL for an issuer URL.
    pub fn discovery_url(issuer_url: &str) -> (r: String)
        ensures
            r@ == discovery_url_of(issuer_url@),
    {
        let mut u = trim_end_matches_char(issuer_url, '/');
        u.append("/.well-known/openid-configuration");
        u
    }

    /// The provider described by a discovery document: its `jwks_uri` member
    /// names the key set.
    pub fn from_discovery(issuer_url: &str, client_id: &str, config: &JsonValue) -> (r: Result<
        OIDCProvider,
        FastMCPError,
    >)
        ensures
            match config.spec_get("jwks_uri"@) {
                Some(v) => match v.spec_str() {
                    Some(u) => r matches Ok(p) && p.issuer@ == issuer_url@ && p.client_id@
                        == client_id@ && p.jwks_url@ == u,
                    None => r matches Err(FastMCPError::Message(m)) && m@
                        == "Missing jwks_uri in discovery document"@,
                },
                None => r matches Err(FastMCPError::Message(m)) && m@
                    == "Missing jwks_uri in discovery document"@,
            },
    {
        match config.get_str("jwks_uri") {
            Some(u) => Ok(
                OIDCProvider { issuer: owned(issuer_url), client_id: owned(client_id), jwks_url: u },
            ),
            None => Err(FastMCPError::Message(owned("Missing jwks_uri in discovery document"))),
        }
    }

    /// The identity of a verified token with subject `sub`.
    pub fn context_for(&self, sub: String) -> (r: AuthContext)
        ensures
            r@ == (AuthView {
                client_id: Some(self.client_id@),
                user_id: Some(sub@),
                scopes: Seq::empty(),
            }),
    {
        let r = AuthContext {
            client_id: Some(self.client_id.clone()),
            user_id: Some(sub),
            scopes: Vec::new(),
        };
        assert(r@.scopes =~= Seq::<Seq<char>>::empty());
        r
    }

    /// The outcome of a token check: valid claims with a string subject give
    /// the identity `sub` for this client; claims that lack what an OIDC token
    /// carries, a key that could not be read and a refused token are errors.
    pub fn context_from_check(&self, check: JwtCheck) -> (r: Result<AuthContext, FastMCPError>)
        ensures
            match check {
                JwtCheck::Claims(c) => if oidc_claims(c) {
                    r matches Ok(x) && x@ == (AuthView {
                        client_id: Some(self.client_id@),
                        user_id: str_claim(c, "sub"@),
                        scopes: Seq::empty(),
                    })
                } else {
                    r matches Err(FastMCPError::InvalidRequest(m)) && m@
                        == "Token Verification Failed: invalid claims"@
                },
                JwtCheck::BadKey(m) => r matches Err(FastMCPError::Message(x)) && x@
                    == "Invalid key components: "@ + m@,
                JwtCheck::Rejected(m) => r matches Err(FastMCPError::InvalidRequest(x)) && x@
                    == "Token Verification Failed: "@ + m@,
            },
    {
        match check {
            JwtCheck::Claims(c) => {
                let sub = c.get_str("sub");
                let ok = sub.is_some() && c.get_str("iss").is_some() && c.get_str("aud").is_some()
                    && has_exp_claim(&c) && has_optional_str_claim(&c, "name")
                    && has_optional_str_claim(&c, "email");
                match sub {
                    Some(s) => if ok {
                        return Ok(self.context_for(s));
                    },
                    None => {},
                }
                Err(FastMCPError::InvalidRequest(owned("Token Verification Failed: invalid claims")))
            },
            JwtCheck::BadKey(m) => {
                let mut x = owned("Invalid key components: ");
                x.append(m.as_str());
                Err(FastMCPError::Message(x))
            },
            JwtCheck::Rejected(m) => {
                let mut x = owned("Token Verification Failed: ");
                x.append(m.as_str());
                Err(FastMCPError::InvalidRequest(x))
            },
        }
    }

    /// Verifies a token with the key its header names: an RS256 token for
    /// this client from this issuer. Whether a token passes rests on the clock
    /// (expiry), so success is not promised; what is stated: a key whose
    /// components do not build an RSA key is reported, and only such a key;
    /// a success comes from a token whose header names RS256, whose signature
    /// verifies under this key, and whose payload's claims are those of an
    /// OIDC token issued by this provider's issuer for this client; it
    /// identifies the token's subject for this client, with no scopes. Every
    /// failure is one of the three errors of [`OIDCProvider::context_from_check`].
    pub fn verify_with_key(&self, token: &str, key: &JwkKey) -> (r: Result<AuthContext, FastMCPError>)
        ensures
            rsa_key_error(key.n@, key.e@) matches Some(m) ==> (r matches Err(FastMCPError::Message(x))
                && x@ == "Invalid key components: "@ + m),
            rsa_key_error(key.n@, key.e@) is None ==> !(r matches Err(FastMCPError::Message(_))),
            r is Ok ==> jwt_signature_ok(token@, key.n@, key.e@, "RS256"@),
            r matches Ok(x) ==> (jwt_header(token@) matches Ok((_, a)) && a == "RS256"@),
            r matches Ok(x) ==> exists|c: JsonValue|
                #![trigger oidc_claims(c)]
                oidc_claims(c) && c@ == jwt_claims(token@) && str_claim(c, "iss"@) == Some(self.issuer@)
                    && str_claim(c, "aud"@) == Some(self.client_id@) && x@ == (AuthView {
                    client_id: Some(self.client_id@),
                    user_id: str_claim(c, "sub"@),
                    scopes: Seq::empty(),
                }),
            r matches Err(e) ==> (e matches FastMCPError::Message(m) && has_prefix(
                m@,
                "Invalid key components: "@,
            )) || (e matches FastMCPError::InvalidRequest(m) && has_prefix(
                m@,
                "Token Verification Failed: "@,
            )),
    {
        let check = jwt_check(
            token,
            key.n.as_str(),
            key.e.as_str(),
            "RS256",
            Some(self.client_id.as_str()),
            self.issuer.as_str(),
        );
        let ghost gcheck = check;
        let r = self.context_from_check(check);
        proof {
            reveal_strlit("Invalid key components: ");
            reveal_strlit("Token Verification Failed: ");
            reveal_strlit("Token Verification Failed: invalid claims");
            reveal_strlit("RS256");
            if r is Ok {
                let c = gcheck->Claims_0;
                assert(oidc_claims(c));
            }
        }
        match &r {
            Err(FastMCPError::Message(m)) => {
                assert(has_prefix(m@, "Invalid key components: "@)) by {
                    let p = "Invalid key components: "@;
                    assert(m@.subrange(0, p.len() as int) =~= p);
                }
            },
            Err(FastMCPError::InvalidRequest(m)) => {
                assert(has_prefix(m@, "Token Verification Failed: "@)) by {
                    let p = "Token Verification Failed: "@;
                    assert(m@.subrange(0, p.len() as int) =~= p);
                }
            },
            _ => {},
        }
        r
    }
}

} // verus!
