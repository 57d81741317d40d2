use rs_fast_mcp::server::auth::providers::oci::OCIProvider;
use rs_fast_mcp::util::text::remove_all;
use rs_fast_mcp::server::auth::oidc::token_kid;
use rs_fast_mcp::error::FastMCPError;
use rs_fast_mcp::mcp::types::{JsonRpcRequest, JsonValue, RequestId};
use rs_fast_mcp::server::auth::oauth::OAuthProvider;
use rs_fast_mcp::server::auth::oidc::{find_key, oidc_token, token_alg, JwkKey, JwtCheck, OIDCProvider};
use rs_fast_mcp::server::auth::providers::auth0::Auth0;
use rs_fast_mcp::server::auth::providers::aws::AwsCognito;
use rs_fast_mcp::server::auth::providers::azure::AzureProvider;
use rs_fast_mcp::server::auth::providers::discord::{DiscordProvider, DiscordUser};
use rs_fast_mcp::server::auth::providers::github::{GitHubProvider, GitHubUser};
use rs_fast_mcp::server::auth::providers::google::{GoogleProvider, GoogleTokenInfo};
use rs_fast_mcp::server::auth::providers::supabase::SupabaseProvider;
use rs_fast_mcp::server::auth::{header_token, rejection, SimpleAuthProvider};
use rs_fast_mcp::util::string_map::StringMap;

fn request(headers: Vec<(&str, &str)>, token_param: Option<&str>) -> JsonRpcRequest {
    let mut meta = StringMap::new();
    for (k, v) in &headers {
        meta.insert(k.to_string(), v.to_string());
    }
    JsonRpcRequest {
        jsonrpc: "2.0".to_string(),
        id: RequestId::Int(1),
        method: "tools/list".to_string(),
        params: token_param.map(|t| JsonValue::Object(vec![("token".to_string(), JsonValue::Str(t.to_string()))])),
        transport_metadata: if headers.is_empty() { None } else { Some(meta) },
    }
}

fn invalid_request(r: Result<impl Sized, FastMCPError>) -> String {
    match r {
        Err(FastMCPError::InvalidRequest(m)) => m,
        _ => panic!("expected an invalid request"),
    }
}

fn message(r: Result<impl Sized, FastMCPError>) -> String {
    match r {
        Err(FastMCPError::Message(m)) => m,
        _ => panic!("expected a message error"),
    }
}

#[test]
fn simple_auth_accepts_header_or_param() {
    let p = SimpleAuthProvider::new("secret");
    let ok = p.verify(&request(vec![("authorization", "Bearer secret")], None)).unwrap();
    assert_eq!(ok.client_id.as_deref(), Some("user"));
    assert_eq!(ok.user_id.as_deref(), Some("user"));
    assert_eq!(ok.scopes, vec!["admin".to_string()]);
    assert!(p.verify(&request(vec![("Authorization", "Bearer secret")], None)).is_ok());
    assert!(p.verify(&request(vec![], Some("secret"))).is_ok());
    assert!(p.verify(&request(vec![("authorization", "Bearer wrong")], Some("secret"))).is_ok());
}

#[test]
fn simple_auth_rejects_wrong_or_missing_token() {
    let p = SimpleAuthProvider::new("secret");
    assert_eq!(
        invalid_request(p.verify(&request(vec![("authorization", "Bearer wrong")], None))),
        "Unauthorized: Invalid or missing token"
    );
    assert!(p.verify(&request(vec![("authorization", "secret")], None)).is_err());
    assert!(p.verify(&request(vec![], None)).is_err());
}

#[test]
fn header_token_prefers_first_header() {
    let r = request(vec![("a", "Bearer one"), ("b", "Bearer two")], None);
    assert_eq!(header_token(&r, "a", "b").as_deref(), Some("one"));
    assert_eq!(header_token(&r, "x", "b").as_deref(), Some("two"));
    assert_eq!(header_token(&r, "x", "y"), None);
}

#[test]
fn oauth_provider_endpoint_and_introspection() {
    let p = OAuthProvider::new("id", None, "https://a", "https://t", Some("https://i/introspect")).unwrap();
    assert_eq!(p.endpoint().unwrap(), "https://i/introspect");
    let none = OAuthProvider::new("id", Some("s"), "https://a", "https://t", None).unwrap();
    assert_eq!(message(none.endpoint()), "No introspection URL configured");
    assert!(message(OAuthProvider::new("id", None, "a", "t", Some("not a url"))).starts_with("Invalid Introspection URL: "));
    assert_eq!(invalid_request(OAuthProvider::token(&request(vec![], None))), "Missing token");
    assert_eq!(OAuthProvider::token(&request(vec![], Some("tk"))).unwrap(), "tk");

    let body = JsonValue::Object(vec![
        ("active".to_string(), JsonValue::Bool(true)),
        ("client_id".to_string(), JsonValue::Str("c".to_string())),
        ("sub".to_string(), JsonValue::Str("u".to_string())),
        ("scope".to_string(), JsonValue::Str("read  write".to_string())),
    ]);
    let c = OAuthProvider::context_from_reply(true, &body).unwrap();
    assert_eq!(c.client_id.as_deref(), Some("c"));
    assert_eq!(c.user_id.as_deref(), Some("u"));
    assert_eq!(c.scopes, vec!["read".to_string(), "write".to_string()]);
    assert_eq!(invalid_request(OAuthProvider::context_from_reply(false, &body)), "Token introspection failed");
    let inactive = JsonValue::Object(vec![("active".to_string(), JsonValue::Bool(false))]);
    assert_eq!(invalid_request(OAuthProvider::context_from_reply(true, &inactive)), "Token inactive");
}

#[test]
fn oidc_discovery_and_keys() {
    assert_eq!(
        OIDCProvider::discovery_url("https://issuer.example//"),
        "https://issuer.example/.well-known/openid-configuration"
    );
    let doc = JsonValue::Object(vec![("jwks_uri".to_string(), JsonValue::Str("https://k".to_string()))]);
    let p = OIDCProvider::from_discovery("https://iss", "cid", &doc).unwrap();
    assert_eq!(p.jwks_url, "https://k");
    assert_eq!(p.issuer, "https://iss");
    assert_eq!(message(OIDCProvider::from_discovery("i", "c", &JsonValue::Object(vec![]))), "Missing jwks_uri in discovery document");
    let ctx = p.context_for("sub1".to_string());
    assert_eq!(ctx.client_id.as_deref(), Some("cid"));
    assert_eq!(ctx.user_id.as_deref(), Some("sub1"));

    let keys = vec![
        JwkKey { kid: "a".to_string(), kty: "RSA".to_string(), n: "n".to_string(), e: "e".to_string() },
        JwkKey { kid: "b".to_string(), kty: "RSA".to_string(), n: "n".to_string(), e: "e".to_string() },
    ];
    assert_eq!(find_key(&keys, "b", "JWKS").unwrap(), 1);
    assert_eq!(message(find_key(&keys, "z", "JWKS")), "Key ID z not found in JWKS");
    assert_eq!(oidc_token(&request(vec![("Authorization", "Bearer t1")], None)).unwrap(), "t1");
    assert_eq!(invalid_request(oidc_token(&request(vec![], None))), "Missing token");
}

#[test]
fn github_reply_outcomes() {
    assert_eq!(GitHubProvider::new().user_agent(), "rs-fast-mcp-server");
    assert_eq!(GitHubProvider::with_user_agent("bot").user_agent(), "bot");
    let user = GitHubUser { id: 42, login: "octo".to_string(), email: None };
    let c = GitHubProvider::context_from_reply(true, Ok(user)).unwrap();
    assert_eq!(c.client_id.as_deref(), Some("octo"));
    assert_eq!(c.user_id.as_deref(), Some("42"));
    assert_eq!(invalid_request(GitHubProvider::context_from_reply(false, Err("x".to_string()))), "Invalid GitHub Token");
    assert_eq!(message(GitHubProvider::context_from_reply(true, Err("bad json".to_string()))), "Failed to parse GitHub user info: bad json");
    assert_eq!(invalid_request(GitHubProvider::token(&request(vec![], None))), "Missing token parameter");
}

#[test]
fn google_reply_outcomes() {
    let g = GoogleProvider::new("cid");
    assert_eq!(g.validation_url, "https://oauth2.googleapis.com/tokeninfo");
    let custom = GoogleProvider::new("cid").with_validation_url("https://example.test/info");
    assert_eq!(custom.validation_url, "https://example.test/info");
    assert_eq!(custom.client_id, "cid");
    assert!(message(GoogleProvider::new("cid").with_validation_url("not a url").validation_request_url("t"))
        .starts_with("Failed to build URL: "));
    assert_eq!(
        g.validation_request_url("tok").unwrap(),
        "https://oauth2.googleapis.com/tokeninfo?access_token=tok"
    );
    let info = |aud: &str| GoogleTokenInfo {
        sub: "s".to_string(),
        aud: aud.to_string(),
        scope: Some("a b".to_string()),
        email: None,
        email_verified: None,
    };
    let c = g.context_from_reply(true, Ok(info("cid"))).unwrap();
    assert_eq!(c.user_id.as_deref(), Some("s"));
    assert_eq!(c.scopes, vec!["a".to_string(), "b".to_string()]);
    assert_eq!(
        invalid_request(g.context_from_reply(true, Ok(info("other")))),
        "Token audience mismatch. Expected cid, got other"
    );
    assert_eq!(invalid_request(g.context_from_reply(false, Ok(info("cid")))), "Invalid Google Access Token");
}

#[test]
fn discord_reply_outcomes() {
    let user = DiscordUser { id: "7".to_string(), username: "u".to_string(), discriminator: None, email: Some("e".to_string()) };
    let p = DiscordProvider::new();
    let c = p.context_from_reply(true, "200", Ok(user), None).unwrap();
    assert_eq!(c.client_id.as_deref(), Some("discord"));
    assert_eq!(c.user_id.as_deref(), Some("discord:7"));
    assert_eq!(c.scopes, vec!["identify".to_string(), "email".to_string()]);
    assert_eq!(
        invalid_request(p.context_from_reply(false, "401", Err("x".to_string()), None)),
        "Discord token verification failed: HTTP 401"
    );
    assert_eq!(invalid_request(DiscordProvider::token(&request(vec![], Some("t")))), "Missing Bearer token");
}

fn discord_user() -> DiscordUser {
    DiscordUser { id: "7".to_string(), username: "u".to_string(), discriminator: None, email: None }
}

#[test]
fn discord_required_guild_admits_members_only() {
    let p = DiscordProvider::new().with_guild("123456789");
    let member = p.context_from_reply(true, "200", Ok(discord_user()), Some(Ok(vec!["1".to_string(), "123456789".to_string()])));
    assert_eq!(member.unwrap().user_id.as_deref(), Some("discord:7"));
    assert_eq!(
        invalid_request(p.context_from_reply(true, "200", Ok(discord_user()), Some(Ok(vec!["1".to_string()])))),
        "User is not a member of guild 123456789"
    );
    match p.context_from_reply(true, "200", Ok(discord_user()), Some(Err("bad".to_string()))) {
        Err(FastMCPError::Message(m)) => assert_eq!(m, "Discord guild list error: bad"),
        _ => panic!("expected a message error"),
    }
    match p.context_from_reply(true, "200", Ok(discord_user()), None) {
        Err(FastMCPError::Message(m)) => assert_eq!(m, "Discord guild membership was not checked"),
        _ => panic!("expected a message error"),
    }
}

#[test]
fn issuer_urls() {
    assert_eq!(Auth0::issuer_url("https://tenant.auth0.com/"), "https://tenant.auth0.com/");
    assert_eq!(Auth0::issuer_url("tenant.auth0.com"), "https://tenant.auth0.com/");
    assert_eq!(AwsCognito::issuer_url("pool", "eu-west-1"), "https://cognito-idp.eu-west-1.amazonaws.com/pool");
    assert_eq!(AzureProvider::issuer_url("t1", None), "https://login.microsoftonline.com/t1/v2.0");
    assert_eq!(AzureProvider::issuer_url("t1", Some("login.example")), "https://login.example/t1/v2.0");
    let s = SupabaseProvider::new("https://proj.supabase.co/");
    assert_eq!(s.jwks_url, "https://proj.supabase.co/auth/v1/.well-known/jwks.json");
    assert_eq!(s.issuer, "https://proj.supabase.co/auth/v1");
}

#[test]
fn token_key_id_from_header() {
    assert_eq!(token_kid("eyJhbGciOiJSUzI1NiIsImtpZCI6ImsxIn0.e30.c2ln").unwrap(), "k1");
    assert_eq!(invalid_request(token_kid("eyJhbGciOiJSUzI1NiJ9.e30.c2ln")), "Missing kid in token header");
    assert!(invalid_request(token_kid("not-a-token")).starts_with("Invalid Token Header: "));
}

#[test]
fn oci_issuer_from_config_url() {
    assert_eq!(
        OCIProvider::issuer_from_config_url(
            "https://idcs-1.identity.oraclecloud.com/.well-known/openid-configuration"
        ),
        "https://idcs-1.identity.oraclecloud.com"
    );
    assert_eq!(OCIProvider::issuer_url("https://x//"), "https://x");
    assert_eq!(remove_all("abXYcdXYXY", "XY"), "abcd");
    assert_eq!(remove_all("aXXXb", "XX"), "aXb");
    assert_eq!(remove_all("abc", ""), "abc");
}

const SIGNED_HEADER: &str = "eyJhbGciOiJSUzI1NiIsInR5cCI6IkpXVCIsImtpZCI6ImsxIn0";

fn oidc_provider() -> OIDCProvider {
    OIDCProvider {
        issuer: "https://issuer".to_string(),
        client_id: "cid".to_string(),
        jwks_url: "https://issuer/jwks".to_string(),
    }
}

fn claims(members: Vec<(&str, JsonValue)>) -> JsonValue {
    JsonValue::Object(members.into_iter().map(|(k, v)| (k.to_string(), v)).collect())
}

fn s(x: &str) -> JsonValue {
    JsonValue::Str(x.to_string())
}

fn full_oidc_claims() -> Vec<(&'static str, JsonValue)> {
    vec![
        ("sub", s("user-1")),
        ("iss", s("https://issuer")),
        ("aud", s("cid")),
        ("exp", JsonValue::Number("1700000000".to_string())),
        ("email", s("a@b")),
    ]
}

#[test]
fn oidc_check_outcomes() {
    let p = oidc_provider();
    let c = p.context_from_check(JwtCheck::Claims(claims(full_oidc_claims()))).unwrap();
    assert_eq!(c.client_id.as_deref(), Some("cid"));
    assert_eq!(c.user_id.as_deref(), Some("user-1"));
    assert!(c.scopes.is_empty());
    let mut no_exp = full_oidc_claims();
    no_exp.retain(|(k, _)| *k != "exp");
    assert_eq!(
        invalid_request(p.context_from_check(JwtCheck::Claims(claims(no_exp)))),
        "Token Verification Failed: invalid claims"
    );
    let mut bad_name = full_oidc_claims();
    bad_name.push(("name", JsonValue::Number("3".to_string())));
    assert_eq!(
        invalid_request(p.context_from_check(JwtCheck::Claims(claims(bad_name)))),
        "Token Verification Failed: invalid claims"
    );
    assert_eq!(message(p.context_from_check(JwtCheck::BadKey("bad n".to_string()))), "Invalid key components: bad n");
    assert_eq!(
        invalid_request(p.context_from_check(JwtCheck::Rejected("ExpiredSignature".to_string()))),
        "Token Verification Failed: ExpiredSignature"
    );
}

#[test]
fn oidc_verify_with_key_reports_key_and_token_errors() {
    let p = oidc_provider();
    let token = format!("{}.e30.c2ln", SIGNED_HEADER);
    let bad_key = JwkKey { kid: "k1".to_string(), kty: "RSA".to_string(), n: "!!!".to_string(), e: "AQAB".to_string() };
    assert!(message(p.verify_with_key(&token, &bad_key)).starts_with("Invalid key components: "));
    let key = JwkKey { kid: "k1".to_string(), kty: "RSA".to_string(), n: "AQAB".to_string(), e: "AQAB".to_string() };
    assert!(invalid_request(p.verify_with_key(&token, &key)).starts_with("Token Verification Failed: "));
    assert!(invalid_request(p.verify_with_key("garbage", &key)).starts_with("Token Verification Failed: "));
}

fn supabase_claims(extra: Vec<(&'static str, JsonValue)>) -> JsonValue {
    let mut members = vec![
        ("sub", s("u")),
        ("iss", s("https://proj.supabase.co/auth/v1")),
        ("exp", JsonValue::Number("1700000000".to_string())),
    ];
    members.extend(extra);
    claims(members)
}

#[test]
fn supabase_check_outcomes() {
    let p = SupabaseProvider::new("https://proj.supabase.co/");
    let c = p.context_from_check(JwtCheck::Claims(supabase_claims(vec![("role", s("authenticated"))]))).unwrap();
    assert_eq!(c.client_id.as_deref(), Some("https://proj.supabase.co"));
    assert_eq!(c.user_id.as_deref(), Some("u"));
    assert_eq!(c.scopes, vec!["authenticated".to_string()]);
    let c = p.context_from_check(JwtCheck::Claims(supabase_claims(vec![("aud", s("authenticated")), ("email", JsonValue::Null)]))).unwrap();
    assert!(c.scopes.is_empty());
    assert_eq!(
        invalid_request(p.context_from_check(JwtCheck::Claims(claims(vec![("sub", s("u")), ("role", s("x"))])))),
        "Supabase Token Verification Failed: invalid claims"
    );
    assert_eq!(
        invalid_request(p.context_from_check(JwtCheck::Claims(supabase_claims(vec![("aud", JsonValue::Array(vec![s("a")]))])))),
        "Supabase Token Verification Failed: invalid claims"
    );
    assert_eq!(
        invalid_request(p.context_from_check(JwtCheck::Claims(supabase_claims(vec![("email", JsonValue::Number("3".to_string()))])))),
        "Supabase Token Verification Failed: invalid claims"
    );
    assert_eq!(
        invalid_request(p.context_from_check(JwtCheck::Rejected("InvalidIssuer".to_string()))),
        "Supabase Token Verification Failed: InvalidIssuer"
    );
    assert_eq!(message(p.context_from_check(JwtCheck::BadKey("e".to_string()))), "Invalid key components: e");
}

#[test]
fn supabase_verify_with_key_reads_the_header_first() {
    let p = SupabaseProvider::new("https://proj.supabase.co");
    let key = JwkKey { kid: "k1".to_string(), kty: "RSA".to_string(), n: "AQAB".to_string(), e: "AQAB".to_string() };
    assert!(invalid_request(p.verify_with_key("garbage", &key)).starts_with("Invalid Token Header: "));
    let token = format!("{}.e30.c2ln", SIGNED_HEADER);
    assert!(invalid_request(p.verify_with_key(&token, &key)).starts_with("Supabase Token Verification Failed: "));
    assert_eq!(token_alg(&token).unwrap(), "RS256");
}

#[test]
fn refused_requests_are_invalid_requests() {
    match rejection(FastMCPError::Message("no".to_string())) {
        FastMCPError::InvalidRequest(m) => assert_eq!(m, "no"),
        _ => panic!("expected an invalid request"),
    }
    match rejection(FastMCPError::InvalidRequest("bad".to_string())) {
        FastMCPError::InvalidRequest(m) => assert_eq!(m, "bad"),
        _ => panic!("expected an invalid request"),
    }
}
