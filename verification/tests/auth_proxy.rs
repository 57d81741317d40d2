use rs_fast_mcp::server::auth::proxy::{html_escape, OAuthProxyConfig};

fn config() -> OAuthProxyConfig {
    OAuthProxyConfig::new(
        "id".to_string(),
        "https://a".to_string(),
        "https://b".to_string(),
        "https://c".to_string(),
    )
}

#[test]
fn test_default_csp_meta_tag() {
    let cfg = config();
    let tag = cfg.consent_csp_meta_tag();
    assert!(tag.contains("default-src"));
    assert!(tag.contains(r#"content=""#));
}

#[test]
fn test_custom_csp_policy() {
    let cfg = config().with_consent_csp_policy("default-src 'self'".to_string());
    let tag = cfg.consent_csp_meta_tag();
    assert!(tag.contains("default-src &#x27;self&#x27;"));
}

#[test]
fn test_html_escape_prevents_injection() {
    let malicious = r#"" onload="evil()"#;
    let escaped = html_escape(malicious);
    assert!(!escaped.contains('"'));
    assert!(escaped.contains("&quot;"));
}

#[test]
fn html_escape_replaces_each_markup_character() {
    assert_eq!(html_escape("<a href=\"x\">&'</a>"), "&lt;a href=&quot;x&quot;&gt;&amp;&#x27;&lt;/a&gt;");
}

#[test]
fn html_escape_keeps_plain_text() {
    assert_eq!(html_escape("plain text 123"), "plain text 123");
    assert_eq!(html_escape(""), "");
}

#[test]
fn default_meta_tag_is_exact() {
    assert_eq!(
        config().consent_csp_meta_tag(),
        "<meta http-equiv=\"Content-Security-Policy\" content=\"default-src &#x27;none&#x27;\">"
    );
}

#[test]
fn builder_methods_set_their_field_only() {
    let cfg = config().with_client_secret("s3".to_string());
    assert_eq!(cfg.client_secret.as_deref(), Some("s3"));
    assert_eq!(cfg.client_id, "id");
    assert_eq!(cfg.auth_url, "https://a");
    assert_eq!(cfg.token_url, "https://b");
    assert_eq!(cfg.redirect_url, "https://c");
    assert!(cfg.consent_csp_policy.is_none());
}
