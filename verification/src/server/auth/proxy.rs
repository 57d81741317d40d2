//! OAuth proxy configuration and consent-screen utilities.
//!
//! When an MCP server acts as an OAuth proxy it may render an HTML consent
//! screen for the user. The `consent_csp_policy` field allows callers to
//! supply a custom Content-Security-Policy value that is injected into the
//! consent page's `<meta http-equiv="Content-Security-Policy">` tag. The
//! policy string is HTML-escaped before insertion.

use vstd::prelude::*;
use crate::util::text::{owned, push_char};

verus! {

/// The escaped form of one character.
pub open spec fn escape_char(c: char) -> Seq<char> {
    if c == '&' {
        "&amp;"@
    } else if c == '<' {
        "&lt;"@
    } else if c == '>' {
        "&gt;"@
    } else if c == '"' {
        "&quot;"@
    } else if c == '\'' {
        "&#x27;"@
    } else {
        seq![c]
    }
}

/// The escaped form of a string: each character replaced by its escape.
pub open spec fn escape_html(s: Seq<char>) -> Seq<char>
    decreases s.len(),
{
    if s.len() == 0 {
        Seq::empty()
    } else {
        escape_html(s.drop_last()) + escape_char(s.last())
    }
}

/// A character that could end an attribute value or open or close a tag.
pub open spec fn is_markup_char(c: char) -> bool {
    c == '"' || c == '\'' || c == '<' || c == '>'
}

/// Escape `<`, `>`, `"`, `'`, and `&` in `s` for safe HTML attribute insertion.
pub fn html_escape(s: &str) -> (r: String)
    ensures
        r@ == escape_html(s@),
{
    let mut out = String::new();
    let n = s.unicode_len();
    let mut i: usize = 0;
    assert(s@.subrange(0, 0) =~= Seq::<char>::empty());
    while i < n
        invariant
            n == s@.len(),
            i <= n,
            out@ == escape_html(s@.subrange(0, i as int)),
        decreases n - i,
    {
        let ch = s.get_char(i);
        let ghost before = out@;
        if ch == '&' {
            out.append("&amp;");
        } else if ch == '<' {
            out.append("&lt;");
        } else if ch == '>' {
            out.append("&gt;");
        } else if ch == '"' {
            out.append("&quot;");
        } else if ch == '\'' {
            out.append("&#x27;");
        } else {
            push_char(&mut out, ch);
            assert(before.push(ch) =~= before + seq![ch]);
        }
        proof {
            let t = s@.subrange(0, i + 1);
            assert(t.drop_last() =~= s@.subrange(0, i as int));
            assert(t.last() == ch);
        }
        i = i + 1;
    }
    assert(s@.subrange(0, n as int) =~= s@);
    out
}

proof fn lemma_escape_char_safe(c: char)
    ensures
        forall|i: int| 0 <= i < escape_char(c).len() ==> !is_markup_char(#[trigger] escape_char(c)[i]),
{
    reveal_strlit("&amp;");
    reveal_strlit("&lt;");
    reveal_strlit("&gt;");
    reveal_strlit("&quot;");
    reveal_strlit("&#x27;");
}

/// Law: escaped text holds no quote and no angle bracket, so it cannot end an
/// attribute value or open a tag.
pub proof fn law_escape_has_no_markup(s: Seq<char>)
    ensures
        forall|i: int| 0 <= i < escape_html(s).len() ==> !is_markup_char(#[trigger] escape_html(s)[i]),
    decreases s.len(),
{
    if s.len() > 0 {
        law_escape_has_no_markup(s.drop_last());
        lemma_escape_char_safe(s.last());
        let a = escape_html(s.drop_last());
        let b = escape_char(s.last());
        assert forall|i: int| 0 <= i < escape_html(s).len() implies !is_markup_char(
            #[trigger] escape_html(s)[i],
        ) by {
            if i < a.len() {
                assert(escape_html(s)[i] == a[i]);
            } else {
                assert(escape_html(s)[i] == b[i - a.len()]);
            }
        }
    }
}

/// Law: text without markup-significant characters or `&` is left as it is.
pub proof fn law_escape_keeps_plain_text(s: Seq<char>)
    requires
        forall|i: int| 0 <= i < s.len() ==> !is_markup_char(#[trigger] s[i]) && s[i] != '&',
    ensures
        escape_html(s) == s,
    decreases s.len(),
{
    if s.len() > 0 {
        law_escape_keeps_plain_text(s.drop_last());
        assert(s.drop_last() + seq![s.last()] =~= s);
    }
}

/// The policy used when none is configured.
pub open spec fn default_csp_policy() -> Seq<char> {
    "default-src 'none'"@
}

/// The consent-page meta tag for a policy.
pub open spec fn csp_meta_tag(policy: Seq<char>) -> Seq<char> {
    "<meta http-equiv=\"Content-Security-Policy\" content=\""@ + escape_html(policy) + "\">"@
}

/// Configuration for an OAuth/OIDC proxy endpoint.
pub struct OAuthProxyConfig {
    pub client_id: String,
    pub client_secret: Option<String>,
    pub auth_url: String,
    pub token_url: String,
    pub redirect_url: String,
    /// Custom CSP policy injected into the consent `<meta>` tag.
    ///
    /// Defaults to `"default-src 'none'"` when `None`.
    pub consent_csp_policy: Option<String>,
}

impl OAuthProxyConfig {
    /// A configuration without client secret and with the default consent policy.
    pub fn new(client_id: String, auth_url: String, token_url: String, redirect_url: String) -> (r:
        OAuthProxyConfig)
        ensures
            r.client_id == client_id,
            r.client_secret.is_none(),
            r.auth_url == auth_url,
            r.token_url == token_url,
            r.redirect_url == redirect_url,
            r.consent_csp_policy.is_none(),
    {
        OAuthProxyConfig {
            client_id,
            client_secret: None,
            auth_url,
            token_url,
            redirect_url,
            consent_csp_policy: None,
        }
    }

    /// Sets the client secret.
    pub fn with_client_secret(self, secret: String) -> (r: OAuthProxyConfig)
        ensures
            r == (OAuthProxyConfig { client_secret: Some(secret), ..self }),
    {
        OAuthProxyConfig { client_secret: Some(secret), ..self }
    }

    /// Sets the consent-page CSP policy.
    pub fn with_consent_csp_policy(self, policy: String) -> (r: OAuthProxyConfig)
        ensures
            r == (OAuthProxyConfig { consent_csp_policy: Some(policy), ..self }),
    {
        OAuthProxyConfig { consent_csp_policy: Some(policy), ..self }
    }

    /// Render the consent-page `<meta>` CSP tag with the configured policy.
    ///
    /// The policy value is HTML-escaped to prevent injection attacks.
    pub fn consent_csp_meta_tag(&self) -> (r: String)
        ensures
            r@ == csp_meta_tag(
                match self.consent_csp_policy {
                    Some(p) => p@,
                    None => default_csp_policy(),
                },
            ),
    {
        let escaped = match &self.consent_csp_policy {
            Some(p) => html_escape(p.as_str()),
            None => html_escape("default-src 'none'"),
        };
        let mut out = owned("<meta http-equiv=\"Content-Security-Policy\" content=\"");
        out.append(escaped.as_str());
        out.append("\">");
        out
    }
}

} // verus!
