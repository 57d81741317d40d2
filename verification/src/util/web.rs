//! URL handling through the `url` crate.

use vstd::prelude::*;
use crate::util::text::opt_chars;

verus! {

/// What `url::Url::parse` gives for a text: the scheme, the user name (empty
/// when there is none), the password (when there is one), the host (when the
/// URL has one), the port (when it is not the scheme's default) and the path
/// of the parsed URL, or the parse error's message.
pub uninterp spec fn url_parse_result(s: Seq<char>) -> Result<
    (Seq<char>, Seq<char>, Option<Seq<char>>, Option<Seq<char>>, Option<u16>, Seq<char>),
    Seq<char>,
>;

/// What `url::Url::parse_with_params` gives for a base URL and one query
/// pair: the serialised URL, or the parse error's message.
pub uninterp spec fn url_with_param(base: Seq<char>, key: Seq<char>, value: Seq<char>) -> Result<
    Seq<char>,
    Seq<char>,
>;

/// The parts of a parsed URL that the library reads.
pub struct UrlParts {
    pub scheme: String,
    pub username: String,
    pub password: Option<String>,
    pub host: Option<String>,
    pub port: Option<u16>,
    pub path: String,
}

/// The model of [`UrlParts`], in the shape of [`url_parse_result`].
pub open spec fn url_parts_view(p: UrlParts) -> (
    Seq<char>,
    Seq<char>,
    Option<Seq<char>>,
    Option<Seq<char>>,
    Option<u16>,
    Seq<char>,
) {
    (p.scheme@, p.username@, opt_chars(p.password), opt_chars(p.host), p.port, p.path@)
}

/// Wraps `url::Url::parse`; returns the scheme, user name, password, host,
/// port and path, or the error text.
#[verifier::external_body]
pub(crate) fn parse_url(s: &str) -> (r: Result<UrlParts, String>)
    ensures
        match r {
            Ok(p) => url_parse_result(s@) == Ok::<_, Seq<char>>(url_parts_view(p)),
            Err(e) => url_parse_result(s@) matches Err(m) && m == e@,
        },
{
    match url::Url::parse(s) {
        Ok(u) => Ok(
            UrlParts {
                scheme: u.scheme().to_string(),
                username: u.username().to_string(),
                password: u.password().map(|p| p.to_string()),
                host: u.host_str().map(|h| h.to_string()),
                port: u.port(),
                path: u.path().to_string(),
            },
        ),
        Err(e) => Err(e.to_string()),
    }
}

/// Wraps `url::Url::parse_with_params` with a single query pair; returns the
/// serialised URL or the error text.
#[verifier::external_body]
pub(crate) fn url_with_query(base: &str, key: &str, value: &str) -> (r: Result<String, String>)
    ensures
        match r {
            Ok(u) => url_with_param(base@, key@, value@) == Ok::<_, Seq<char>>(u@),
            Err(e) => url_with_param(base@, key@, value@) == Err::<Seq<char>, _>(e@),
        },
{
    match url::Url::parse_with_params(base, &[(key, value)]) {
        Ok(u) => Ok(u.to_string()),
        Err(e) => Err(e.to_string()),
    }
}

} // verus!
