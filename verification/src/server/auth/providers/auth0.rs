//! Auth0 (OIDC) configuration.

use vstd::prelude::*;
use crate::util::text::{trim_end_char, trim_end_matches_char, trim_start_matches, trim_start_str, owned};

verus! {

/// Auth0 tenant support: an OIDC provider whose issuer is the tenant domain.
pub struct Auth0;

/// The bare domain: any leading `https://`, then any leading `http://`, then
/// trailing slashes removed.
pub open spec fn clean_domain(domain: Seq<char>) -> Seq<char> {
    trim_end_char(trim_start_str(trim_start_str(domain, "https://"@), "http://"@), '/')
}

impl Auth0 {
    /// The issuer URL for an Auth0 domain: `https://{domain}/`.
    pub fn issuer_url(domain: &str) -> (r: String)
        ensures
            r@ == "https://"@ + clean_domain(domain@) + "/"@,
    {
        let a = trim_start_matches(domain, "https://");
        let b = trim_start_matches(a.as_str(), "http://");
        let c = trim_end_matches_char(b.as_str(), '/');
        let mut u = owned("https://");
        u.append(c.as_str());
        u.append("/");
        u
    }
}

} // verus!
