//! Oracle Cloud Infrastructure (OIDC) configuration.

use vstd::prelude::*;
use crate::server::auth::oidc::OIDCProvider;
use crate::util::text::{owned, remove_all, trim_end_char, trim_end_matches_char, without_all};

verus! {

/// OCI identity domains: an OIDC provider plus the service base URL.
pub struct OCIProvider {
    pub inner: OIDCProvider,
    pub base_url: String,
}

impl OCIProvider {
    /// The issuer URL of an identity domain (trailing slashes removed).
    pub fn issuer_url(issuer_url: &str) -> (r: String)
        ensures
            r@ == trim_end_char(issuer_url@, '/'),
    {
        trim_end_matches_char(issuer_url, '/')
    }

    /// The issuer URL given as the URL of its discovery document: every
    /// `/.well-known/openid-configuration` is removed.
    pub fn issuer_from_config_url(config_url: &str) -> (r: String)
        ensures
            r@ == without_all(config_url@, "/.well-known/openid-configuration"@),
    {
        proof {
            reveal_strlit("/.well-known/openid-configuration");
        }
        remove_all(config_url, "/.well-known/openid-configuration")
    }

    /// Wraps a configured OIDC provider with the service base URL.
    pub fn from_inner(inner: OIDCProvider, base_url: &str) -> (r: OCIProvider)
        ensures
            r.inner == inner,
            r.base_url@ == base_url@,
    {
        OCIProvider { inner, base_url: owned(base_url) }
    }
}

} // verus!
