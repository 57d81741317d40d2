//! WorkOS AuthKit (OIDC) configuration.

use vstd::prelude::*;
use crate::server::auth::oidc::OIDCProvider;
use crate::util::text::{trim_end_char, trim_end_matches_char};

verus! {

/// WorkOS AuthKit authentication: an OIDC provider for an AuthKit domain.
pub struct WorkOSProvider {
    pub inner: OIDCProvider,
    pub domain: String,
}

impl WorkOSProvider {
    /// The issuer URL of an AuthKit domain (trailing slashes removed).
    pub fn issuer_url(authkit_domain: &str) -> (r: String)
        ensures
            r@ == trim_end_char(authkit_domain@, '/'),
    {
        trim_end_matches_char(authkit_domain, '/')
    }

    /// Wraps a configured OIDC provider with its domain.
    pub fn from_inner(inner: OIDCProvider, authkit_domain: &str) -> (r: WorkOSProvider)
        ensures
            r.inner == inner,
            r.domain@ == trim_end_char(authkit_domain@, '/'),
    {
        WorkOSProvider { inner, domain: trim_end_matches_char(authkit_domain, '/') }
    }
}

} // verus!
