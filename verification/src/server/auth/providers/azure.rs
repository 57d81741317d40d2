//! Azure Active Directory (OIDC) configuration.

use vstd::prelude::*;
use crate::server::auth::oidc::OIDCProvider;
use crate::util::text::owned;

verus! {

/// Azure Active Directory authentication: an OIDC provider for a tenant.
pub struct AzureProvider {
    pub inner: OIDCProvider,
}

impl AzureProvider {
    /// The issuer URL of a tenant; the authority defaults to `login.microsoftonline.com`.
    pub fn issuer_url(tenant_id: &str, base_authority: Option<&str>) -> (r: String)
        ensures
            r@ == "https://"@ + (match base_authority {
                Some(a) => a@,
                None => "login.microsoftonline.com"@,
            }) + "/"@ + tenant_id@ + "/v2.0"@,
    {
        let mut u = owned("https://");
        match base_authority {
            Some(a) => u.append(a),
            None => u.append("login.microsoftonline.com"),
        }
        u.append("/");
        u.append(tenant_id);
        u.append("/v2.0");
        u
    }

    /// Wraps a configured OIDC provider.
    pub fn from_inner(inner: OIDCProvider) -> (r: AzureProvider)
        ensures
            r.inner == inner,
    {
        AzureProvider { inner }
    }
}

} // verus!
