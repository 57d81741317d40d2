//! Scalekit (OIDC) configuration.

use vstd::prelude::*;
use crate::server::auth::oidc::OIDCProvider;
use crate::util::text::{trim_end_char, trim_end_matches_char, owned};

verus! {

/// Scalekit B2B authentication: an OIDC provider for an environment.
pub struct ScalekitProvider {
    pub inner: OIDCProvider,
    pub environment_url: String,
    pub resource_id: String,
}

impl ScalekitProvider {
    /// The environment URL used as issuer (trailing slashes removed).
    pub fn environment(environment_url: &str) -> (r: String)
        ensures
            r@ == trim_end_char(environment_url@, '/'),
    {
        trim_end_matches_char(environment_url, '/')
    }

    /// Wraps a configured OIDC provider with its environment and resource.
    pub fn from_inner(inner: OIDCProvider, environment_url: &str, resource_id: &str) -> (r:
        ScalekitProvider)
        ensures
            r.inner == inner,
            r.environment_url@ == trim_end_char(environment_url@, '/'),
            r.resource_id@ == resource_id@,
    {
        ScalekitProvider {
            inner,
            environment_url: trim_end_matches_char(environment_url, '/'),
            resource_id: owned(resource_id),
        }
    }

    /// The audience to validate against: the configured client id, else the resource id.
    pub fn audience(client_id: Option<String>, resource_id: &str) -> (r: String)
        ensures
            r@ == (match client_id {
                Some(c) => c@,
                None => resource_id@,
            }),
    {
        match client_id {
            Some(c) => c,
            None => owned(resource_id),
        }
    }
}

} // verus!
