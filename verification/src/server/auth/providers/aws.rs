//! AWS Cognito (OIDC) configuration.

use vstd::prelude::*;
use crate::util::text::owned;

verus! {

/// AWS Cognito user pools: an OIDC provider per pool.
pub struct AwsCognito;

impl AwsCognito {
    /// The issuer URL of a Cognito user pool in a region.
    pub fn issuer_url(user_pool_id: &str, region: &str) -> (r: String)
        ensures
            r@ == "https://cognito-idp."@ + region@ + ".amazonaws.com/"@ + user_pool_id@,
    {
        let mut u = owned("https://cognito-idp.");
        u.append(region);
        u.append(".amazonaws.com/");
        u.append(user_pool_id);
        u
    }
}

} // verus!
