//! Identity providers: the checks each one makes on a request and on the
//! replies of its identity service.

pub mod auth0;
pub mod aws;
pub mod azure;
pub mod discord;
pub mod github;
pub mod google;
pub mod oci;
pub mod scalekit;
pub mod supabase;
pub mod workos;
