//! The concurrent map of the `dashmap` crate, made known to the verifier.
//!
//! Its contents are opaque here: each use names what a map holds and wraps
//! the methods it calls (see the task table and the tool registry).

use vstd::prelude::*;

verus! {

/// `dashmap::DashMap`, declared so that it can be held in fields.
#[verifier::external_type_specification]
#[verifier::external_body]
#[verifier::reject_recursive_types(K)]
#[verifier::reject_recursive_types(V)]
#[verifier::reject_recursive_types(S)]
pub struct ExDashMap<K, V, S>(dashmap::DashMap<K, V, S>);

} // verus!
