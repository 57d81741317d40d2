//! Server-side transports: the decisions they take on incoming messages.
//!
//! Reading and writing streams, and driving the request handler, belong to
//! the application; it hands each event to the functions here and performs
//! the action they return.

pub mod http;
pub mod stdio;
