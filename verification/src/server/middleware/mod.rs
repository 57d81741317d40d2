//! Request middleware: the decisions of the built-in middleware.
//!
//! The middleware chain itself (futures and continuations) belongs to the
//! application, which asks the types here what to do with each request.

pub mod caching;
