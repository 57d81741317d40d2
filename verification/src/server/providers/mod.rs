//! Provider composition: naming transforms for mounted component sources.

pub mod transforming;
