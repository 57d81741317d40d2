//! Duplicate-registration strategies for tools, resources, and prompts.

use vstd::prelude::*;

verus! {

/// Controls what happens when a tool, resource, or prompt with the same name
/// is registered twice.
#[derive(Debug, Clone, Copy, PartialEq, Eq, Structural)]
pub enum DuplicateStrategy {
    /// Log a warning and overwrite the existing entry. *(default)*
    Warn,
    /// Return an error and leave the existing entry unchanged.
    Error,
    /// Silently overwrite the existing entry.
    Replace,
    /// Silently discard the new entry and keep the existing one.
    Ignore,
}

impl Default for DuplicateStrategy {
    fn default() -> (r: DuplicateStrategy)
        ensures
            r == DuplicateStrategy::Warn,
    {
        DuplicateStrategy::Warn
    }
}

} // verus!
