//! Errors reported for malformed client input.

use vstd::prelude::*;

verus! {

/// A partial-configuration update names a field that the configuration
/// schema does not know. Such requests are rejected before they reach the
/// playback coordinator, so a typo never silently loses an update.
#[derive(Debug)]
pub enum ConfigParseError {
    UnexpectedField(String),
}

impl ConfigParseError {
    /// The name of the offending field.
    pub fn field_name(&self) -> (r: &String)
        ensures
            self matches ConfigParseError::UnexpectedField(f) && r@ == f@,
    {
        match self {
            ConfigParseError::UnexpectedField(f) => f,
        }
    }
}

} // verus!
