//! The uniform error contract shared by every operation handler.

use vstd::prelude::*;
use vstd::string::StringExecFns;

verus! {

/// Every failure a handler can report.
///
/// `StoreUnavailable` carries the underlying cause reported by the
/// store client, already rendered as text.
#[derive(Debug, Clone, PartialEq, Eq)]
pub enum TodoError {
    /// The destination table name is not configured.
    ConfigMissing,
    /// An owner or item identifier is not syntactically valid.
    InvalidIdentifier,
    /// An item read back from the store is missing a required field or
    /// holds a field of the wrong type.
    MalformedStoreItem,
    /// The underlying store call failed (network, throttling, permission).
    StoreUnavailable(String),
}

impl TodoError {
    /// The message text a response body carries for this error.
    pub open spec fn spec_message(self) -> Seq<char> {
        match self {
            TodoError::ConfigMissing => "table name is not configured"@,
            TodoError::InvalidIdentifier => "invalid identifier"@,
            TodoError::MalformedStoreItem => "malformed store item"@,
            TodoError::StoreUnavailable(cause) => cause@,
        }
    }

    /// Renders the error as the message text of the response body.
    pub fn message(&self) -> (r: String)
        ensures
            r@ == self.spec_message(),
    {
        match self {
            TodoError::ConfigMissing => String::from_str("table name is not configured"),
            TodoError::InvalidIdentifier => String::from_str("invalid identifier"),
            TodoError::MalformedStoreItem => String::from_str("malformed store item"),
            TodoError::StoreUnavailable(cause) => cause.clone(),
        }
    }
}

} // verus!
