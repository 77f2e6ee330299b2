//! The configuration resolver: the destination table name.
//!
//! The surrounding process reads the configuration source and hands the
//! looked-up value in as a plain optional; resolving it to a typed error
//! instead of panicking is this layer's job.

use vstd::prelude::*;

use crate::error::TodoError;

verus! {

/// Resolves the configured table name.
///
/// Succeeds exactly when a value is configured, and then yields it
/// unchanged; an absent value is `ConfigMissing`.
pub fn resolve_table_name(configured: Option<String>) -> (r: Result<String, TodoError>)
    ensures
        match r {
            Ok(t) => configured matches Some(c) && t@ == c@,
            Err(e) => configured is None && e == TodoError::ConfigMissing,
        },
{
    match configured {
        Some(t) => Ok(t),
        None => Err(TodoError::ConfigMissing),
    }
}

} // verus!
