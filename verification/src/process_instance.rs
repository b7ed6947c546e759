//! Process instances: creating, cancelling, migrating and modifying them.
use vstd::prelude::*;

pub mod cancel;
pub mod create;
pub mod migrate;
pub mod modify;

verus! {

/// Errors of the variables of a process instance.
#[derive(Debug)]
pub enum ProcessInstanceError {
    /// The variables could not be (de)serialized.
    JsonError(serde_json::Error),
}

} // verus!
