//! Errors of the main app process.

use vstd::prelude::*;

verus! {

/// Contains information about an error that prevents functionality in the
/// main app process.
#[derive(Debug)]
pub struct AppError(pub String);

impl AppError {
    /// The error's message.
    pub fn message(&self) -> (message: &String)
        ensures
            message == self.0,
    {
        &self.0
    }
}

} // verus!
