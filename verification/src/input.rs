//! The input-management boundary, and an input manager whose state is plain
//! data.

use vstd::prelude::*;

verus! {

/// The `InputManager` trait is used for managing input between the user
/// and the system.
pub trait InputManager {
    /// Whether a close has been requested, as seen by specifications.
    spec fn spec_requesting_close(&self) -> bool;

    /// Returns true if the user or window is requesting the software close.
    fn is_requesting_close(&self) -> (requesting: bool)
        ensures
            requesting == self.spec_requesting_close(),
    ;

    /// Causes any future calls to `is_requesting_close` to return true.
    fn request_close(&mut self)
        ensures
            final(self).spec_requesting_close(),
    ;
}

/// An input manager for a front end without window-close events of its own:
/// it reports a close exactly when one was requested through it.
pub struct WebInputManager {
    requesting_close: bool,
}

impl WebInputManager {
    /// Constructs an input manager that is not yet requesting a close.
    pub fn create() -> (manager: WebInputManager)
        ensures
            !manager.spec_requesting_close(),
    {
        WebInputManager { requesting_close: false }
    }
}

impl InputManager for WebInputManager {
    closed spec fn spec_requesting_close(&self) -> bool {
        self.requesting_close
    }

    fn is_requesting_close(&self) -> (requesting: bool) {
        self.requesting_close
    }

    fn request_close(&mut self) {
        self.requesting_close = true;
    }
}

} // verus!
