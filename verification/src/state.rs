//! The shared application state: one immutable value, built once at startup.

use vstd::prelude::*;

verus! {

/// Process-wide configuration shared read-only by every handler. It holds a
/// single field, the application's display name, and offers no mutation: any
/// number of concurrent readers see the value it was constructed with.
pub struct AppState {
    pub app_name: String,
}

impl AppState {
    /// Builds the state with the given application name.
    pub fn new(app_name: String) -> (s: AppState)
        ensures
            s.app_name@ == app_name@,
    {
        AppState { app_name }
    }
}

} // verus!
