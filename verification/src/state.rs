//! Shared application state: built once at startup, read by every
//! handler, never written afterwards.

use vstd::prelude::*;
use vstd::string::StringExecFns;

verus! {

/// Process-wide state shared by all handler invocations. Its one
/// attribute, the application's display name, is fixed at construction:
/// the library offers no way to write it afterwards.
pub struct AppState {
    pub app_name: String,
}

impl AppState {
    /// Builds the shared state around the given display name.
    pub fn new(app_name: String) -> (s: AppState)
        ensures
            s.app_name@ == app_name@,
    {
        AppState { app_name }
    }
}

impl Default for AppState {
    /// The state the server is booted with: the application is named
    /// `Acyclic`.
    fn default() -> (s: AppState)
        ensures
            s.app_name@ == "Acyclic"@,
    {
        AppState { app_name: String::from_str("Acyclic") }
    }
}

} // verus!
