//! The data that describes the inspected application.

use vstd::prelude::*;

verus! {

/// Information about the inspected application.
#[derive(Clone, Debug)]
pub struct AppInfo {
    /// Process identifier.
    pub pid: i32,
    /// Bundle identifier, such as `com.apple.finder`, when the app has one.
    pub bundle_identifier: Option<String>,
    /// Localized application name, when known.
    pub name: Option<String>,
}

} // verus!
