//! Templates: the functions they call.
use vstd::prelude::*;

pub mod vite;

verus! {

/// Injects the version of the application.
pub struct InjectVersion {
    version: String,
}

impl InjectVersion {
    /// The version that the injector holds.
    pub closed spec fn version_view(&self) -> Seq<char> {
        self.version@
    }

    /// An injector of the given version.
    pub fn new(version: String) -> (r: InjectVersion)
        ensures
            r.version_view() == version@,
    {
        InjectVersion { version }
    }

    /// The injected text: the version.
    pub fn inject(&self) -> (r: String)
        ensures
            r@ == self.version_view(),
    {
        self.version.clone()
    }
}

} // verus!
