//! The session cookie's settings.
use vstd::prelude::*;

use crate::config::SessionSettings;

verus! {

/// Builds the session middleware from the session settings.
pub struct SessionMiddlewareBuilder;

impl SessionMiddlewareBuilder {
    /// The lifetime of a session cookie, in seconds, as the cookie's time-to-live takes it:
    /// the configured lifetime cast to `i64`.
    pub fn ttl_seconds(settings: &SessionSettings) -> (s: i64)
        ensures
            s == settings.lifetime as i64,
    {
        #[verifier::truncate]
        (settings.lifetime as i64)
    }
}

} // verus!
