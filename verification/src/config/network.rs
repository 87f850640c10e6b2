//! Network settings.

use vstd::prelude::*;
use crate::validator::Validator;

verus! {

/// Cross-origin settings of the HTTP services.
#[derive(Debug, Clone)]
pub struct CorsConfig {
    /// Allowed origins: a comma-separated list of URLs, `*` for any, or empty for the
    /// restricted default.
    pub allowed_origins: String,
}

impl Default for CorsConfig {
    fn default() -> (r: Self)
        ensures
            r.allowed_origins@.len() == 0,
    {
        CorsConfig { allowed_origins: String::new() }
    }
}

impl Validator for CorsConfig {
    /// Every setting is accepted.
    fn validate(&self) -> (r: Result<(), String>)
        ensures
            r is Ok,
    {
        Ok(())
    }
}

} // verus!
