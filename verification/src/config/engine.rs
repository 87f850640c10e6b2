//! Engine tuning: cache sizes and prefetching.

use vstd::prelude::*;
use vstd::string::*;
use crate::validator::Validator;

verus! {

/// Hardware parameters of the scoring engine.
#[derive(Debug, Clone, Copy, PartialEq, Eq, Structural)]
pub struct EngineConfig {
    /// L1 data cache size in bytes.
    pub l1d_size: usize,
    /// L2 cache size in bytes.
    pub l2_size: usize,
    /// L3 cache size in bytes.
    pub l3_size: usize,
    /// Whether to use hardware prefetching if available.
    pub use_prefetch: bool,
}

impl Default for EngineConfig {
    /// 32 KiB L1D, 256 KiB L2, 8 MiB L3, prefetching on.
    fn default() -> (r: Self)
        ensures
            r.l1d_size == 32 * 1024,
            r.l2_size == 256 * 1024,
            r.l3_size == 8 * 1024 * 1024,
            r.use_prefetch,
    {
        EngineConfig { l1d_size: 32 * 1024, l2_size: 256 * 1024, l3_size: 8 * 1024 * 1024, use_prefetch: true }
    }
}

impl Validator for EngineConfig {
    /// The L1 data cache size may not be zero.
    fn validate(&self) -> (r: Result<(), String>)
        ensures
            r is Ok <==> self.l1d_size != 0,
            r matches Err(m) ==> m@ == "L1D size cannot be zero"@,
    {
        if self.l1d_size == 0 {
            return Err(String::from_str("L1D size cannot be zero"));
        }
        Ok(())
    }
}

} // verus!
