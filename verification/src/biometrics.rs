//! Typing timing samples.

use vstd::prelude::*;

verus! {

/// One measured interval between two key events.
#[derive(Debug, Clone, Copy, PartialEq, Eq, Structural)]
pub struct BiometricSample {
    /// First key code of the pair.
    pub key_a: u16,
    /// Second key code of the pair.
    pub key_b: u16,
    /// Time between the events, in milliseconds.
    pub duration_ms: u32,
}

} // verus!
