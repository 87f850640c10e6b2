//! Validation of domain objects against their business rules.

use vstd::prelude::*;

verus! {

/// A domain object that can check its own invariants.
///
/// Implementations state in their own `ensures` exactly when validation succeeds.
pub trait Validator {
    /// Checks the object's business rules, describing the first violation found.
    fn validate(&self) -> Result<(), String>;
}

} // verus!
