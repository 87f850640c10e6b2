//! Where cost matrices come from.

use vstd::prelude::*;
use vstd::string::*;

verus! {

/// Name of the default cost matrix asset.
pub const ASSET_COST_MATRIX: &'static str = "cost_matrix";

/// The source of a cost matrix.
#[derive(Debug, Clone, PartialEq)]
pub enum CostMatrixSource {
    /// A predefined cost matrix file (e.g. `default_costmatrix.json`).
    Predefined(String),
}

impl Default for CostMatrixSource {
    /// The predefined default cost matrix.
    fn default() -> (r: Self)
        ensures
            r matches CostMatrixSource::Predefined(s) && s@ == ASSET_COST_MATRIX@,
    {
        CostMatrixSource::Predefined(String::from_str(ASSET_COST_MATRIX))
    }
}

impl CostMatrixSource {
    /// The name of the source, as `Display` renders it.
    pub fn display_string(&self) -> (r: String)
        ensures
            self matches CostMatrixSource::Predefined(s) && r@ == s@,
    {
        match self {
            CostMatrixSource::Predefined(s) => s.clone(),
        }
    }
}

} // verus!
