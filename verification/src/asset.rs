//! Assets: data managed as system or user files, grouped by category.

use vstd::prelude::*;
use crate::error::ForgeError;

verus! {

/// Categories of assets.
#[derive(Debug, Clone, Copy, PartialEq, Eq, Structural)]
pub enum AssetCategory {
    /// Physical keyboard geometry and metadata.
    Keyboard,
    /// Physics model containing static costs and dynamic rules.
    CostModel,
    /// Registry mapping logical labels to physical keycodes.
    Keycodes,
    /// Linguistic statistical data (n-grams).
    Corpus,
    /// User preferences and scoring weights.
    Rubric,
}

/// The subdirectory name of each category.
pub open spec fn category_dir(c: AssetCategory) -> Seq<char> {
    match c {
        AssetCategory::Keyboard => "keyboards"@,
        AssetCategory::CostModel => "weights"@,
        AssetCategory::Keycodes => "config"@,
        AssetCategory::Corpus => "corpora"@,
        AssetCategory::Rubric => "rubrics"@,
    }
}

impl AssetCategory {
    /// Returns the standard subdirectory name for this asset category.
    pub fn as_str(&self) -> (r: &'static str)
        ensures
            r@ == category_dir(*self),
    {
        match self {
            AssetCategory::Keyboard => "keyboards",
            AssetCategory::CostModel => "weights",
            AssetCategory::Keycodes => "config",
            AssetCategory::Corpus => "corpora",
            AssetCategory::Rubric => "rubrics",
        }
    }
}

/// Data that can be managed as a system or user asset.
pub trait Asset {
    /// The category of this asset type.
    fn category() -> AssetCategory;

    /// Default file extension of this asset type.
    fn default_extension() -> &'static str {
        "json"
    }

    /// Hook called after the asset is loaded, for validation or rebuilding lookups.
    fn post_load(&mut self) -> (r: Result<(), ForgeError>)
        default_ensures
            r is Ok,
    {
        Ok(())
    }
}

} // verus!
