//! Metadata describing tunable parameters.

use vstd::prelude::*;
use vstd::string::*;
use crate::types::Score;

verus! {

/// The type of a tunable parameter.
#[derive(Debug, Clone, Copy, PartialEq, Eq, Structural)]
pub enum ParamType {
    /// Floating point number.
    Float,
    /// Integer number.
    Integer,
    /// Boolean toggle (mapped to 0.0/1.0).
    Boolean,
}

/// Description of a tunable parameter, for editors and forms.
#[derive(Debug, Clone)]
pub struct ParameterMetadata {
    /// Internal key name.
    pub key: String,
    /// User-friendly label.
    pub label: String,
    /// Helpful description.
    pub description: String,
    /// Data type.
    pub param_type: ParamType,
    /// Minimum value, if numeric.
    pub min: Option<Score>,
    /// Maximum value, if numeric.
    pub max: Option<Score>,
    /// Default value.
    pub default: Score,
}

/// The raw value of an optional score.
pub open spec fn opt_raw(s: Option<Score>) -> Option<i64> {
    match s {
        Some(v) => Some(v@),
        None => None,
    }
}

/// A parameter description as plain values: (key, label, description, type, raw
/// minimum, raw maximum, raw default).
pub open spec fn metadata_view(m: ParameterMetadata) -> (Seq<char>, Seq<char>, Seq<char>, ParamType, Option<i64>, Option<i64>, i64) {
    (m.key@, m.label@, m.description@, m.param_type, opt_raw(m.min), opt_raw(m.max), m.default@)
}

/// The descriptions of a list of parameters, as plain values.
pub open spec fn metadata_views(v: Seq<ParameterMetadata>) -> Seq<(Seq<char>, Seq<char>, Seq<char>, ParamType, Option<i64>, Option<i64>, i64)> {
    v.map_values(|m: ParameterMetadata| metadata_view(m))
}

/// A numeric parameter description with a minimum and a maximum.
pub(crate) fn numeric_param(key: &str, label: &str, description: &str, param_type: ParamType, min: i64, max: i64, default: i64) -> (r: ParameterMetadata)
    ensures
        metadata_view(r) == (key@, label@, description@, param_type, Some(min), Some(max), default),
{
    ParameterMetadata {
        key: String::from_str(key),
        label: String::from_str(label),
        description: String::from_str(description),
        param_type,
        min: Some(Score::from_scaled_i64(min)),
        max: Some(Score::from_scaled_i64(max)),
        default: Score::from_scaled_i64(default),
    }
}

} // verus!
