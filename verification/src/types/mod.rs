//! Core domain types and newtypes.

pub mod biomechanical;
pub mod fraction;
pub mod geometry;
pub mod ids;
pub mod indices;
pub mod math;
pub mod newtypes;
pub mod path;
pub mod results;
pub mod scoring;

pub use biomechanical::{Finger, FingerIndex, Hand, HandIndex, Movement, SpaceHandPreference, TrigramFlow};
pub use fraction::Fraction;
pub use geometry::{ColIndex, RowIndex};
pub use ids::{CorpusId, KeyboardId, LayoutId, UserId};
pub use results::{MetricViolation, OptimizationResult, ScoringResult, SwapSuggestion};
pub use indices::{KeyCode, KeyIndex};
pub use math::{Point, SpatialUnit};
pub use path::{PathError, SafePath};
pub use newtypes::{DurationMs, IterationCount, PatienceCount, ReheatCount, ScalingFactor, Seed};
pub use scoring::{FixedWeight, Score};
