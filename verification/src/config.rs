//! Configuration: key constraints, engine and network settings, parameter
//! metadata, data sources and scoring weight defaults.

pub mod aggregate;
pub mod constraints;
pub mod definitions;
pub mod engine;
pub mod lists;
pub mod metadata;
pub mod network;
pub mod search;
pub mod source;
pub mod utils;
pub mod weights;

pub use aggregate::ProjectMeta;
pub use constraints::KeyConstraint;
pub use definitions::LayoutDefinitions;
pub use engine::EngineConfig;
pub use metadata::{ParamType, ParameterMetadata};
pub use network::CorsConfig;
pub use search::{SearchConfig, SearchParams};
pub use source::CostMatrixSource;
pub use weights::ScoringWeights;
