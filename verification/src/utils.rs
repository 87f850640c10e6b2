//! Small shared helpers.

pub use crate::serde_utils::is_none;
