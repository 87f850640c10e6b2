//! Domain model of the KeyForge keyboard-layout system: key identifiers,
//! biomechanical movement classification, fixed-point scoring, keycode
//! registries, keymap token parsing, layouts and keyboard geometry.

pub mod asset;
pub mod biometrics;
pub mod community;
pub mod config;
pub mod constants;
pub mod corpus;
pub mod cost_model;
pub mod error;
pub mod geometry;
pub mod keyboard;
pub mod keycodes;
pub mod layout;
pub mod mapping;
pub mod metrics;
pub mod parsing;
pub mod rubric;
pub mod serde_utils;
pub mod text;
pub mod types;
pub mod user;
pub mod utils;
pub mod validator;
