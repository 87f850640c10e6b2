//! Error types of the domain model, each with the message it renders.

use vstd::prelude::*;
use vstd::string::*;
use crate::text::{decimal, u64_to_decimal};

verus! {

/// The central error type of the domain model.
#[derive(Debug)]
pub enum ForgeError {
    /// Physics calculation error from the compute kernel.
    PhysicsCompute(String),
    /// Error from the evolution engine.
    Evolution(String),
    /// Error from the persistence layer.
    Persistence(String),
    /// Data validation error (business rule violation).
    Validation(String),
    /// Resource not found.
    NotFound(String),
    /// Internal system error.
    Internal(String),
    /// Invalid data format or content.
    InvalidData(String),
    /// Error from (de)serialization, carried as text.
    Serde(String),
    /// Error from component serialization.
    Serialization(String),
    /// Configuration error.
    Config(String),
    /// Input/output error carried as text.
    Io(String),
    /// Error during data projection.
    Projection(String),
    /// Error from the physics engine.
    Physics(PhysicsError),
    /// Error from the model logic itself.
    Model(ModelError),
    /// Infrastructure failure carried as text.
    Infrastructure(String),
}

/// Errors related to core model logic and integrity.
#[derive(Debug, PartialEq)]
pub enum ModelError {
    /// Failed to serialize a component.
    Serialization(String),
    /// Failed to parse a keymap or key action.
    Parser(String),
    /// An invariant of the domain model was violated.
    Invariant(String),
}

/// Errors related to physical constraints and scoring.
#[derive(Debug, PartialEq)]
pub enum PhysicsError {
    /// Hand index out of bounds (must be 0 or 1).
    InvalidHandIndex(u8),
    /// Finger index out of bounds (must be 0-4).
    InvalidFingerIndex(u8),
    /// Matrix dimensions do not match expected values.
    DimensionMismatch { expected: usize, found: usize },
    /// Layout has more keys than the keyboard.
    LayoutOverflow(usize, usize),
    /// Layout has fewer keys than the keyboard.
    LayoutUnderflow(usize, usize),
    /// Configuration error in the physics engine.
    Config(String),
    /// Feature not implemented.
    Unimplemented(String),
}

/// The message of a model error.
pub open spec fn model_error_message(e: ModelError) -> Seq<char> {
    match e {
        ModelError::Serialization(s) => "Serialization Failed: "@ + s@,
        ModelError::Parser(s) => "Parser Error: "@ + s@,
        ModelError::Invariant(s) => "Invariant Violation: "@ + s@,
    }
}

/// The message of a physics error.
pub open spec fn physics_error_message(e: PhysicsError) -> Seq<char> {
    match e {
        PhysicsError::InvalidHandIndex(h) => "Hand index "@ + decimal(h as int) + " is invalid (must be 0 or 1)"@,
        PhysicsError::InvalidFingerIndex(f) => "Finger index "@ + decimal(f as int) + " is invalid (must be 0-4)"@,
        PhysicsError::DimensionMismatch { expected, found } => "Matrix dimension mismatch: expected "@
            + decimal(expected as int) + ", found "@ + decimal(found as int),
        PhysicsError::LayoutOverflow(a, b) => "Layout size "@ + decimal(a as int)
            + " exceeds physical key count "@ + decimal(b as int),
        PhysicsError::LayoutUnderflow(a, b) => "Layout size "@ + decimal(a as int)
            + " is insufficient for physical key count "@ + decimal(b as int),
        PhysicsError::Config(s) => "Physics Config Error: "@ + s@,
        PhysicsError::Unimplemented(s) => "Not Implemented: "@ + s@,
    }
}

/// The message of a domain error.
pub open spec fn forge_error_message(e: ForgeError) -> Seq<char> {
    match e {
        ForgeError::PhysicsCompute(s) => "Physics Compute Error: "@ + s@,
        ForgeError::Evolution(s) => "Evolution Error: "@ + s@,
        ForgeError::Persistence(s) => "Persistence Error: "@ + s@,
        ForgeError::Validation(s) => "Validation Error: "@ + s@,
        ForgeError::NotFound(s) => "Asset Not Found: "@ + s@,
        ForgeError::Internal(s) => "Internal Error: "@ + s@,
        ForgeError::InvalidData(s) => "Invalid Data: "@ + s@,
        ForgeError::Serde(s) => "Serde Error: "@ + s@,
        ForgeError::Serialization(s) => "Serialization Error: "@ + s@,
        ForgeError::Config(s) => "Configuration Error: "@ + s@,
        ForgeError::Io(s) => "IO Error: "@ + s@,
        ForgeError::Projection(s) => "Projection Error: "@ + s@,
        ForgeError::Physics(p) => "Physics Violation: "@ + physics_error_message(p),
        ForgeError::Model(m) => "Model Error: "@ + model_error_message(m),
        ForgeError::Infrastructure(s) => "Infrastructure Failure: "@ + s@,
    }
}

/// `prefix` followed by `s`, as a new string.
fn prefixed(prefix: &str, s: &str) -> (r: String)
    ensures
        r@ == prefix@ + s@,
{
    let mut m = String::from_str(prefix);
    m.append(s);
    m
}

impl ModelError {
    /// The human-readable message of the error.
    pub fn message(&self) -> (r: String)
        ensures
            r@ == model_error_message(*self),
    {
        match self {
            ModelError::Serialization(s) => prefixed("Serialization Failed: ", s.as_str()),
            ModelError::Parser(s) => prefixed("Parser Error: ", s.as_str()),
            ModelError::Invariant(s) => prefixed("Invariant Violation: ", s.as_str()),
        }
    }
}

impl PhysicsError {
    /// The human-readable message of the error.
    pub fn message(&self) -> (r: String)
        ensures
            r@ == physics_error_message(*self),
    {
        match self {
            PhysicsError::InvalidHandIndex(h) => {
                let mut m = String::from_str("Hand index ");
                m.append(u64_to_decimal(*h as u64).as_str());
                m.append(" is invalid (must be 0 or 1)");
                m
            },
            PhysicsError::InvalidFingerIndex(f) => {
                let mut m = String::from_str("Finger index ");
                m.append(u64_to_decimal(*f as u64).as_str());
                m.append(" is invalid (must be 0-4)");
                m
            },
            PhysicsError::DimensionMismatch { expected, found } => {
                let mut m = String::from_str("Matrix dimension mismatch: expected ");
                m.append(u64_to_decimal(*expected as u64).as_str());
                m.append(", found ");
                m.append(u64_to_decimal(*found as u64).as_str());
                m
            },
            PhysicsError::LayoutOverflow(a, b) => {
                let mut m = String::from_str("Layout size ");
                m.append(u64_to_decimal(*a as u64).as_str());
                m.append(" exceeds physical key count ");
                m.append(u64_to_decimal(*b as u64).as_str());
                m
            },
            PhysicsError::LayoutUnderflow(a, b) => {
                let mut m = String::from_str("Layout size ");
                m.append(u64_to_decimal(*a as u64).as_str());
                m.append(" is insufficient for physical key count ");
                m.append(u64_to_decimal(*b as u64).as_str());
                m
            },
            PhysicsError::Config(s) => prefixed("Physics Config Error: ", s.as_str()),
            PhysicsError::Unimplemented(s) => prefixed("Not Implemented: ", s.as_str()),
        }
    }
}

impl ForgeError {
    /// The human-readable message of the error.
    pub fn message(&self) -> (r: String)
        ensures
            r@ == forge_error_message(*self),
    {
        match self {
            ForgeError::PhysicsCompute(s) => prefixed("Physics Compute Error: ", s.as_str()),
            ForgeError::Evolution(s) => prefixed("Evolution Error: ", s.as_str()),
            ForgeError::Persistence(s) => prefixed("Persistence Error: ", s.as_str()),
            ForgeError::Validation(s) => prefixed("Validation Error: ", s.as_str()),
            ForgeError::NotFound(s) => prefixed("Asset Not Found: ", s.as_str()),
            ForgeError::Internal(s) => prefixed("Internal Error: ", s.as_str()),
            ForgeError::InvalidData(s) => prefixed("Invalid Data: ", s.as_str()),
            ForgeError::Serde(s) => prefixed("Serde Error: ", s.as_str()),
            ForgeError::Serialization(s) => prefixed("Serialization Error: ", s.as_str()),
            ForgeError::Config(s) => prefixed("Configuration Error: ", s.as_str()),
            ForgeError::Io(s) => prefixed("IO Error: ", s.as_str()),
            ForgeError::Projection(s) => prefixed("Projection Error: ", s.as_str()),
            ForgeError::Physics(p) => {
                let inner = p.message();
                prefixed("Physics Violation: ", inner.as_str())
            },
            ForgeError::Model(m) => {
                let inner = m.message();
                prefixed("Model Error: ", inner.as_str())
            },
            ForgeError::Infrastructure(s) => prefixed("Infrastructure Failure: ", s.as_str()),
        }
    }
}

impl From<String> for ForgeError {
    /// A bare message is a validation error.
    fn from(s: String) -> (r: Self) {
        ForgeError::Validation(s)
    }
}

impl vstd::std_specs::convert::FromSpecImpl<String> for ForgeError {
    open spec fn obeys_from_spec() -> bool {
        true
    }

    open spec fn from_spec(s: String) -> Self {
        ForgeError::Validation(s)
    }
}

impl From<PhysicsError> for ForgeError {
    fn from(e: PhysicsError) -> (r: Self) {
        ForgeError::Physics(e)
    }
}

impl vstd::std_specs::convert::FromSpecImpl<PhysicsError> for ForgeError {
    open spec fn obeys_from_spec() -> bool {
        true
    }

    open spec fn from_spec(e: PhysicsError) -> Self {
        ForgeError::Physics(e)
    }
}

impl From<ModelError> for ForgeError {
    fn from(e: ModelError) -> (r: Self) {
        ForgeError::Model(e)
    }
}

impl vstd::std_specs::convert::FromSpecImpl<ModelError> for ForgeError {
    open spec fn obeys_from_spec() -> bool {
        true
    }

    open spec fn from_spec(e: ModelError) -> Self {
        ForgeError::Model(e)
    }
}

} // verus!
