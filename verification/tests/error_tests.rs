use keyforge_model::error::{ForgeError, ModelError, PhysicsError};

#[test]
fn test_error_display() {
    assert!(ForgeError::Internal("test".into()).message().contains("Internal Error: test"));
    assert!(ModelError::Serialization("test".into()).message().contains("Serialization Failed: test"));
    assert!(PhysicsError::InvalidHandIndex(5).message().contains("Hand index 5 is invalid"));
    assert!(PhysicsError::InvalidFingerIndex(10).message().contains("Finger index 10 is invalid"));
    assert!(PhysicsError::DimensionMismatch { expected: 10, found: 5 }
        .message()
        .contains("expected 10, found 5"));
    assert!(PhysicsError::LayoutOverflow(10, 5).message().contains("exceeds physical key count"));
    assert!(PhysicsError::LayoutUnderflow(2, 5).message().contains("is insufficient"));
    assert!(PhysicsError::Config("test".into()).message().contains("Physics Config Error: test"));
    assert!(PhysicsError::Unimplemented("test".into()).message().contains("Not Implemented: test"));
}

#[test]
fn error_messages_are_exact() {
    assert_eq!(PhysicsError::InvalidHandIndex(5).message(), "Hand index 5 is invalid (must be 0 or 1)");
    assert_eq!(PhysicsError::LayoutUnderflow(2, 5).message(), "Layout size 2 is insufficient for physical key count 5");
    assert_eq!(ModelError::Parser("x".into()).message(), "Parser Error: x");
    assert_eq!(ModelError::Invariant("y".into()).message(), "Invariant Violation: y");
    assert_eq!(
        ForgeError::Physics(PhysicsError::InvalidFingerIndex(9)).message(),
        "Physics Violation: Finger index 9 is invalid (must be 0-4)"
    );
    assert_eq!(ForgeError::Model(ModelError::Parser("p".into())).message(), "Model Error: Parser Error: p");
    assert_eq!(ForgeError::NotFound("k".into()).message(), "Asset Not Found: k");
    assert_eq!(ForgeError::Io("disk".into()).message(), "IO Error: disk");
}

#[test]
fn error_conversions() {
    let e: ForgeError = String::from("bad").into();
    assert!(matches!(e, ForgeError::Validation(ref s) if s == "bad"));
    let p: ForgeError = PhysicsError::InvalidHandIndex(3).into();
    assert!(matches!(p, ForgeError::Physics(PhysicsError::InvalidHandIndex(3))));
    let m: ForgeError = ModelError::Invariant("i".into()).into();
    assert!(matches!(m, ForgeError::Model(ModelError::Invariant(_))));
}
