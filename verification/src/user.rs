//! User profiles and preferences.

use vstd::prelude::*;
use vstd::string::*;
use crate::types::{SpaceHandPreference, UserId};

verus! {

/// A user's profile.
#[derive(Debug, Clone)]
pub struct UserProfile {
    /// Unique identifier of the user.
    pub id: UserId,
    /// Display name.
    pub name: String,
    /// System and optimization preferences.
    pub preferences: UserPreferences,
    /// State of the user's biometric data.
    pub biometric_status: UserBiometricStatus,
}

/// A user's preferences.
#[derive(Debug, Clone)]
pub struct UserPreferences {
    /// Preferred hand for the space bar.
    pub space_hand: SpaceHandPreference,
    /// Whether to use the personal biometric profile by default.
    pub use_personal_biometrics: bool,
    /// UI theme.
    pub theme: String,
}

/// How far biometric data collection has come.
#[derive(Debug, Clone, Copy, PartialEq, Eq, Structural)]
pub enum UserBiometricStatus {
    /// No data collected yet.
    Empty,
    /// Collection in progress, not yet enough for a profile.
    Collecting,
    /// Enough data to generate a profile.
    Ready,
    /// A profile is generated and active.
    Active,
}

impl Default for UserBiometricStatus {
    fn default() -> (r: Self)
        ensures
            r == UserBiometricStatus::Empty,
    {
        UserBiometricStatus::Empty
    }
}

impl Default for UserPreferences {
    /// Both hands on the space bar, no personal biometrics, no theme.
    fn default() -> (r: Self)
        ensures
            r.space_hand == SpaceHandPreference::Bilateral,
            !r.use_personal_biometrics,
            r.theme@.len() == 0,
    {
        UserPreferences {
            space_hand: SpaceHandPreference::default(),
            use_personal_biometrics: false,
            theme: String::new(),
        }
    }
}

/// The theme a stored profile gets when it names none.
pub fn default_theme() -> (r: String)
    ensures
        r@ == "system"@,
{
    String::from_str("system")
}

impl UserProfile {
    /// A new profile with default preferences and no biometric data.
    pub fn new(id: UserId, name: String) -> (r: Self)
        ensures
            r.id == id,
            r.name == name,
            r.preferences.space_hand == SpaceHandPreference::Bilateral,
            !r.preferences.use_personal_biometrics,
            r.preferences.theme@.len() == 0,
            r.biometric_status == UserBiometricStatus::Empty,
    {
        UserProfile {
            id,
            name,
            preferences: UserPreferences::default(),
            biometric_status: UserBiometricStatus::Empty,
        }
    }
}

} // verus!
