//! Limits and fixed scales shared across the model.

use vstd::prelude::*;

verus! {

/// Maximum number of keys allowed in a keyboard definition.
pub const MAX_KEYBOARD_KEYS: usize = 200;

/// Maximum number of keys in a layout (must match the keyboard).
pub const MAX_LAYOUT_KEYS: usize = 200;

/// Maximum number of pinned keys allowed.
pub const MAX_PINNED_KEYS_COUNT: usize = 200;

/// Maximum length of a keyboard definition name, in bytes.
pub const MAX_KEYBOARD_NAME_LEN: usize = 100;

/// Maximum length of a layout name, in bytes.
pub const MAX_LAYOUT_NAME_LEN: usize = 64;

/// Minimum length of a layout name, in bytes.
pub const MIN_LAYOUT_NAME_LEN: usize = 2;

/// Maximum length of a filename (e.g. a cost matrix), in bytes.
pub const MAX_FILENAME_LEN: usize = 255;

/// Maximum length of a generic identifier, in bytes.
pub const MAX_ID_LEN: usize = 64;

/// The total addressable space for key codes.
pub const MAX_KEYCODE_SPACE: usize = 65536;

/// Maximum number of items in a deserialized vector.
pub const MAX_TRANSPORT_VECTOR_ITEMS: usize = 100_000;

/// Similarity to a reference layout above which a layout is said to be that layout,
/// as a score (0.5).
pub const IDENTIFY_SIMILARITY_THRESHOLD: i64 = 500_000;

/// Default row difference at which a same-finger bigram counts as long.
pub const DEFAULT_THRESHOLD_SFB_LONG_ROW_DIFF: i8 = 2;

/// Default row difference at which an adjacent-finger bigram counts as a scissor.
pub const DEFAULT_THRESHOLD_SCISSOR_ROW_DIFF: i8 = 2;

} // verus!
