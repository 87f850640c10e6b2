//! Identifiers of users, keyboards, layouts and corpora.

use vstd::prelude::*;

verus! {

/// Identifier of a user.
pub type UserId = String;

/// Identifier of a keyboard.
pub type KeyboardId = String;

/// Identifier of a layout.
pub type LayoutId = String;

/// Identifier of a corpus.
pub type CorpusId = String;

} // verus!
