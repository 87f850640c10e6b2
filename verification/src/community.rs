//! Records shared between users: submissions, inventories and analysis sessions.

use vstd::prelude::*;
use crate::layout::Layout;
use crate::types::{CorpusId, KeyboardId, LayoutId, Score, UserId};

verus! {

/// A layout submitted to the community.
#[derive(Debug, Clone)]
pub struct LayoutSubmission {
    /// Unique identifier of the submission.
    pub id: String,
    /// The user who submitted it.
    pub author_id: UserId,
    /// The keyboard it targets.
    pub keyboard_id: KeyboardId,
    /// The key mapping.
    pub layout: Layout,
    /// Score at the time of submission.
    pub score: Score,
    /// Community tags (e.g. "ergonomic").
    pub tags: Vec<String>,
    /// Creation time.
    pub created_at: u64,
}

/// The keyboards a user has.
#[derive(Debug, Clone)]
pub struct KeyboardInventory {
    /// Keyboard IDs.
    pub keyboards: Vec<KeyboardId>,
    /// Last synchronization time with the system repository.
    pub last_sync: u64,
}

impl Default for KeyboardInventory {
    fn default() -> (r: Self)
        ensures
            r.keyboards@.len() == 0,
            r.last_sync == 0,
    {
        KeyboardInventory { keyboards: Vec::new(), last_sync: 0 }
    }
}

/// A series of layouts analyzed by a user.
#[derive(Debug, Clone)]
pub struct AnalysisSession {
    /// Unique identifier of the session.
    pub id: String,
    /// The user running the session.
    pub user_id: UserId,
    /// The target keyboard.
    pub keyboard_id: KeyboardId,
    /// The target corpus.
    pub corpus_id: CorpusId,
    /// The layouts analyzed, in order.
    pub history: Vec<AnalysisSessionEntry>,
}

/// One analyzed layout.
#[derive(Debug, Clone)]
pub struct AnalysisSessionEntry {
    /// The layout identifier.
    pub layout_id: LayoutId,
    /// The score achieved.
    pub score: Score,
    /// When it was analyzed.
    pub timestamp: u64,
}

} // verus!
