//! A point-in-time read of what the media player reports.

use vstd::prelude::*;

verus! {

/// What the player is doing.
#[derive(Clone, Copy, Debug, PartialEq, Eq)]
pub enum PlaybackStatus {
    Playing,
    Paused,
    Stopped,
}

/// One snapshot of the player, fetched anew for every refresh and dropped after
/// the draw it feeds. A field the player did not report is `None`; that is a
/// legitimate value, and each draw operation says what it does without it.
#[derive(Debug, PartialEq, Eq)]
pub struct PlayerSnapshot {
    pub title: Option<String>,
    pub artists: Option<Vec<String>>,
    pub album: Option<String>,
    pub cover_art_path: Option<String>,
    pub status: PlaybackStatus,
}

} // verus!
