//! Information about currently playing media.

use vstd::prelude::*;

verus! {

/// What one user is playing right now: the identity of the media, who
/// is streaming it, and how stale the report is.
#[derive(Debug, Clone)]
pub struct NowPlaying {
    /// The user streaming the media.
    pub user: String,
    /// How many minutes ago the user last reported progress.
    pub minutes_ago: usize,
    /// The identifier of the player.
    pub player_id: usize,
    /// The identifier of the media.
    pub id: usize,
    /// Whether the media is a video rather than a song.
    pub is_video: bool,
}

impl NowPlaying {
    /// Returns `true` when the playing media is a song.
    pub fn is_song(&self) -> (r: bool)
        ensures
            r == !self.is_video,
    {
        !self.is_video
    }

    /// Returns `true` when the playing media is a video.
    pub fn is_video(&self) -> (r: bool)
        ensures
            r == self.is_video,
    {
        self.is_video
    }
}

} // verus!
