//! Podcast channels and their episodes.

use vstd::prelude::*;

verus! {

/// A podcast channel the server subscribes to.
#[allow(missing_docs)]
#[derive(Debug, Clone)]
pub struct Podcast {
    pub id: usize,
    pub url: String,
    pub title: String,
    pub description: String,
    pub cover_art: String,
    pub image_url: String,
    pub status: String,
    pub episodes: Vec<Episode>,
    pub error: Option<String>,
}

/// One episode of a podcast channel.
#[allow(missing_docs)]
#[derive(Debug, Clone)]
pub struct Episode {
    pub id: usize,
    pub parent: usize,
    pub is_dir: bool,
    pub title: String,
    pub album: String,
    pub artist: String,
    pub year: usize,
    pub cover_art: String,
    pub size: usize,
    pub content_type: String,
    pub suffix: String,
    pub duration: usize,
    pub bitrate: usize,
    pub is_video: bool,
    pub created: String,
    pub artist_id: String,
    pub media_type: String,
    pub stream_id: String,
    pub channel_id: String,
    pub description: String,
    pub status: String,
    pub publish_date: String,
}

} // verus!
