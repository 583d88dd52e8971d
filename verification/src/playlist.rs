//! Playlists.

use vstd::prelude::*;

use crate::query::{IntoArg, Query};
use crate::song::Song;

verus! {

/// A playlist, as the server reports it; the song list is filled only
/// by calls that ask for it.
#[allow(missing_docs)]
#[derive(Debug, Clone)]
pub struct Playlist {
    pub id: String,
    pub name: String,
    pub duration: u64,
    pub cover_id: String,
    pub song_count: u64,
    pub songs: Vec<Song>,
}

impl Playlist {
    /// Whether the playlist already carries every song the server
    /// counts for it, so a song listing needs no further call.
    pub fn songs_complete(&self) -> (r: bool)
        ensures
            r == (self.songs@.len() == self.song_count),
    {
        self.songs.len() as u64 == self.song_count
    }
}

/// The arguments that create a playlist: its name, then one `songId`
/// pair per song, in the order given.
pub fn create_playlist_args(name: String, songs: &[u64]) -> (q: Query)
    ensures
        q@ =~= seq![("name"@, Some(name@))] + Seq::new(
            songs@.len(),
            |i: int| ("songId"@, songs@[i].arg_view()),
        ),
{
    let mut q = Query::new();
    q.arg("name", name);
    q.arg_list("songId", songs);
    q.build()
}

/// The argument that deletes a playlist: its identifier.
pub fn delete_playlist_args(id: String) -> (q: Query)
    ensures
        q@ =~= seq![("id"@, Some(id@))],
{
    Query::with("id", id)
}

} // verus!
