//! Top-level library entities: music folders and genres.

use vstd::prelude::*;

verus! {

/// A top-level music folder configured on the server.
#[derive(Debug, Clone)]
pub struct MusicFolder {
    /// The index number of the folder.
    pub id: usize,
    /// The name assigned to the folder.
    pub name: String,
}

impl MusicFolder {
    /// Builds a folder record from its parts.
    pub fn from(id: usize, name: String) -> (r: MusicFolder)
        ensures
            r.id == id,
            r.name == name,
    {
        MusicFolder { id, name }
    }
}

/// A genre, with how much of the library it covers.
#[derive(Debug, Clone)]
pub struct Genre {
    /// The name of the genre.
    pub name: String,
    /// The number of songs in the genre.
    pub song_count: u64,
    /// The number of albums in the genre.
    pub album_count: u64,
}

/// A description of the licence a server runs under.
#[derive(Debug, Clone)]
pub struct License {
    /// Whether the licence is valid.
    pub valid: bool,
    /// The email the licence is registered to.
    pub email: String,
    /// When the server's trial ends, as a timestamp string.
    pub trial_expires: Option<String>,
    /// When the licence ends, as a timestamp string; servers still in
    /// their trial typically have none.
    pub license_expires: Option<String>,
}

} // verus!
