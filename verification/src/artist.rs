//! Artists and what last.fm knows about them.

use vstd::prelude::*;
use vstd::string::StringExecFns;

use crate::album::Album;
use crate::query::{IntoArg, Query};

verus! {

/// Basic information about an artist; the album list is filled only by
/// calls that ask for it.
#[allow(missing_docs)]
#[derive(Debug, Clone)]
pub struct Artist {
    pub id: usize,
    pub name: String,
    pub cover_id: Option<String>,
    pub albums: Vec<Album>,
    pub album_count: usize,
}

impl Artist {
    /// Whether the artist has an associated cover image.
    pub fn has_cover_art(&self) -> (r: bool)
        ensures
            r == (self.cover_id is Some),
    {
        self.cover_id.is_some()
    }

    /// The identifier of the artist's cover image, when there is one.
    pub fn cover_id(&self) -> (r: Option<&str>)
        ensures
            r matches Some(c) <==> self.cover_id is Some,
            r matches Some(c) ==> c@ == self.cover_id->0@,
    {
        match &self.cover_id {
            Some(c) => Some(c.as_str()),
            None => None,
        }
    }

    /// Whether the artist already carries every album the server counts
    /// for them, so an album listing needs no further call.
    pub fn albums_complete(&self) -> (r: bool)
        ensures
            r == (self.albums@.len() == self.album_count),
    {
        self.albums.len() == self.album_count
    }

    /// The arguments of a similar-artists lookup: this artist, an
    /// optional cap on the number of results, and whether artists absent
    /// from the library count.
    pub fn similar_args(&self, count: Option<usize>, include_not_present: Option<bool>) -> (q:
        Query)
        ensures
            q@ =~= seq![
                ("id"@, Some(crate::numeral::dec_of(self.id as nat))),
                ("count"@, count.arg_view()),
                ("includeNotPresent"@, include_not_present.arg_view()),
            ],
    {
        let mut q = Query::with("id", self.id);
        q.arg("count", count);
        q.arg("includeNotPresent", include_not_present);
        q.build()
    }

    /// The arguments of a top-songs lookup: this artist and an optional
    /// cap on the number of results.
    pub fn top_songs_args(&self, count: Option<usize>) -> (q: Query)
        ensures
            q@ =~= seq![
                ("id"@, Some(crate::numeral::dec_of(self.id as nat))),
                ("count"@, count.arg_view()),
            ],
    {
        let mut q = Query::with("id", self.id);
        q.arg("count", count);
        q.build()
    }
}

/// Detailed information about an artist, as last.fm reports it.
#[derive(Debug)]
pub struct ArtistInfo {
    /// A blurb about the artist.
    pub biography: String,
    /// The artist's MusicBrainz identifier.
    pub musicbrainz_id: String,
    /// The artist's last.fm landing page.
    pub lastfm_url: String,
    /// Image addresses in small, medium and large.
    pub image_urls: (String, String, String),
    /// Artists similar to this one.
    pub similar_artists: Vec<Artist>,
}

} // verus!
