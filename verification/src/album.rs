//! Albums and album listings.

use vstd::prelude::*;
use vstd::string::StringExecFns;

use crate::numeral::dec_of;
use crate::query::{Arg, IntoArg, Query};
use crate::search::SearchPage;
use crate::song::Song;

verus! {

/// The orderings an album listing can be requested in.
#[allow(missing_docs)]
#[derive(Debug, Clone, Copy, PartialEq, Eq, Structural)]
pub enum ListType {
    AlphaByArtist,
    AlphaByName,
    Frequent,
    Highest,
    Newest,
    Random,
    Recent,
    Starred,
}

/// The wire name of a listing order.
pub open spec fn list_type_chars(t: ListType) -> Seq<char> {
    match t {
        ListType::AlphaByArtist => "alphabeticalByArtist"@,
        ListType::AlphaByName => "alphabeticalByName"@,
        ListType::Frequent => "frequent"@,
        ListType::Highest => "highest"@,
        ListType::Newest => "newest"@,
        ListType::Random => "random"@,
        ListType::Recent => "recent"@,
        ListType::Starred => "starred"@,
    }
}

impl ListType {
    /// The listing order's wire name.
    pub fn as_str(&self) -> (r: &'static str)
        ensures
            r@ == list_type_chars(*self),
    {
        match *self {
            ListType::AlphaByArtist => "alphabeticalByArtist",
            ListType::AlphaByName => "alphabeticalByName",
            ListType::Frequent => "frequent",
            ListType::Highest => "highest",
            ListType::Newest => "newest",
            ListType::Random => "random",
            ListType::Recent => "recent",
            ListType::Starred => "starred",
        }
    }
}

impl Default for ListType {
    /// Listings default to alphabetical by artist.
    fn default() -> (r: ListType)
        ensures
            r == ListType::AlphaByArtist,
    {
        ListType::AlphaByArtist
    }
}

impl IntoArg for ListType {
    open spec fn arg_view(self) -> Option<Seq<char>> {
        Some(list_type_chars(self))
    }

    fn into_arg(self) -> (r: Arg) {
        Arg(Some(self.as_str().to_owned()))
    }

    fn as_arg(&self) -> (r: Arg) {
        Arg(Some(self.as_str().to_owned()))
    }
}

/// An album, as the server reports it; the song list is filled only by
/// calls that ask for it.
#[allow(missing_docs)]
#[derive(Debug, Clone)]
pub struct Album {
    pub id: String,
    pub name: String,
    pub artist: Option<String>,
    pub artist_id: Option<String>,
    pub cover_id: Option<String>,
    pub duration: u64,
    pub year: Option<u64>,
    pub genre: Option<String>,
    pub song_count: u64,
    pub songs: Vec<Song>,
}

/// The one-line description of an album: artist (with a placeholder
/// when unknown), name, and the year when known.
pub open spec fn album_display_chars(a: Album) -> Seq<char> {
    (match a.artist {
        Some(s) => s@ + " - "@,
        None => "Unknown Artist - "@,
    }) + a.name@ + (match a.year {
        Some(y) => " ["@ + dec_of(y as nat) + "] "@,
        None => Seq::<char>::empty(),
    })
}

impl Album {
    /// Whether the album has associated cover art.
    pub fn has_cover_art(&self) -> (r: bool)
        ensures
            r == (self.cover_id is Some),
    {
        self.cover_id.is_some()
    }

    /// The identifier of the album's cover art, when there is one.
    pub fn cover_id(&self) -> (r: Option<&str>)
        ensures
            r matches Some(c) <==> self.cover_id is Some,
            r matches Some(c) ==> c@ == self.cover_id->0@,
    {
        match &self.cover_id {
            Some(c) => Some(c.as_str()),
            None => None,
        }
    }

    /// Whether the album already carries every song the server counts
    /// for it, so a song listing needs no further call.
    pub fn songs_complete(&self) -> (r: bool)
        ensures
            r == (self.songs@.len() == self.song_count),
    {
        self.songs.len() as u64 == self.song_count
    }

    /// The one-line description of the album.
    pub fn display_string(&self) -> (r: String)
        ensures
            r@ == album_display_chars(*self),
    {
        let mut out: String;
        match &self.artist {
            Some(a) => {
                out = a.clone();
                out.append(" - ");
            },
            None => {
                out = String::from_str("Unknown Artist - ");
            },
        }
        out.append(self.name.as_str());
        match self.year {
            Some(y) => {
                out.append(" [");
                out.append(crate::numeral::u64_to_string(y).as_str());
                out.append("] ");
            },
            None => {},
        }
        proof {
            reveal_strlit(" - ");
            reveal_strlit("Unknown Artist - ");
            reveal_strlit(" [");
            reveal_strlit("] ");
            assert(out@ =~= album_display_chars(*self));
        }
        out
    }

    /// The arguments of an album listing: the ordering, the paging
    /// cursor as size and offset, and the folder to look in when one is
    /// named.
    pub fn list_args(list_type: ListType, page: SearchPage, folder_id: Option<usize>) -> (q: Query)
        ensures
            q@ =~= seq![
                ("type"@, Some(list_type_chars(list_type))),
                ("size"@, Some(dec_of(page.count as nat))),
                ("offset"@, Some(dec_of(page.offset as nat))),
                ("musicFolderId"@, folder_id.arg_view()),
            ],
    {
        let mut q = Query::new();
        q.arg("type", list_type);
        q.arg("size", page.count);
        q.arg("offset", page.offset);
        q.arg("musicFolderId", folder_id);
        q.build()
    }
}

/// Detailed information about an album, as last.fm reports it.
#[allow(missing_docs)]
#[derive(Debug)]
pub struct AlbumInfo {
    pub notes: String,
    pub lastfm_url: String,
    pub musicbrainz_id: String,
    /// Image addresses in small, medium and large.
    pub image_urls: (String, String, String),
}

} // verus!
