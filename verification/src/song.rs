//! Songs and lyrics.

use vstd::prelude::*;
use vstd::string::StringExecFns;

use crate::client::{built_url_ok, Client};
use crate::error::Error;
use crate::numeral::dec_of;
use crate::query::{IntoArg, Query};
use crate::search::SearchPage;

verus! {

/// A work of music on the server, together with the streaming options
/// chosen for it.
#[derive(Debug, Clone)]
pub struct Song {
    /// Unique identifier for the song.
    pub id: String,
    /// Title of the song.
    pub title: String,
    /// Album the song belongs to.
    pub album: Option<String>,
    /// The identifier of the released album.
    pub album_id: Option<String>,
    /// Credited artist for the song.
    pub artist: Option<String>,
    /// The identifier of the releasing artist.
    pub artist_id: Option<String>,
    /// Position of the song in the album.
    pub track: Option<u64>,
    /// Year the song was released.
    pub year: Option<u64>,
    /// Genre of the song.
    pub genre: Option<String>,
    /// Identifier of the song's cover art.
    pub cover_id: Option<String>,
    /// File size of the song, in bytes.
    pub size: u64,
    /// An audio MIME type.
    pub content_type: String,
    /// The file extension of the song.
    pub suffix: String,
    /// The MIME type the song will be transcoded to.
    pub transcoded_content_type: Option<String>,
    /// The file extension the song will be transcoded to.
    pub transcoded_suffix: Option<String>,
    /// Duration of the song, in seconds.
    pub duration: Option<u64>,
    /// The absolute path of the song in the server database.
    pub path: String,
    /// Always `song`.
    pub media_type: String,
    /// The bit rate the song will be downsampled to when streaming.
    pub stream_br: Option<usize>,
    /// The format the song will be transcoded to when streaming.
    pub stream_tc: Option<String>,
}

/// The one-line description of a song: artist, album, optional year,
/// and title.
pub open spec fn song_display_chars(s: Song) -> Seq<char> {
    (match s.artist {
        Some(a) => a@ + " - "@,
        None => "Unknown Artist - "@,
    }) + (match s.album {
        Some(a) => a@,
        None => "Unknown Album"@,
    }) + (match s.year {
        Some(y) => " ["@ + dec_of(y as nat) + seq![']'],
        None => Seq::<char>::empty(),
    }) + " - "@ + s.title@
}

impl Song {
    /// The encoding a stream of the song will arrive in: the transcoded
    /// MIME type when the server will transcode, the original one
    /// otherwise.
    pub fn encoding(&self) -> (r: &str)
        ensures
            self.transcoded_content_type matches Some(t) ==> r@ == t@,
            self.transcoded_content_type is None ==> r@ == self.content_type@,
    {
        match &self.transcoded_content_type {
            Some(t) => t.as_str(),
            None => self.content_type.as_str(),
        }
    }

    /// Sets the maximum bit rate the song will stream at, in Kbps. Zero
    /// removes the limit.
    pub fn set_max_bit_rate(&mut self, bit_rate: usize)
        ensures
            final(self).stream_br == Some(bit_rate),
            *final(self) == (Song { stream_br: Some(bit_rate), ..*old(self) }),
    {
        self.stream_br = Some(bit_rate);
    }

    /// Sets the format the song will be transcoded to when streaming.
    pub fn set_transcoding(&mut self, format: &str)
        ensures
            final(self).stream_tc matches Some(t) && t@ == format@,
            *final(self) == (Song { stream_tc: final(self).stream_tc, ..*old(self) }),
    {
        self.stream_tc = Some(format.to_owned());
    }

    /// Whether the song has associated cover art.
    pub fn has_cover_art(&self) -> (r: bool)
        ensures
            r == (self.cover_id is Some),
    {
        self.cover_id.is_some()
    }

    /// The identifier of the song's cover art, when there is one.
    pub fn cover_id(&self) -> (r: Option<&str>)
        ensures
            r matches Some(c) <==> self.cover_id is Some,
            r matches Some(c) ==> c@ == self.cover_id->0@,
    {
        match &self.cover_id {
            Some(c) => Some(c.as_str()),
            None => None,
        }
    }

    /// The one-line description of the song: artist and album (with
    /// placeholders when unknown), the year when known, and the title.
    pub fn display_string(&self) -> (r: String)
        ensures
            r@ == song_display_chars(*self),
    {
        let mut out: String;
        match &self.artist {
            Some(a) => {
                out = a.clone();
                out.append(" - ");
            },
            None => {
                out = String::from_str("Unknown Artist - ");
            },
        }
        match &self.album {
            Some(a) => out.append(a.as_str()),
            None => out.append("Unknown Album"),
        }
        match self.year {
            Some(y) => {
                out.append(" [");
                out.append(crate::numeral::u64_to_string(y).as_str());
                out.append("]");
            },
            None => {},
        }
        out.append(" - ");
        out.append(self.title.as_str());
        proof {
            reveal_strlit(" - ");
            reveal_strlit("Unknown Artist - ");
            reveal_strlit("Unknown Album");
            reveal_strlit(" [");
            reveal_strlit("]");
            assert(out@ =~= song_display_chars(*self));
        }
        out
    }

    /// The request target that would stream the song, honouring the
    /// maximum bit rate chosen on it. Pure assembly; nothing is sent.
    pub fn stream_url(&self, client: &Client) -> (r: Result<String, Error>)
        ensures
            r matches Ok(u) && built_url_ok(
                *client,
                "stream"@,
                seq![("id"@, Some(self.id@)), ("maxBitRate"@, self.stream_br.arg_view())],
                u@,
            ),
    {
        let mut q = Query::with("id", self.id.clone());
        q.arg("maxBitRate", self.stream_br);
        let args = q.build();
        proof {
            assert(args@ =~= seq![
                ("id"@, Some(self.id@)),
                ("maxBitRate"@, self.stream_br.arg_view()),
            ]);
        }
        client.build_url("stream", args)
    }

    /// The request target that would download the original file.
    pub fn download_url(&self, client: &Client) -> (r: Result<String, Error>)
        ensures
            r matches Ok(u) && built_url_ok(
                *client,
                "download"@,
                seq![("id"@, Some(self.id@))],
                u@,
            ),
    {
        let args = Query::with("id", self.id.clone());
        proof {
            assert(args@ =~= seq![("id"@, Some(self.id@))]);
        }
        client.build_url("download", args)
    }

    /// The arguments of a similar-songs lookup: this song and an
    /// optional cap on the number of results.
    pub fn similar_args(&self, count: Option<usize>) -> (q: Query)
        ensures
            q@ =~= seq![("id"@, Some(self.id@)), ("count"@, count.arg_view())],
    {
        let mut q = Query::with("id", self.id.clone());
        q.arg("count", count);
        q.build()
    }

    /// The argument of a random-songs request: how many to return, ten
    /// when unspecified.
    pub fn random_args(size: Option<usize>) -> (q: Query)
        ensures
            q@ =~= seq![
                ("size"@, Some(dec_of(match size {
                    Some(n) => n as nat,
                    None => 10,
                }))),
            ],
    {
        let n: usize = match size {
            Some(n) => n,
            None => 10,
        };
        Query::with("size", n)
    }

    /// The arguments of a songs-by-genre listing: the genre, the paging
    /// cursor, and the folder to look in when one is named.
    pub fn in_genre_args(genre: &str, page: SearchPage, folder_id: Option<u64>) -> (q: Query)
        ensures
            q@ =~= seq![
                ("genre"@, Some(genre@)),
                ("count"@, Some(dec_of(page.count as nat))),
                ("offset"@, Some(dec_of(page.offset as nat))),
                ("musicFolderId"@, folder_id.arg_view()),
            ],
    {
        let mut q = Query::with("genre", genre);
        q.arg("count", page.count);
        q.arg("offset", page.offset);
        q.arg("musicFolderId", folder_id);
        q.build()
    }
}

/// The lyrics of one song.
#[derive(Debug, Clone)]
pub struct Lyrics {
    /// Title of the song.
    pub title: String,
    /// Artist that performed the song.
    pub artist: String,
    /// The lyrics themselves.
    pub lyrics: String,
}

} // verus!
