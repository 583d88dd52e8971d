//! The response envelope and its payload dispatch.
//!
//! Every reply from the server is one envelope: a status, the server's
//! protocol version, an optional error, and at most one of many named
//! payload fields. The payload field that is populated acts as the
//! implicit tag of a union, so extraction scans the known field names in
//! a fixed priority order and takes the first one present. That order is
//! a wire-compatibility contract: [`payload_fields`] lists it, and
//! [`Response::into_value`] follows it exactly.

use vstd::prelude::*;

use crate::error::ApiError;

verus! {

/// A top-level response from the server, decoded into its named parts.
///
/// Well-formed wire traffic keeps the status `failed` exactly when
/// `error` is present, and populates at most one payload field of a
/// successful envelope; neither is enforced here, and dispatch resolves
/// any departure (an error always wins, and the priority order picks
/// among payload fields).
pub struct Response {
    /// The reported status: `ok` or `failed`.
    pub status: String,
    /// The server's protocol version string.
    pub version: String,
    /// The reported error, when the call failed.
    pub error: Option<ApiError>,
    /// The `license` payload, when present.
    pub license: Option<serde_json::Value>,
    /// The `music_folders` payload, when present.
    pub music_folders: Option<serde_json::Value>,
    /// The `indexes` payload, when present.
    pub indexes: Option<serde_json::Value>,
    /// The `directory` payload, when present.
    pub directory: Option<serde_json::Value>,
    /// The `genres` payload, when present.
    pub genres: Option<serde_json::Value>,
    /// The `artists` payload, when present.
    pub artists: Option<serde_json::Value>,
    /// The `artist` payload, when present.
    pub artist: Option<serde_json::Value>,
    /// The `albums` payload, when present.
    pub albums: Option<serde_json::Value>,
    /// The `album` payload, when present.
    pub album: Option<serde_json::Value>,
    /// The `song` payload, when present.
    pub song: Option<serde_json::Value>,
    /// The `videos` payload, when present.
    pub videos: Option<serde_json::Value>,
    /// The `video_info` payload, when present.
    pub video_info: Option<serde_json::Value>,
    /// The `artist_info` payload, when present.
    pub artist_info: Option<serde_json::Value>,
    /// The `artist_info2` payload, when present.
    pub artist_info2: Option<serde_json::Value>,
    /// The `album_info` payload, when present.
    pub album_info: Option<serde_json::Value>,
    /// The `similar_songs` payload, when present.
    pub similar_songs: Option<serde_json::Value>,
    /// The `similar_songs2` payload, when present.
    pub similar_songs2: Option<serde_json::Value>,
    /// The `top_songs` payload, when present.
    pub top_songs: Option<serde_json::Value>,
    /// The `album_list` payload, when present.
    pub album_list: Option<serde_json::Value>,
    /// The `album_list2` payload, when present.
    pub album_list2: Option<serde_json::Value>,
    /// The `random_songs` payload, when present.
    pub random_songs: Option<serde_json::Value>,
    /// The `songs_by_genre` payload, when present.
    pub songs_by_genre: Option<serde_json::Value>,
    /// The `now_playing` payload, when present.
    pub now_playing: Option<serde_json::Value>,
    /// The `starred` payload, when present.
    pub starred: Option<serde_json::Value>,
    /// The `starred2` payload, when present.
    pub starred2: Option<serde_json::Value>,
    /// The `search_result` payload, when present.
    pub search_result: Option<serde_json::Value>,
    /// The `search_result2` payload, when present.
    pub search_result2: Option<serde_json::Value>,
    /// The `search_result3` payload, when present.
    pub search_result3: Option<serde_json::Value>,
    /// The `playlists` payload, when present.
    pub playlists: Option<serde_json::Value>,
    /// The `playlist` payload, when present.
    pub playlist: Option<serde_json::Value>,
    /// The `lyrics` payload, when present.
    pub lyrics: Option<serde_json::Value>,
    /// The `shares` payload, when present.
    pub shares: Option<serde_json::Value>,
    /// The `podcasts` payload, when present.
    pub podcasts: Option<serde_json::Value>,
    /// The `newest_podcasts` payload, when present.
    pub newest_podcasts: Option<serde_json::Value>,
    /// The `jukebox_status` payload, when present.
    pub jukebox_status: Option<serde_json::Value>,
    /// The `jukebox_playlist` payload, when present.
    pub jukebox_playlist: Option<serde_json::Value>,
    /// The `internet_radio_stations` payload, when present.
    pub internet_radio_stations: Option<serde_json::Value>,
    /// The `chat_messages` payload, when present.
    pub chat_messages: Option<serde_json::Value>,
    /// The `user` payload, when present.
    pub user: Option<serde_json::Value>,
    /// The `users` payload, when present.
    pub users: Option<serde_json::Value>,
    /// The `bookmarks` payload, when present.
    pub bookmarks: Option<serde_json::Value>,
    /// The `play_queue` payload, when present.
    pub play_queue: Option<serde_json::Value>,
    /// The `scan_status` payload, when present.
    pub scan_status: Option<serde_json::Value>,
}

/// The known payload fields of an envelope, in dispatch priority order.
/// This order is part of the wire contract.
pub open spec fn payload_fields(r: Response) -> Seq<Option<serde_json::Value>> {
    seq![
        r.album,
        r.album_info,
        r.album_list,
        r.album_list2,
        r.albums,
        r.artist,
        r.artist_info,
        r.artist_info2,
        r.artists,
        r.bookmarks,
        r.chat_messages,
        r.directory,
        r.genres,
        r.indexes,
        r.internet_radio_stations,
        r.jukebox_playlist,
        r.jukebox_status,
        r.license,
        r.lyrics,
        r.music_folders,
        r.newest_podcasts,
        r.now_playing,
        r.play_queue,
        r.playlist,
        r.playlists,
        r.podcasts,
        r.random_songs,
        r.scan_status,
        r.search_result,
        r.search_result2,
        r.search_result3,
        r.shares,
        r.similar_songs,
        r.similar_songs2,
        r.song,
        r.songs_by_genre,
        r.starred,
        r.starred2,
        r.top_songs,
        r.user,
        r.users,
        r.video_info,
        r.videos,
    ]
}

/// The payload an envelope yields: the first field present in priority
/// order, or nothing when no known field is populated.
pub open spec fn payload_choice(r: Response) -> Option<serde_json::Value> {
    if r.album is Some {
        r.album
    } else     if r.album_info is Some {
        r.album_info
    } else     if r.album_list is Some {
        r.album_list
    } else     if r.album_list2 is Some {
        r.album_list2
    } else     if r.albums is Some {
        r.albums
    } else     if r.artist is Some {
        r.artist
    } else     if r.artist_info is Some {
        r.artist_info
    } else     if r.artist_info2 is Some {
        r.artist_info2
    } else     if r.artists is Some {
        r.artists
    } else     if r.bookmarks is Some {
        r.bookmarks
    } else     if r.chat_messages is Some {
        r.chat_messages
    } else     if r.directory is Some {
        r.directory
    } else     if r.genres is Some {
        r.genres
    } else     if r.indexes is Some {
        r.indexes
    } else     if r.internet_radio_stations is Some {
        r.internet_radio_stations
    } else     if r.jukebox_playlist is Some {
        r.jukebox_playlist
    } else     if r.jukebox_status is Some {
        r.jukebox_status
    } else     if r.license is Some {
        r.license
    } else     if r.lyrics is Some {
        r.lyrics
    } else     if r.music_folders is Some {
        r.music_folders
    } else     if r.newest_podcasts is Some {
        r.newest_podcasts
    } else     if r.now_playing is Some {
        r.now_playing
    } else     if r.play_queue is Some {
        r.play_queue
    } else     if r.playlist is Some {
        r.playlist
    } else     if r.playlists is Some {
        r.playlists
    } else     if r.podcasts is Some {
        r.podcasts
    } else     if r.random_songs is Some {
        r.random_songs
    } else     if r.scan_status is Some {
        r.scan_status
    } else     if r.search_result is Some {
        r.search_result
    } else     if r.search_result2 is Some {
        r.search_result2
    } else     if r.search_result3 is Some {
        r.search_result3
    } else     if r.shares is Some {
        r.shares
    } else     if r.similar_songs is Some {
        r.similar_songs
    } else     if r.similar_songs2 is Some {
        r.similar_songs2
    } else     if r.song is Some {
        r.song
    } else     if r.songs_by_genre is Some {
        r.songs_by_genre
    } else     if r.starred is Some {
        r.starred
    } else     if r.starred2 is Some {
        r.starred2
    } else     if r.top_songs is Some {
        r.top_songs
    } else     if r.user is Some {
        r.user
    } else     if r.users is Some {
        r.users
    } else     if r.video_info is Some {
        r.video_info
    } else     if r.videos is Some {
        r.videos
    } else {
        None
    }
}

/// Whether no known payload field is populated.
pub open spec fn no_payload(r: Response) -> bool {
    &&& r.license is None
    &&& r.music_folders is None
    &&& r.indexes is None
    &&& r.directory is None
    &&& r.genres is None
    &&& r.artists is None
    &&& r.artist is None
    &&& r.albums is None
    &&& r.album is None
    &&& r.song is None
    &&& r.videos is None
    &&& r.video_info is None
    &&& r.artist_info is None
    &&& r.artist_info2 is None
    &&& r.album_info is None
    &&& r.similar_songs is None
    &&& r.similar_songs2 is None
    &&& r.top_songs is None
    &&& r.album_list is None
    &&& r.album_list2 is None
    &&& r.random_songs is None
    &&& r.songs_by_genre is None
    &&& r.now_playing is None
    &&& r.starred is None
    &&& r.starred2 is None
    &&& r.search_result is None
    &&& r.search_result2 is None
    &&& r.search_result3 is None
    &&& r.playlists is None
    &&& r.playlist is None
    &&& r.lyrics is None
    &&& r.shares is None
    &&& r.podcasts is None
    &&& r.newest_podcasts is None
    &&& r.jukebox_status is None
    &&& r.jukebox_playlist is None
    &&& r.internet_radio_stations is None
    &&& r.chat_messages is None
    &&& r.user is None
    &&& r.users is None
    &&& r.bookmarks is None
    &&& r.play_queue is None
    &&& r.scan_status is None
}

/// When one single payload field is populated, dispatch yields that
/// field's value, whichever of the known fields it is.
pub proof fn lemma_single_payload(r: Response, i: int)
    requires
        0 <= i < payload_fields(r).len(),
        payload_fields(r)[i] is Some,
        forall|j: int|
            0 <= j < payload_fields(r).len() && j != i ==> payload_fields(r)[j] is None,
    ensures
        payload_choice(r) == payload_fields(r)[i],
{
    assert(payload_fields(r)[0] == r.album);
    assert(payload_fields(r)[1] == r.album_info);
    assert(payload_fields(r)[2] == r.album_list);
    assert(payload_fields(r)[3] == r.album_list2);
    assert(payload_fields(r)[4] == r.albums);
    assert(payload_fields(r)[5] == r.artist);
    assert(payload_fields(r)[6] == r.artist_info);
    assert(payload_fields(r)[7] == r.artist_info2);
    assert(payload_fields(r)[8] == r.artists);
    assert(payload_fields(r)[9] == r.bookmarks);
    assert(payload_fields(r)[10] == r.chat_messages);
    assert(payload_fields(r)[11] == r.directory);
    assert(payload_fields(r)[12] == r.genres);
    assert(payload_fields(r)[13] == r.indexes);
    assert(payload_fields(r)[14] == r.internet_radio_stations);
    assert(payload_fields(r)[15] == r.jukebox_playlist);
    assert(payload_fields(r)[16] == r.jukebox_status);
    assert(payload_fields(r)[17] == r.license);
    assert(payload_fields(r)[18] == r.lyrics);
    assert(payload_fields(r)[19] == r.music_folders);
    assert(payload_fields(r)[20] == r.newest_podcasts);
    assert(payload_fields(r)[21] == r.now_playing);
    assert(payload_fields(r)[22] == r.play_queue);
    assert(payload_fields(r)[23] == r.playlist);
    assert(payload_fields(r)[24] == r.playlists);
    assert(payload_fields(r)[25] == r.podcasts);
    assert(payload_fields(r)[26] == r.random_songs);
    assert(payload_fields(r)[27] == r.scan_status);
    assert(payload_fields(r)[28] == r.search_result);
    assert(payload_fields(r)[29] == r.search_result2);
    assert(payload_fields(r)[30] == r.search_result3);
    assert(payload_fields(r)[31] == r.shares);
    assert(payload_fields(r)[32] == r.similar_songs);
    assert(payload_fields(r)[33] == r.similar_songs2);
    assert(payload_fields(r)[34] == r.song);
    assert(payload_fields(r)[35] == r.songs_by_genre);
    assert(payload_fields(r)[36] == r.starred);
    assert(payload_fields(r)[37] == r.starred2);
    assert(payload_fields(r)[38] == r.top_songs);
    assert(payload_fields(r)[39] == r.user);
    assert(payload_fields(r)[40] == r.users);
    assert(payload_fields(r)[41] == r.video_info);
    assert(payload_fields(r)[42] == r.videos);
}

impl Response {
    /// An envelope with the given status and version, no error and no
    /// payload.
    pub fn empty(status: String, version: String) -> (r: Response)
        ensures
            r.status == status,
            r.version == version,
            r.error is None,
            no_payload(r),
    {
        Response {
            status,
            version,
            error: None,
            license: None,
            music_folders: None,
            indexes: None,
            directory: None,
            genres: None,
            artists: None,
            artist: None,
            albums: None,
            album: None,
            song: None,
            videos: None,
            video_info: None,
            artist_info: None,
            artist_info2: None,
            album_info: None,
            similar_songs: None,
            similar_songs2: None,
            top_songs: None,
            album_list: None,
            album_list2: None,
            random_songs: None,
            songs_by_genre: None,
            now_playing: None,
            starred: None,
            starred2: None,
            search_result: None,
            search_result2: None,
            search_result3: None,
            playlists: None,
            playlist: None,
            lyrics: None,
            shares: None,
            podcasts: None,
            newest_podcasts: None,
            jukebox_status: None,
            jukebox_playlist: None,
            internet_radio_stations: None,
            chat_messages: None,
            user: None,
            users: None,
            bookmarks: None,
            play_queue: None,
            scan_status: None,
        }
    }

    /// Returns `true` when the response carries no error.
    pub fn is_ok(&self) -> (r: bool)
        ensures
            r == (self.error is None),
    {
        self.error.is_none()
    }

    /// Returns `true` when the response carries an error.
    pub fn is_err(&self) -> (r: bool)
        ensures
            r == (self.error is Some),
    {
        self.error.is_some()
    }

    /// Extracts the payload: nothing when an error is present, else the
    /// first payload field present in priority order.
    pub fn into_value(self) -> (r: Option<serde_json::Value>)
        ensures
            self.error is Some ==> r is None,
            self.error is None ==> r == payload_choice(self),
    {
        if self.error.is_some() {
            return None;
        }
        match self.album {
            Some(v) => {
                return Some(v);
            },
            None => {},
        }
        match self.album_info {
            Some(v) => {
                return Some(v);
            },
            None => {},
        }
        match self.album_list {
            Some(v) => {
                return Some(v);
            },
            None => {},
        }
        match self.album_list2 {
            Some(v) => {
                return Some(v);
            },
            None => {},
        }
        match self.albums {
            Some(v) => {
                return Some(v);
            },
            None => {},
        }
        match self.artist {
            Some(v) => {
                return Some(v);
            },
            None => {},
        }
        match self.artist_info {
            Some(v) => {
                return Some(v);
            },
            None => {},
        }
        match self.artist_info2 {
            Some(v) => {
                return Some(v);
            },
            None => {},
        }
        match self.artists {
            Some(v) => {
                return Some(v);
            },
            None => {},
        }
        match self.bookmarks {
            Some(v) => {
                return Some(v);
            },
            None => {},
        }
        match self.chat_messages {
            Some(v) => {
                return Some(v);
            },
            None => {},
        }
        match self.directory {
            Some(v) => {
                return Some(v);
            },
            None => {},
        }
        match self.genres {
            Some(v) => {
                return Some(v);
            },
            None => {},
        }
        match self.indexes {
            Some(v) => {
                return Some(v);
            },
            None => {},
        }
        match self.internet_radio_stations {
            Some(v) => {
                return Some(v);
            },
            None => {},
        }
        match self.jukebox_playlist {
            Some(v) => {
                return Some(v);
            },
            None => {},
        }
        match self.jukebox_status {
            Some(v) => {
                return Some(v);
            },
            None => {},
        }
        match self.license {
            Some(v) => {
                return Some(v);
            },
            None => {},
        }
        match self.lyrics {
            Some(v) => {
                return Some(v);
            },
            None => {},
        }
        match self.music_folders {
            Some(v) => {
                return Some(v);
            },
            None => {},
        }
        match self.newest_podcasts {
            Some(v) => {
                return Some(v);
            },
            None => {},
        }
        match self.now_playing {
            Some(v) => {
                return Some(v);
            },
            None => {},
        }
        match self.play_queue {
            Some(v) => {
                return Some(v);
            },
            None => {},
        }
        match self.playlist {
            Some(v) => {
                return Some(v);
            },
            None => {},
        }
        match self.playlists {
            Some(v) => {
                return Some(v);
            },
            None => {},
        }
        match self.podcasts {
            Some(v) => {
                return Some(v);
            },
            None => {},
        }
        match self.random_songs {
            Some(v) => {
                return Some(v);
            },
            None => {},
        }
        match self.scan_status {
            Some(v) => {
                return Some(v);
            },
            None => {},
        }
        match self.search_result {
            Some(v) => {
                return Some(v);
            },
            None => {},
        }
        match self.search_result2 {
            Some(v) => {
                return Some(v);
            },
            None => {},
        }
        match self.search_result3 {
            Some(v) => {
                return Some(v);
            },
            None => {},
        }
        match self.shares {
            Some(v) => {
                return Some(v);
            },
            None => {},
        }
        match self.similar_songs {
            Some(v) => {
                return Some(v);
            },
            None => {},
        }
        match self.similar_songs2 {
            Some(v) => {
                return Some(v);
            },
            None => {},
        }
        match self.song {
            Some(v) => {
                return Some(v);
            },
            None => {},
        }
        match self.songs_by_genre {
            Some(v) => {
                return Some(v);
            },
            None => {},
        }
        match self.starred {
            Some(v) => {
                return Some(v);
            },
            None => {},
        }
        match self.starred2 {
            Some(v) => {
                return Some(v);
            },
            None => {},
        }
        match self.top_songs {
            Some(v) => {
                return Some(v);
            },
            None => {},
        }
        match self.user {
            Some(v) => {
                return Some(v);
            },
            None => {},
        }
        match self.users {
            Some(v) => {
                return Some(v);
            },
            None => {},
        }
        match self.video_info {
            Some(v) => {
                return Some(v);
            },
            None => {},
        }
        match self.videos {
            Some(v) => {
                return Some(v);
            },
            None => {},
        }
        None
    }

    /// Extracts the error of a failed response, or nothing when the
    /// response succeeded.
    pub fn into_error(self) -> (r: Option<ApiError>)
        ensures
            r == self.error,
    {
        self.error
    }

    /// Resolves the envelope: a present error always wins, whatever
    /// payload fields are also populated; otherwise the payload chosen
    /// by priority, or nothing for a bare acknowledgement.
    pub fn into_result(self) -> (r: Result<Option<serde_json::Value>, ApiError>)
        ensures
            self.error matches Some(e) ==> r == Result::<
                Option<serde_json::Value>,
                ApiError,
            >::Err(e),
            self.error is None ==> r == Result::<
                Option<serde_json::Value>,
                ApiError,
            >::Ok(payload_choice(self)),
    {
        match self.error {
            Some(e) => Err(e),
            None => {
                let ghost this = self;
                let v = self.into_value();
                proof {
                    assert(v == payload_choice(this));
                }
                Ok(v)
            },
        }
    }
}

} // verus!
