//! Client-side bindings for the Subsonic music server REST protocol.
//!
//! The crate centres on a small transport core: ordered query-argument
//! encoding, version-gated credential derivation, request-URL assembly,
//! the response envelope with its payload dispatch, and the protocol
//! error taxonomy. Entity types (albums, artists, songs, playlists,
//! users and so on) are plain data carriers built on that core.

mod numeral;
pub mod album;
pub mod annotate;
pub mod api;
pub mod artist;
pub mod client;
pub mod error;
pub mod format;
pub mod id;
pub mod jukebox;
pub mod json;
pub mod library;
pub mod media;
pub mod playlist;
pub mod podcast;
pub mod query;
pub mod radio;
pub mod response;
pub mod search;
pub mod song;
pub mod user;
pub mod version;
pub mod video;

pub use crate::album::{Album, AlbumInfo, ListType};
pub use crate::api::Api;
pub use crate::artist::{Artist, ArtistInfo};
pub use crate::client::{Client, SubsonicAuth};
pub use crate::error::{ApiError, Error, UrlError};
pub use crate::format::{AudioFormat, VideoFormat};
pub use crate::id::Id;
pub use crate::library::{Genre, License, MusicFolder};
pub use crate::media::NowPlaying;
pub use crate::numeral::{i64_to_string, u64_to_string};
pub use crate::playlist::Playlist;
pub use crate::podcast::{Episode, Podcast};
pub use crate::query::{Arg, IntoArg, Query};
pub use crate::radio::RadioStation;
pub use crate::response::Response;
pub use crate::search::{SearchPage, SearchResult};
pub use crate::song::{Lyrics, Song};
pub use crate::user::{User, UserBuilder};
pub use crate::version::Version;
pub use crate::video::{AudioTrack, Captions, Conversion, Video, VideoInfo};
