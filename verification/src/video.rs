//! Videos and their playback metadata.

use vstd::prelude::*;
use vstd::string::StringExecFns;

use crate::client::{built_url_ok, Client};
use crate::error::Error;
use crate::numeral::dec_of;
use crate::query::{IntoArg, Query};

verus! {

/// A video on the server, together with the streaming options chosen
/// for it.
#[allow(missing_docs)]
#[derive(Debug, Clone)]
pub struct Video {
    pub id: String,
    pub parent: usize,
    pub is_dir: bool,
    pub title: String,
    pub album: Option<String>,
    pub cover_id: Option<String>,
    pub size: usize,
    pub content_type: String,
    pub suffix: String,
    pub transcoded_suffix: Option<String>,
    pub transcoded_content_type: Option<String>,
    pub duration: usize,
    pub bitrate: usize,
    pub path: String,
    pub is_video: bool,
    pub created: String,
    pub play_count: Option<u64>,
    pub media_type: String,
    pub bookmark_position: Option<u64>,
    pub original_height: Option<u64>,
    pub original_width: Option<u64>,
    pub stream_br: Option<usize>,
    pub stream_size: Option<(usize, usize)>,
    pub stream_offset: usize,
    pub stream_tc: Option<String>,
}

/// The wire form of a chosen stream size: width and height in base ten,
/// joined by `x`.
pub open spec fn size_chars(size: (usize, usize)) -> Seq<char> {
    dec_of(size.0 as nat) + seq!['x'] + dec_of(size.1 as nat)
}

impl Video {
    /// Sets the size the video will stream at, in pixels.
    pub fn set_size(&mut self, width: usize, height: usize)
        ensures
            final(self).stream_size == Some((width, height)),
            *final(self) == (Video { stream_size: Some((width, height)), ..*old(self) }),
    {
        self.stream_size = Some((width, height));
    }

    /// Sets the time, in seconds, a stream of the video will start at.
    pub fn set_start_time(&mut self, offset: usize)
        ensures
            final(self).stream_offset == offset,
            *final(self) == (Video { stream_offset: offset, ..*old(self) }),
    {
        self.stream_offset = offset;
    }

    /// Sets the maximum bit rate the video will stream at, in Kbps.
    pub fn set_max_bit_rate(&mut self, bit_rate: usize)
        ensures
            final(self).stream_br == Some(bit_rate),
            *final(self) == (Video { stream_br: Some(bit_rate), ..*old(self) }),
    {
        self.stream_br = Some(bit_rate);
    }

    /// The encoding a stream of the video will arrive in: the transcoded
    /// MIME type when the server will transcode, the original one
    /// otherwise.
    pub fn encoding(&self) -> (r: &str)
        ensures
            self.transcoded_content_type matches Some(t) ==> r@ == t@,
            self.transcoded_content_type is None ==> r@ == self.content_type@,
    {
        match &self.transcoded_content_type {
            Some(t) => t.as_str(),
            None => self.content_type.as_str(),
        }
    }

    /// Whether the video has associated cover art.
    pub fn has_cover_art(&self) -> (r: bool)
        ensures
            r == (self.cover_id is Some),
    {
        self.cover_id.is_some()
    }

    /// The identifier of the video's cover art, when there is one.
    pub fn cover_id(&self) -> (r: Option<&str>)
        ensures
            r matches Some(c) <==> self.cover_id is Some,
            r matches Some(c) ==> c@ == self.cover_id->0@,
    {
        match &self.cover_id {
            Some(c) => Some(c.as_str()),
            None => None,
        }
    }

    /// The chosen stream size in its wire form, when one is set.
    pub fn size_arg(&self) -> (r: Option<String>)
        ensures
            r matches Some(s) <==> self.stream_size is Some,
            r matches Some(s) ==> s@ == size_chars(self.stream_size->0),
    {
        match self.stream_size {
            Some((w, h)) => {
                let mut s = crate::numeral::u64_to_string(w as u64);
                s.append("x");
                s.append(crate::numeral::u64_to_string(h as u64).as_str());
                proof {
                    reveal_strlit("x");
                    assert(s@ =~= size_chars((w, h)));
                }
                Some(s)
            },
            None => None,
        }
    }

    /// The arguments a stream of the video is requested with: the video,
    /// the chosen bit rate and size when set, and the start offset.
    pub fn stream_args(&self) -> (q: Query)
        ensures
            q@ =~= seq![
                ("id"@, Some(self.id@)),
                ("maxBitRate"@, self.stream_br.arg_view()),
                ("size"@, match self.stream_size {
                    Some(s) => Some(size_chars(s)),
                    None => None,
                }),
                ("timeOffset"@, Some(dec_of(self.stream_offset as nat))),
            ],
    {
        let mut q = Query::with("id", self.id.clone());
        q.arg("maxBitRate", self.stream_br);
        q.arg("size", self.size_arg());
        q.arg("timeOffset", self.stream_offset);
        q.build()
    }

    /// The request target that would stream the video, honouring the
    /// options chosen on it. Pure assembly; nothing is sent.
    pub fn stream_url(&self, client: &Client) -> (r: Result<String, Error>)
        ensures
            r matches Ok(u) && built_url_ok(
                *client,
                "stream"@,
                seq![
                    ("id"@, Some(self.id@)),
                    ("maxBitRate"@, self.stream_br.arg_view()),
                    ("size"@, match self.stream_size {
                        Some(s) => Some(size_chars(s)),
                        None => None,
                    }),
                    ("timeOffset"@, Some(dec_of(self.stream_offset as nat))),
                ],
                u@,
            ),
    {
        client.build_url("stream", self.stream_args())
    }

    /// The request target that would download the original file.
    pub fn download_url(&self, client: &Client) -> (r: Result<String, Error>)
        ensures
            r matches Ok(u) && built_url_ok(
                *client,
                "download"@,
                seq![("id"@, Some(self.id@))],
                u@,
            ),
    {
        let args = Query::with("id", self.id.clone());
        proof {
            assert(args@ =~= seq![("id"@, Some(self.id@))]);
        }
        client.build_url("download", args)
    }

    /// The arguments of a video-info or captions request: the video and
    /// an optional format.
    pub fn info_args(&self, format: Option<&str>) -> (q: Query)
        ensures
            q@ =~= seq![("id"@, Some(self.id@)), ("format"@, format.arg_view())],
    {
        let mut q = Query::with("id", self.id.clone());
        q.arg("format", format);
        q.build()
    }
}

/// Playback details of one video.
#[allow(missing_docs)]
#[derive(Debug)]
pub struct VideoInfo {
    pub id: usize,
    pub captions: Option<Captions>,
    pub audio_tracks: Vec<AudioTrack>,
    pub conversion: Option<Conversion>,
}

/// One audio track of a video.
#[allow(missing_docs)]
#[derive(Debug, Clone)]
pub struct AudioTrack {
    pub id: usize,
    pub name: String,
    pub language_code: String,
}

/// A captions track of a video.
#[allow(missing_docs)]
#[derive(Debug, Clone)]
pub struct Captions {
    pub id: usize,
    pub name: String,
}

/// A stored conversion of a video.
#[allow(missing_docs)]
#[derive(Debug, Clone)]
pub struct Conversion {
    pub id: usize,
    pub bitrate: usize,
}

} // verus!
