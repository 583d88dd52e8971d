//! Transcoding target formats.
//!
//! The default formats a server recognises for audio and video
//! transcoding. Each renders as its lowercase name when used as a query
//! argument.

use vstd::prelude::*;
use vstd::string::StringExecFns;

use crate::query::{Arg, IntoArg};

verus! {

/// An audio encoding format the server can transcode to.
#[allow(missing_docs)]
#[derive(Debug, Clone, Copy, PartialEq, Eq, Structural)]
pub enum AudioFormat {
    Aac,
    Aif,
    Aiff,
    Ape,
    Flac,
    Flv,
    M4a,
    Mp3,
    Mpc,
    Oga,
    Ogg,
    Ogx,
    Opus,
    Shn,
    Wav,
    Wma,
    Raw,
}

/// The wire name of an audio format: its lowercase name.
pub open spec fn audio_format_chars(f: AudioFormat) -> Seq<char> {
    match f {
        AudioFormat::Aac => "aac"@,
        AudioFormat::Aif => "aif"@,
        AudioFormat::Aiff => "aiff"@,
        AudioFormat::Ape => "ape"@,
        AudioFormat::Flac => "flac"@,
        AudioFormat::Flv => "flv"@,
        AudioFormat::M4a => "m4a"@,
        AudioFormat::Mp3 => "mp3"@,
        AudioFormat::Mpc => "mpc"@,
        AudioFormat::Oga => "oga"@,
        AudioFormat::Ogg => "ogg"@,
        AudioFormat::Ogx => "ogx"@,
        AudioFormat::Opus => "opus"@,
        AudioFormat::Shn => "shn"@,
        AudioFormat::Wav => "wav"@,
        AudioFormat::Wma => "wma"@,
        AudioFormat::Raw => "raw"@,
    }
}

impl AudioFormat {
    /// The format's wire name.
    pub fn as_str(&self) -> (r: &'static str)
        ensures
            r@ == audio_format_chars(*self),
    {
        match *self {
            AudioFormat::Aac => "aac",
            AudioFormat::Aif => "aif",
            AudioFormat::Aiff => "aiff",
            AudioFormat::Ape => "ape",
            AudioFormat::Flac => "flac",
            AudioFormat::Flv => "flv",
            AudioFormat::M4a => "m4a",
            AudioFormat::Mp3 => "mp3",
            AudioFormat::Mpc => "mpc",
            AudioFormat::Oga => "oga",
            AudioFormat::Ogg => "ogg",
            AudioFormat::Ogx => "ogx",
            AudioFormat::Opus => "opus",
            AudioFormat::Shn => "shn",
            AudioFormat::Wav => "wav",
            AudioFormat::Wma => "wma",
            AudioFormat::Raw => "raw",
        }
    }
}

impl IntoArg for AudioFormat {
    open spec fn arg_view(self) -> Option<Seq<char>> {
        Some(audio_format_chars(self))
    }

    fn into_arg(self) -> (r: Arg) {
        Arg(Some(self.as_str().to_owned()))
    }

    fn as_arg(&self) -> (r: Arg) {
        Arg(Some(self.as_str().to_owned()))
    }
}

/// A video container format the server can transcode to.
#[allow(missing_docs)]
#[derive(Debug, Clone, Copy, PartialEq, Eq, Structural)]
pub enum VideoFormat {
    Avi,
    Mpg,
    Mpeg,
    Mp4,
    M4v,
    Mkv,
    Mov,
    Wmv,
    Ogv,
    Divx,
    M2ts,
}

/// The wire name of a video format: its lowercase name.
pub open spec fn video_format_chars(f: VideoFormat) -> Seq<char> {
    match f {
        VideoFormat::Avi => "avi"@,
        VideoFormat::Mpg => "mpg"@,
        VideoFormat::Mpeg => "mpeg"@,
        VideoFormat::Mp4 => "mp4"@,
        VideoFormat::M4v => "m4v"@,
        VideoFormat::Mkv => "mkv"@,
        VideoFormat::Mov => "mov"@,
        VideoFormat::Wmv => "wmv"@,
        VideoFormat::Ogv => "ogv"@,
        VideoFormat::Divx => "divx"@,
        VideoFormat::M2ts => "m2ts"@,
    }
}

impl VideoFormat {
    /// The format's wire name.
    pub fn as_str(&self) -> (r: &'static str)
        ensures
            r@ == video_format_chars(*self),
    {
        match *self {
            VideoFormat::Avi => "avi",
            VideoFormat::Mpg => "mpg",
            VideoFormat::Mpeg => "mpeg",
            VideoFormat::Mp4 => "mp4",
            VideoFormat::M4v => "m4v",
            VideoFormat::Mkv => "mkv",
            VideoFormat::Mov => "mov",
            VideoFormat::Wmv => "wmv",
            VideoFormat::Ogv => "ogv",
            VideoFormat::Divx => "divx",
            VideoFormat::M2ts => "m2ts",
        }
    }
}

impl IntoArg for VideoFormat {
    open spec fn arg_view(self) -> Option<Seq<char>> {
        Some(video_format_chars(self))
    }

    fn into_arg(self) -> (r: Arg) {
        Arg(Some(self.as_str().to_owned()))
    }

    fn as_arg(&self) -> (r: Arg) {
        Arg(Some(self.as_str().to_owned()))
    }
}

} // verus!
