//! Arguments for starring, rating and scrobbling media.
//!
//! Artists, albums and songs can each be starred, rated and scrobbled.
//! These builders produce the argument sets those operations take; a
//! rating outside the accepted zero-to-five range is rejected as the
//! server would not accept it.

use vstd::prelude::*;

use crate::album::Album;
use crate::artist::Artist;
use crate::error::Error;
use crate::numeral::dec_of;
use crate::query::{IntoArg, Query};
use crate::song::Song;

verus! {

/// The arguments that star or unstar content, keyed as the entity
/// requires.
pub fn star_args(key: &str, id: &str) -> (q: Query)
    ensures
        q@ =~= seq![(key@, Some(id@))],
{
    Query::with(key, id)
}

/// The arguments that rate content: the content and a rating from zero
/// to five. A larger rating is refused.
pub fn rating_args(id: &str, rating: u8) -> (r: Result<Query, Error>)
    ensures
        rating > 5 ==> r == Result::<Query, Error>::Err(
            Error::Other("rating must be between 0 and 5 inclusive"),
        ),
        rating <= 5 ==> (r matches Ok(q) && q@ =~= seq![
            ("id"@, Some(id@)),
            ("rating"@, Some(dec_of(rating as nat))),
        ]),
{
    if rating > 5 {
        return Err(Error::Other("rating must be between 0 and 5 inclusive"));
    }
    let mut q = Query::with("id", id);
    q.arg("rating", rating);
    Ok(q.build())
}

/// The arguments that scrobble content: the content, an optional
/// timestamp, and — when the caller says whether this is a now-playing
/// notification — the submission flag, which is its negation.
pub fn scrobble_args(id: &str, time: Option<&str>, now_playing: Option<bool>) -> (q: Query)
    ensures
        q@ =~= seq![
            ("id"@, Some(id@)),
            ("time"@, time.arg_view()),
            ("submission"@, match now_playing {
                Some(b) => Some(if !b { "true"@ } else { "false"@ }),
                None => None,
            }),
        ],
{
    let submission: Option<bool> = match now_playing {
        Some(b) => Some(!b),
        None => None,
    };
    let mut q = Query::with("id", id);
    q.arg("time", time);
    q.arg("submission", submission);
    q.build()
}

impl Artist {
    /// The arguments that star this artist.
    pub fn star_args(&self) -> (q: Query)
        ensures
            q@ =~= seq![("artistId"@, Some(dec_of(self.id as nat)))],
    {
        Query::with("artistId", self.id)
    }
}

impl Album {
    /// The arguments that star this album.
    pub fn star_args(&self) -> (q: Query)
        ensures
            q@ =~= seq![("albumId"@, Some(self.id@))],
    {
        Query::with("albumId", self.id.clone())
    }
}

impl Song {
    /// The arguments that star this song.
    pub fn star_args(&self) -> (q: Query)
        ensures
            q@ =~= seq![("id"@, Some(self.id@))],
    {
        Query::with("id", self.id.clone())
    }
}

} // verus!
