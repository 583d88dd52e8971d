//! Paging for list-returning operations.
//!
//! A search returns up to `count` results, starting `offset` pages in.
//! The cursor is a pure value: list operations fold it into their
//! count/offset arguments and never mutate it behind the caller's back.

use vstd::prelude::*;

use crate::album::Album;
use crate::artist::Artist;
use crate::song::Song;

verus! {

/// A paging cursor: how many results to return, and from which page.
#[derive(Debug, Copy, Clone, PartialEq, Eq, Structural)]
pub struct SearchPage {
    /// The number of results to return.
    pub count: usize,
    /// The page offset.
    pub offset: usize,
}

/// The largest count most list operations accept, from the first page.
pub fn all() -> (r: SearchPage)
    ensures
        r.count == 500 && r.offset == 0,
{
    SearchPage { count: 500, offset: 0 }
}

/// A cursor that makes a search ignore the field it is given for.
pub fn none() -> (r: SearchPage)
    ensures
        r.count == 0 && r.offset == 0,
{
    SearchPage { count: 0, offset: 0 }
}

impl SearchPage {
    /// Creates the default cursor: twenty results, first page.
    pub fn new() -> (r: SearchPage)
        ensures
            r.count == 20 && r.offset == 0,
    {
        SearchPage { offset: 0, count: 20 }
    }

    /// Creates a cursor at the provided page, with the default count.
    pub fn at_page(offset: usize) -> (r: SearchPage)
        ensures
            r.count == 20 && r.offset == offset,
    {
        SearchPage { offset, count: 20 }
    }

    /// Returns a copy with the count replaced.
    pub fn with_size(self, count: usize) -> (r: SearchPage)
        ensures
            r.count == count && r.offset == self.offset,
    {
        SearchPage { offset: self.offset, count }
    }

    /// Advances the cursor by exactly one page; the count is unchanged.
    pub fn next(&mut self)
        requires
            old(self).offset < usize::MAX,
        ensures
            final(self).offset == old(self).offset + 1,
            final(self).count == old(self).count,
    {
        self.offset += 1;
    }

    /// Moves the cursor back by exactly one page; the count is
    /// unchanged.
    pub fn prev(&mut self)
        requires
            old(self).offset > 0,
        ensures
            final(self).offset == old(self).offset - 1,
            final(self).count == old(self).count,
    {
        self.offset -= 1;
    }
}

impl Default for SearchPage {
    /// The default cursor equals [`SearchPage::new`].
    fn default() -> (r: SearchPage)
        ensures
            r.count == 20 && r.offset == 0,
    {
        SearchPage::new()
    }
}

/// What a three-way search returned: any artists, albums and songs that
/// matched.
#[derive(Debug)]
pub struct SearchResult {
    /// Artists found in the search.
    pub artists: Vec<Artist>,
    /// Albums found in the search.
    pub albums: Vec<Album>,
    /// Songs found in the search.
    pub songs: Vec<Song>,
}

} // verus!
