//! Walking a listing page by page.
//!
//! A listing is served in pages of at most `limit` entries, starting at an
//! `offset`. The cursor decides which page to ask for next and when the
//! listing has been read to its end; asking and receiving are left to the
//! caller.

use crate::json::{
    all_decoded, as_items, items_of, json_parse, member, member_of, optional_text_field,
    optional_text_member, parse, read_all, u32_field, u32_member, views, FromJson, JsonValue,
};
use crate::spotify::{Playlist, PlaylistView};
use crate::spotify_error::{ErrorView, SpotifyError};
use vstd::prelude::*;
use vstd::string::StringExecFns;

verus! {

/// The page size that is asked for unless the caller chooses one.
pub const DEFAULT_LIMIT: u32 = 50;

/// The position of a walk through a listing.
#[derive(Debug, Clone, Copy, PartialEq, Eq, Structural)]
pub struct PageCursor {
    /// How many entries a page may hold.
    pub limit: u32,
    /// The index of the first entry of the next page.
    pub offset: u32,
    /// How many entries the listing has, as the last page said.
    pub total: u32,
    /// No further page is to be asked for.
    pub finished: bool,
}

/// The cursor before the first page.
pub open spec fn cursor_start(limit: u32, offset: u32) -> PageCursor {
    PageCursor { limit, offset, total: 0, finished: false }
}

/// The cursor after a page of `count` entries that reported `total` entries
/// in all and did or did not name a next page. The walk ends with an empty
/// page, with a page that reaches `total`, and with a page that names no
/// next one. A finished cursor stays as it is.
pub open spec fn cursor_after(c: PageCursor, count: nat, total: u32, has_next: bool) -> PageCursor {
    if c.finished {
        c
    } else {
        PageCursor {
            limit: c.limit,
            offset: if c.offset + count <= u32::MAX {
                (c.offset + count) as u32
            } else {
                u32::MAX
            },
            total,
            finished: count == 0 || c.offset + count >= total || !has_next,
        }
    }
}

/// The parameters of the request for the next page, or nothing when the
/// walk has ended.
pub open spec fn cursor_query(c: PageCursor) -> Option<Seq<(Seq<char>, i64)>> {
    if c.finished {
        None
    } else {
        Some(seq![("limit"@, c.limit as i64), ("offset"@, c.offset as i64)])
    }
}

impl PageCursor {
    /// A cursor that asks for pages of `limit` entries from `offset` on.
    pub fn start(limit: u32, offset: u32) -> (r: PageCursor)
        ensures
            r == cursor_start(limit, offset),
    {
        PageCursor { limit, offset, total: 0, finished: false }
    }

    /// The parameters to send for the next page, in the order `limit`,
    /// `offset`; nothing when the walk has ended.
    pub fn next_query(&self) -> (r: Option<Vec<(String, i64)>>)
        ensures
            r.deep_view() == cursor_query(*self),
    {
        if self.finished {
            None
        } else {
            let mut params: Vec<(String, i64)> = Vec::new();
            params.push((String::from_str("limit"), self.limit as i64));
            params.push((String::from_str("offset"), self.offset as i64));
            Some(params)
        }
    }

    /// Takes note of a page that was received.
    pub fn advance(&mut self, count: usize, total: u32, has_next: bool)
        ensures
            *final(self) == cursor_after(*old(self), count as nat, total, has_next),
    {
        if !self.finished {
            let reached: u128 = self.offset as u128 + count as u128;
            self.finished = count == 0 || reached >= total as u128 || !has_next;
            self.offset = if reached <= u32::MAX as u128 {
                reached as u32
            } else {
                u32::MAX
            };
            self.total = total;
        }
    }
}

/// How many entries a faithful service puts on the page at `offset` of a
/// listing of `total` entries, asked for `limit`.
pub open spec fn served_count(total: u32, limit: u32, offset: u32) -> nat {
    if offset >= total {
        0
    } else if total - offset <= limit {
        (total - offset) as nat
    } else {
        limit as nat
    }
}

/// The cursor after the page that a faithful service sends for it: the
/// entries from `offset` on, at most `limit` of them, and a next page named
/// exactly where entries are left.
pub open spec fn cursor_after_served(c: PageCursor, total: u32) -> PageCursor {
    let count = served_count(total, c.limit, c.offset);
    cursor_after(c, count, total, c.offset + count < total)
}

/// A bound on the pages that a walk may still receive: none once it is
/// finished, else one more than the offsets that lie ahead.
pub open spec fn walk_measure(c: PageCursor) -> nat {
    if c.finished {
        0
    } else {
        (1 + u32::MAX - c.offset) as nat
    }
}

/// The sizes of the pages that a walk receives from a faithful service, from
/// the cursor `c` to the end.
pub open spec fn page_sizes(c: PageCursor, total: u32) -> Seq<nat>
    decreases walk_measure(c),
{
    if c.finished {
        Seq::empty()
    } else {
        seq![served_count(total, c.limit, c.offset)] + page_sizes(
            cursor_after_served(c, total),
            total,
        )
    }
}

/// The sum of a run of sizes.
pub open spec fn sum(sizes: Seq<nat>) -> nat
    decreases sizes.len(),
{
    if sizes.len() == 0 {
        0
    } else {
        sizes[0] + sum(sizes.drop_first())
    }
}

/// A walk cannot go on for ever: whatever a page holds and reports, it
/// either ends the walk or moves the offset forward, so each page that is
/// received lowers the bound on those that may follow.
pub proof fn lemma_walk_ends(c: PageCursor, count: nat, total: u32, has_next: bool)
    requires
        !c.finished,
    ensures
        walk_measure(cursor_after(c, count, total, has_next)) < walk_measure(c),
        !cursor_after(c, count, total, has_next).finished ==> cursor_after(
            c,
            count,
            total,
            has_next,
        ).offset > c.offset,
{
}

/// A walk over a listing served faithfully reads it to the end, once: from
/// a cursor that has not passed the end, the pages it receives hold together
/// as many entries as lie behind its offset; each holds at most `limit`
/// entries, and each but the last holds exactly `limit`.
pub proof fn lemma_walk_covers_listing(c: PageCursor, total: u32)
    requires
        !c.finished,
        c.limit > 0,
        c.offset <= total,
    ensures
        sum(page_sizes(c, total)) == total - c.offset,
        page_sizes(c, total).len() >= 1,
        forall|i: int|
            0 <= i < page_sizes(c, total).len() ==> #[trigger] page_sizes(c, total)[i] <= c.limit,
        forall|i: int|
            0 <= i < page_sizes(c, total).len() - 1 ==> #[trigger] page_sizes(c, total)[i]
                == c.limit,
    decreases walk_measure(c),
{
    let next = cursor_after_served(c, total);
    let rest = page_sizes(next, total);
    let all = page_sizes(c, total);
    assert(all.drop_first() =~= rest);
    if next.finished {
        assert(sum(rest) == 0);
    } else {
        lemma_walk_covers_listing(next, total);
        assert forall|i: int| 0 < i < all.len() implies #[trigger] all[i] == rest[i - 1] by {}
    }
}

/// One page of a listing, as the service sends it.
#[derive(Debug, PartialEq, Eq)]
pub struct Page<T> {
    pub items: Vec<T>,
    pub total: u32,
    pub limit: u32,
    pub offset: u32,
    pub next: Option<String>,
    pub previous: Option<String>,
}

/// The mathematical content of a [`Page`].
pub struct PageView<V> {
    pub items: Seq<V>,
    pub total: u32,
    pub limit: u32,
    pub offset: u32,
    pub next: Option<Seq<char>>,
    pub previous: Option<Seq<char>>,
}

impl<T: View> View for Page<T> {
    type V = PageView<T::V>;

    open spec fn view(&self) -> PageView<T::V> {
        PageView {
            items: views(self.items@),
            total: self.total,
            limit: self.limit,
            offset: self.offset,
            next: self.next.deep_view(),
            previous: self.previous.deep_view(),
        }
    }
}

/// The page that a JSON document holds: an object with an array `items` of
/// entries, the 32-bit unsigned members `total`, `limit` and `offset`, and
/// the members `next` and `previous`, each a string, `null` or missing.
pub open spec fn page_of<T: FromJson>(j: JsonValue) -> Option<PageView<T::V>> {
    match (
        member_of(j, "items"@),
        u32_member(j, "total"@),
        u32_member(j, "limit"@),
        u32_member(j, "offset"@),
        optional_text_member(j, "next"@),
        optional_text_member(j, "previous"@),
    ) {
        (Some(list), Some(total), Some(limit), Some(offset), Some(next), Some(previous)) => {
            match items_of(list) {
                Some(values) => match all_decoded::<T>(values) {
                    Some(items) => Some(PageView { items, total, limit, offset, next, previous }),
                    None => None,
                },
                None => None,
            }
        },
        _ => None,
    }
}

/// What the answer to a page request amounts to: the page it holds; the
/// parser's message where the body is not JSON; the body itself where it is
/// JSON of another shape.
pub open spec fn page_reply<T: FromJson>(body: Seq<char>) -> Result<PageView<T::V>, ErrorView> {
    match json_parse(body) {
        Err(message) => Err(ErrorView::Unknown { msg: Some(message) }),
        Ok(j) => match page_of::<T>(j) {
            Some(page) => Ok(page),
            None => Err(ErrorView::CantFetchPlaylist(body)),
        },
    }
}

impl<T: FromJson> FromJson for Page<T> {
    open spec fn decoded(j: JsonValue) -> Option<PageView<T::V>> {
        page_of::<T>(j)
    }

    fn from_json(v: &serde_json::Value) -> (r: Option<Page<T>>) {
        let list = member(v, "items")?;
        let total = u32_field(v, "total")?;
        let limit = u32_field(v, "limit")?;
        let offset = u32_field(v, "offset")?;
        let next = optional_text_field(v, "next")?;
        let previous = optional_text_field(v, "previous")?;
        let values = as_items(list)?;
        let items = read_all::<T>(values)?;
        Some(Page { items, total, limit, offset, next, previous })
    }
}

impl<T: FromJson> Page<T> {
    /// Reads a page out of the body of an answer.
    pub fn from_body(body: &str) -> (r: Result<Page<T>, SpotifyError>)
        ensures
            match r {
                Ok(page) => page_reply::<T>(body@) == Ok::<PageView<T::V>, ErrorView>(page@),
                Err(e) => page_reply::<T>(body@) == Err::<PageView<T::V>, ErrorView>(e@),
            },
    {
        match parse(body) {
            Err(e) => Err(SpotifyError::from(e)),
            Ok(v) => match Page::<T>::from_json(&v) {
                Some(page) => Ok(page),
                None => Err(SpotifyError::CantFetchPlaylist(String::from_str(body))),
            },
        }
    }
}

/// The cursor of a walk after the answer `body` to its page request: moved
/// on by the page that the body holds, and left alone where the walk had
/// ended or the body holds no page.
pub open spec fn walk_after<T: FromJson>(c: PageCursor, body: Seq<char>) -> PageCursor {
    match page_reply::<T>(body) {
        Ok(page) => cursor_after(c, page.items.len(), page.total, page.next is Some),
        Err(_) => c,
    }
}

impl PageCursor {
    /// Takes the answer to the request for the next page. Gives the page
    /// and moves on; gives nothing, without reading `body`, when the walk
    /// had ended; fails, without moving, when `body` holds no page.
    pub fn take<T: FromJson>(&mut self, body: &str) -> (r: Result<Option<Page<T>>, SpotifyError>)
        ensures
            old(self).finished ==> r == Ok::<Option<Page<T>>, SpotifyError>(None) && *final(self)
                == *old(self),
            !old(self).finished ==> *final(self) == walk_after::<T>(*old(self), body@) && match r {
                Ok(Some(page)) => page_reply::<T>(body@) == Ok::<PageView<T::V>, ErrorView>(page@),
                Ok(None) => false,
                Err(e) => page_reply::<T>(body@) == Err::<PageView<T::V>, ErrorView>(e@),
            },
    {
        if self.finished {
            return Ok(None);
        }
        match Page::<T>::from_body(body) {
            Err(e) => Err(e),
            Ok(page) => {
                self.advance(page.items.len(), page.total, page.next.is_some());
                Ok(Some(page))
            },
        }
    }
}

/// A forward-only walk through a listing of playlists. It cannot be
/// restarted; to go on later, note the cursor and resume from it.
#[derive(Debug)]
pub struct Playlists {
    cursor: PageCursor,
}

impl View for Playlists {
    type V = PageCursor;

    closed spec fn view(&self) -> PageCursor {
        self.cursor
    }
}

impl Playlists {
    /// A walk from the start of the listing, in pages of 50.
    pub fn new() -> (r: Playlists)
        ensures
            r@ == cursor_start(DEFAULT_LIMIT, 0),
    {
        Playlists { cursor: PageCursor::start(DEFAULT_LIMIT, 0) }
    }

    /// A walk that goes on from `cursor`.
    pub fn resume(cursor: PageCursor) -> (r: Playlists)
        ensures
            r@ == cursor,
    {
        Playlists { cursor }
    }

    /// Where the walk stands.
    pub fn cursor(&self) -> (r: PageCursor)
        ensures
            r == self@,
    {
        self.cursor
    }

    /// The parameters to send for the next page, or nothing when the walk
    /// has ended.
    pub fn next_query(&self) -> (r: Option<Vec<(String, i64)>>)
        ensures
            r.deep_view() == cursor_query(self@),
    {
        self.cursor.next_query()
    }

    /// Takes the answer to the request for the next page of playlists; see
    /// [`PageCursor::take`].
    pub fn try_next(&mut self, body: &str) -> (r: Result<Option<Page<Playlist>>, SpotifyError>)
        ensures
            old(self)@.finished ==> r == Ok::<Option<Page<Playlist>>, SpotifyError>(None)
                && final(self)@ == old(self)@,
            !old(self)@.finished ==> final(self)@ == walk_after::<Playlist>(old(self)@, body@)
                && match r {
                Ok(Some(page)) => page_reply::<Playlist>(body@) == Ok::<
                    PageView<PlaylistView>,
                    ErrorView,
                >(page@),
                Ok(None) => false,
                Err(e) => page_reply::<Playlist>(body@) == Err::<PageView<PlaylistView>, ErrorView>(
                    e@,
                ),
            },
    {
        let mut cursor = self.cursor;
        let r = cursor.take::<Playlist>(body);
        self.cursor = cursor;
        r
    }
}

} // verus!
