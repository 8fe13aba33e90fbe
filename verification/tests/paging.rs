use discover_weekly::json::FromJson;
use discover_weekly::paging::{Page, PageCursor, Playlists, DEFAULT_LIMIT};
use discover_weekly::spotify::{Playlist, Track, TrackItem};
use discover_weekly::spotify_error::SpotifyError;

fn playlist_json(index: u32) -> String {
    format!(
        "{{\"id\":\"p{0}\",\"uri\":\"spotify:playlist:p{0}\",\"name\":\"Playlist {0}\",\"description\":null,\"tracks\":{{\"href\":\"h{0}\",\"items\":[],\"total\":0}}}}",
        index
    )
}

/// The body that a faithful service sends for the page at `offset`.
fn served(total: u32, limit: u32, offset: u32) -> String {
    let end = if offset >= total { offset } else { total.min(offset.saturating_add(limit)) };
    let mut items: Vec<String> = Vec::new();
    let mut index = offset;
    while index < end {
        items.push(playlist_json(index));
        index += 1;
    }
    let next = if end < total {
        format!("\"https://api.spotify.com/v1/me/playlists?offset={}&limit={}\"", end, limit)
    } else {
        "null".to_string()
    };
    format!(
        "{{\"href\":\"h\",\"items\":[{}],\"limit\":{},\"next\":{},\"offset\":{},\"previous\":null,\"total\":{}}}",
        items.join(","),
        limit,
        next,
        offset,
        total
    )
}

fn params(limit: i64, offset: i64) -> Vec<(String, i64)> {
    vec![("limit".to_string(), limit), ("offset".to_string(), offset)]
}

/// Walks a listing served faithfully and gives the sizes of the pages.
fn walk(total: u32, limit: u32) -> Vec<usize> {
    let mut pager = Playlists::resume(PageCursor::start(limit, 0));
    let mut sizes = Vec::new();
    let mut rounds = 0;
    while let Some(query) = pager.next_query() {
        assert_eq!(query, params(limit as i64, pager.cursor().offset as i64));
        let body = served(total, limit, pager.cursor().offset);
        let page = pager.try_next(&body).unwrap().unwrap();
        sizes.push(page.items.len());
        rounds += 1;
        assert!(rounds <= total + 1);
    }
    sizes
}

#[test]
fn listing_of_120_in_pages_of_50() {
    let mut pager = Playlists::new();
    assert_eq!(pager.cursor(), PageCursor { limit: 50, offset: 0, total: 0, finished: false });

    assert_eq!(pager.next_query(), Some(params(50, 0)));
    let first = pager.try_next(&served(120, 50, 0)).unwrap().unwrap();
    assert_eq!(first.items.len(), 50);
    assert_eq!(first.items[0].id, "p0");
    assert_eq!(first.items[49].id, "p49");
    assert_eq!(first.total, 120);

    assert_eq!(pager.next_query(), Some(params(50, 50)));
    let second = pager.try_next(&served(120, 50, 50)).unwrap().unwrap();
    assert_eq!(second.items.len(), 50);
    assert_eq!(second.items[0].id, "p50");

    assert_eq!(pager.next_query(), Some(params(50, 100)));
    let third = pager.try_next(&served(120, 50, 100)).unwrap().unwrap();
    assert_eq!(third.items.len(), 20);
    assert_eq!(third.items[19].id, "p119");
    assert_eq!(third.next, None);

    assert_eq!(pager.next_query(), None);
    assert!(pager.cursor().finished);
    assert_eq!(pager.try_next(&served(120, 50, 120)), Ok(None));
    assert_eq!(pager.try_next("not even json"), Ok(None));
    assert_eq!(pager.cursor(), PageCursor { limit: 50, offset: 120, total: 120, finished: true });
}

#[test]
fn faithful_walks_read_every_entry_once() {
    assert_eq!(walk(120, 50), vec![50, 50, 20]);
    assert_eq!(walk(100, 50), vec![50, 50]);
    assert_eq!(walk(1, 50), vec![1]);
    assert_eq!(walk(0, 50), vec![0]);
    assert_eq!(walk(7, 1), vec![1, 1, 1, 1, 1, 1, 1]);
    assert_eq!(walk(7, 3), vec![3, 3, 1]);
    for total in 0..40u32 {
        for limit in 1..9u32 {
            let sizes = walk(total, limit);
            assert_eq!(sizes.iter().sum::<usize>(), total as usize);
            assert!(sizes.iter().all(|size| *size <= limit as usize));
            let full = &sizes[..sizes.len() - 1];
            assert!(full.iter().all(|size| *size == limit as usize));
        }
    }
}

#[test]
fn default_page_size_is_50() {
    assert_eq!(DEFAULT_LIMIT, 50);
    assert_eq!(Playlists::new().next_query(), Some(params(50, 0)));
}

#[test]
fn walk_ends_when_no_next_page_is_named() {
    let mut cursor = PageCursor::start(50, 0);
    cursor.advance(50, 1000, false);
    assert_eq!(cursor, PageCursor { limit: 50, offset: 50, total: 1000, finished: true });
    assert_eq!(cursor.next_query(), None);
}

#[test]
fn walk_ends_on_an_empty_page() {
    let mut cursor = PageCursor::start(50, 0);
    cursor.advance(0, 1000, true);
    assert_eq!(cursor, PageCursor { limit: 50, offset: 0, total: 1000, finished: true });
}

#[test]
fn walk_ends_when_the_total_is_reached() {
    let mut cursor = PageCursor::start(50, 100);
    cursor.advance(20, 120, true);
    assert_eq!(cursor, PageCursor { limit: 50, offset: 120, total: 120, finished: true });
    let mut beyond = PageCursor::start(50, 100);
    beyond.advance(50, 120, true);
    assert!(beyond.finished);
}

#[test]
fn walk_goes_on_while_entries_are_left() {
    let mut cursor = PageCursor::start(50, 0);
    cursor.advance(50, 120, true);
    assert_eq!(cursor, PageCursor { limit: 50, offset: 50, total: 120, finished: false });
    assert_eq!(cursor.next_query(), Some(params(50, 50)));
    cursor.advance(10, 120, true);
    assert_eq!(cursor, PageCursor { limit: 50, offset: 60, total: 120, finished: false });
}

#[test]
fn finished_cursor_ignores_further_pages() {
    let mut cursor = PageCursor::start(50, 0);
    cursor.advance(5, 5, false);
    let finished = cursor;
    cursor.advance(50, 1000, true);
    assert_eq!(cursor, finished);
}

#[test]
fn offset_stops_at_the_largest_number() {
    let mut cursor = PageCursor::start(50, u32::MAX - 10);
    cursor.advance(50, u32::MAX, true);
    assert_eq!(
        cursor,
        PageCursor { limit: 50, offset: u32::MAX, total: u32::MAX, finished: true }
    );
}

#[test]
fn walk_resumes_from_a_noted_cursor() {
    let mut pager = Playlists::new();
    pager.try_next(&served(120, 50, 0)).unwrap();
    let noted = pager.cursor();
    let mut resumed = Playlists::resume(noted);
    assert_eq!(resumed.next_query(), Some(params(50, 50)));
    let page = resumed.try_next(&served(120, 50, 50)).unwrap().unwrap();
    assert_eq!(page.items[0].id, "p50");
}

#[test]
fn body_without_a_page_fails_and_leaves_the_walk_where_it_was() {
    let mut pager = Playlists::new();
    let body = "{\"items\":[],\"total\":3}";
    assert_eq!(
        pager.try_next(body),
        Err(SpotifyError::CantFetchPlaylist(body.to_string()))
    );
    assert_eq!(pager.cursor(), PageCursor::start(50, 0));
    assert!(matches!(pager.try_next("oops"), Err(SpotifyError::Unknown { msg: Some(_) })));
    assert_eq!(pager.next_query(), Some(params(50, 0)));
}

#[test]
fn page_is_read_with_its_cursors() {
    let body = "{\"items\":[],\"total\":3,\"limit\":2,\"offset\":4,\"next\":\"n\",\"previous\":\"p\"}";
    let page = Page::<Playlist>::from_body(body).unwrap();
    assert_eq!(
        page,
        Page {
            items: Vec::new(),
            total: 3,
            limit: 2,
            offset: 4,
            next: Some("n".to_string()),
            previous: Some("p".to_string()),
        }
    );
    let value: serde_json::Value = serde_json::from_str(&served(3, 2, 0)).unwrap();
    let page = Page::<Playlist>::from_json(&value).unwrap();
    assert_eq!(page.items.len(), 2);
    assert_eq!(page.previous, None);
    assert!(page.next.is_some());
}

#[test]
fn page_with_a_bad_entry_or_member_is_refused() {
    let bad_entry = "{\"items\":[{\"id\":\"p\"}],\"total\":1,\"limit\":2,\"offset\":0}";
    assert!(Page::<Playlist>::from_body(bad_entry).is_err());
    let bad_next = "{\"items\":[],\"total\":1,\"limit\":2,\"offset\":0,\"next\":5}";
    assert!(Page::<Playlist>::from_body(bad_next).is_err());
    let no_limit = "{\"items\":[],\"total\":1,\"offset\":0}";
    assert!(Page::<Playlist>::from_body(no_limit).is_err());
    let items_no_array = "{\"items\":\"\",\"total\":1,\"limit\":2,\"offset\":0}";
    assert!(Page::<Playlist>::from_body(items_no_array).is_err());
}

#[test]
fn pages_of_tracks_are_walked_with_the_same_cursor() {
    let first = "{\"href\":\"h\",\"items\":[{\"added_at\":\"a1\",\"track\":{\"id\":\"1\",\"name\":\"one\",\"uri\":\"u1\"}},{\"added_at\":\"a2\",\"track\":{\"id\":\"2\",\"name\":\"two\",\"uri\":\"u2\"}}],\"limit\":2,\"next\":\"more\",\"offset\":0,\"previous\":null,\"total\":3}";
    let second = "{\"href\":\"h\",\"items\":[{\"added_at\":\"a3\",\"track\":{\"id\":\"3\",\"name\":\"three\",\"uri\":\"u3\"}}],\"limit\":2,\"next\":null,\"offset\":2,\"previous\":\"less\",\"total\":3}";
    let mut cursor = PageCursor::start(2, 0);
    assert_eq!(cursor.next_query(), Some(params(2, 0)));
    let page: Page<TrackItem> = cursor.take(first).unwrap().unwrap();
    assert_eq!(page.items.len(), 2);
    assert_eq!(
        page.items[1],
        TrackItem {
            added_at: "a2".to_string(),
            track: Track { id: "2".to_string(), name: "two".to_string(), uri: "u2".to_string() },
        }
    );
    assert_eq!(cursor, PageCursor { limit: 2, offset: 2, total: 3, finished: false });
    assert_eq!(cursor.next_query(), Some(params(2, 2)));
    let page: Page<TrackItem> = cursor.take(second).unwrap().unwrap();
    assert_eq!(page.items.len(), 1);
    assert_eq!(page.previous, Some("less".to_string()));
    assert_eq!(cursor, PageCursor { limit: 2, offset: 3, total: 3, finished: true });
    assert_eq!(cursor.take::<TrackItem>(second), Ok(None));
    let mut fresh = PageCursor::start(2, 0);
    assert_eq!(
        fresh.take::<Playlist>(first),
        Err(SpotifyError::CantFetchPlaylist(first.to_string()))
    );
    assert_eq!(fresh, PageCursor::start(2, 0));
}
