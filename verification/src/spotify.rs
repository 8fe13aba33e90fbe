//! Playlists as the service describes them, and the client that asks for
//! them with a bearer token.

use crate::auth::{TokenResponse, TokenView};
use crate::config::{Config, ConfigView};
use crate::http::{query_string, query_text, HttpMethod, HttpRequest, RequestView};
use crate::json::{
    all_decoded, as_items, items_of, json_content, json_parse, json_quoted, member, member_of, optional_json,
    optional_quoted, optional_text_field, optional_text_member, parse, quoted, read_all,
    text_field, text_member, u32_field, u32_member, views, FromJson, JsonValue,
};
use crate::spotify_error::{ErrorView, SpotifyError};
use crate::text::{decimal, decimal_string, join};
use vstd::prelude::*;
use vstd::string::StringExecFns;

verus! {

/// A track of a playlist.
#[derive(Debug, PartialEq, Eq)]
pub struct Track {
    pub id: String,
    pub name: String,
    pub uri: String,
}

/// The mathematical content of a [`Track`].
pub struct TrackView {
    pub id: Seq<char>,
    pub name: Seq<char>,
    pub uri: Seq<char>,
}

impl View for Track {
    type V = TrackView;

    open spec fn view(&self) -> TrackView {
        TrackView { id: self.id@, name: self.name@, uri: self.uri@ }
    }
}

impl Default for Track {
    fn default() -> (r: Track)
        ensures
            r@ == (TrackView { id: Seq::empty(), name: Seq::empty(), uri: Seq::empty() }),
    {
        Track { id: String::new(), name: String::new(), uri: String::new() }
    }
}

/// The track that a JSON document holds: an object with the string members
/// `id`, `name` and `uri`.
pub open spec fn track_of(j: JsonValue) -> Option<TrackView> {
    if text_member(j, "id"@) is Some && text_member(j, "name"@) is Some && text_member(
        j,
        "uri"@,
    ) is Some {
        Some(
            TrackView {
                id: text_member(j, "id"@)->0,
                name: text_member(j, "name"@)->0,
                uri: text_member(j, "uri"@)->0,
            },
        )
    } else {
        None
    }
}

/// A track as JSON.
pub open spec fn track_json(track: TrackView) -> Seq<char> {
    "{\"id\":"@ + json_quoted(track.id) + ",\"name\":"@ + json_quoted(track.name) + ",\"uri\":"@
        + json_quoted(track.uri) + "}"@
}

impl FromJson for Track {
    open spec fn decoded(j: JsonValue) -> Option<TrackView> {
        track_of(j)
    }

    fn from_json(v: &serde_json::Value) -> (r: Option<Track>) {
        assert(Track::decoded(json_content(*v)) == track_of(json_content(*v)));
        let id = text_field(v, "id")?;
        let name = text_field(v, "name")?;
        let uri = text_field(v, "uri")?;
        Some(Track { id, name, uri })
    }
}

impl Track {
    /// Writes this track as JSON.
    pub fn to_json(&self) -> (r: String)
        ensures
            r@ == track_json(self@),
    {
        let mut r = String::from_str("{\"id\":");
        let id = quoted(self.id.as_str());
        r.append(id.as_str());
        r.append(",\"name\":");
        let name = quoted(self.name.as_str());
        r.append(name.as_str());
        r.append(",\"uri\":");
        let uri = quoted(self.uri.as_str());
        r.append(uri.as_str());
        r.append("}");
        r
    }
}

/// One entry of a playlist: a track and when it was added.
#[derive(Debug, PartialEq, Eq)]
pub struct TrackItem {
    pub added_at: String,
    pub track: Track,
}

/// The mathematical content of a [`TrackItem`].
pub struct TrackItemView {
    pub added_at: Seq<char>,
    pub track: TrackView,
}

impl View for TrackItem {
    type V = TrackItemView;

    open spec fn view(&self) -> TrackItemView {
        TrackItemView { added_at: self.added_at@, track: self.track@ }
    }
}

impl Default for TrackItem {
    fn default() -> (r: TrackItem)
        ensures
            r@ == (TrackItemView {
                added_at: Seq::empty(),
                track: TrackView { id: Seq::empty(), name: Seq::empty(), uri: Seq::empty() },
            }),
    {
        TrackItem { added_at: String::new(), track: Track::default() }
    }
}

/// The entry that a JSON document holds: an object with the string member
/// `added_at` and a member `track` that holds a track.
pub open spec fn track_item_of(j: JsonValue) -> Option<TrackItemView> {
    match (text_member(j, "added_at"@), member_of(j, "track"@)) {
        (Some(added_at), Some(t)) => match track_of(t) {
            Some(track) => Some(TrackItemView { added_at, track }),
            None => None,
        },
        _ => None,
    }
}

/// An entry as JSON.
pub open spec fn track_item_json(item: TrackItemView) -> Seq<char> {
    "{\"added_at\":"@ + json_quoted(item.added_at) + ",\"track\":"@ + track_json(item.track)
        + "}"@
}

impl FromJson for TrackItem {
    open spec fn decoded(j: JsonValue) -> Option<TrackItemView> {
        track_item_of(j)
    }

    fn from_json(v: &serde_json::Value) -> (r: Option<TrackItem>) {
        let added_at = text_field(v, "added_at")?;
        let t = member(v, "track")?;
        let track = Track::from_json(t)?;
        Some(TrackItem { added_at, track })
    }
}

impl TrackItem {
    /// Writes this entry as JSON.
    pub fn to_json(&self) -> (r: String)
        ensures
            r@ == track_item_json(self@),
    {
        let mut r = String::from_str("{\"added_at\":");
        let added_at = quoted(self.added_at.as_str());
        r.append(added_at.as_str());
        r.append(",\"track\":");
        let track = self.track.to_json();
        r.append(track.as_str());
        r.append("}");
        r
    }
}

/// Entries as JSON, with commas between them.
pub open spec fn track_items_json(items: Seq<TrackItemView>) -> Seq<char>
    decreases items.len(),
{
    if items.len() == 0 {
        Seq::empty()
    } else if items.len() == 1 {
        track_item_json(items[0])
    } else {
        track_items_json(items.drop_last()) + ","@ + track_item_json(items.last())
    }
}

/// The tracks of a playlist: where they are listed, those that were sent,
/// and how many there are in all.
#[derive(Debug, PartialEq, Eq)]
pub struct PlaylistTrackItem {
    pub href: String,
    pub items: Vec<TrackItem>,
    pub total: u32,
}

/// The mathematical content of a [`PlaylistTrackItem`].
pub struct TracksView {
    pub href: Seq<char>,
    pub items: Seq<TrackItemView>,
    pub total: u32,
}

impl View for PlaylistTrackItem {
    type V = TracksView;

    open spec fn view(&self) -> TracksView {
        TracksView { href: self.href@, items: views(self.items@), total: self.total }
    }
}

impl Default for PlaylistTrackItem {
    fn default() -> (r: PlaylistTrackItem)
        ensures
            r@ == (TracksView { href: Seq::empty(), items: Seq::empty(), total: 0 }),
    {
        let r = PlaylistTrackItem { href: String::new(), items: Vec::new(), total: 0 };
        assert(r@.items =~= Seq::empty());
        r
    }
}

/// The track listing that a JSON document holds: an object with the string
/// member `href`, an array `items` of entries and the 32-bit unsigned
/// member `total`.
pub open spec fn tracks_of(j: JsonValue) -> Option<TracksView> {
    match (text_member(j, "href"@), member_of(j, "items"@), u32_member(j, "total"@)) {
        (Some(href), Some(list), Some(total)) => match items_of(list) {
            Some(values) => match all_decoded::<TrackItem>(values) {
                Some(items) => Some(TracksView { href, items, total }),
                None => None,
            },
            None => None,
        },
        _ => None,
    }
}

/// A track listing as JSON.
pub open spec fn tracks_json(tracks: TracksView) -> Seq<char> {
    "{\"href\":"@ + json_quoted(tracks.href) + ",\"items\":["@ + track_items_json(tracks.items)
        + "],\"total\":"@ + decimal(tracks.total as nat) + "}"@
}

impl FromJson for PlaylistTrackItem {
    open spec fn decoded(j: JsonValue) -> Option<TracksView> {
        tracks_of(j)
    }

    fn from_json(v: &serde_json::Value) -> (r: Option<PlaylistTrackItem>) {
        let href = text_field(v, "href")?;
        let list = member(v, "items")?;
        let total = u32_field(v, "total")?;
        let values = as_items(list)?;
        let items = read_all::<TrackItem>(values)?;
        Some(PlaylistTrackItem { href, items, total })
    }
}

impl PlaylistTrackItem {
    /// Writes this track listing as JSON.
    pub fn to_json(&self) -> (r: String)
        ensures
            r@ == tracks_json(self@),
    {
        let mut r = String::from_str("{\"href\":");
        let href = quoted(self.href.as_str());
        r.append(href.as_str());
        r.append(",\"items\":[");
        let ghost head = r@;
        let ghost all = views(self.items@);
        let mut i: usize = 0;
        while i < self.items.len()
            invariant
                i <= self.items@.len(),
                all == views(self.items@),
                r@ == head + track_items_json(all.take(i as int)),
            decreases self.items@.len() - i,
        {
            if i > 0 {
                r.append(",");
            }
            let item = self.items[i].to_json();
            r.append(item.as_str());
            proof {
                assert(all.take(i as int + 1).drop_last() =~= all.take(i as int));
            }
            i += 1;
        }
        proof {
            assert(all.take(i as int) =~= all);
        }
        r.append("],\"total\":");
        let total = decimal_string(self.total as u64);
        r.append(total.as_str());
        r.append("}");
        r
    }
}

/// A playlist of the service.
#[derive(Debug, PartialEq, Eq)]
pub struct Playlist {
    pub id: String,
    pub uri: String,
    pub name: String,
    pub description: Option<String>,
    pub tracks: PlaylistTrackItem,
}

/// The mathematical content of a [`Playlist`].
pub struct PlaylistView {
    pub id: Seq<char>,
    pub uri: Seq<char>,
    pub name: Seq<char>,
    pub description: Option<Seq<char>>,
    pub tracks: TracksView,
}

impl View for Playlist {
    type V = PlaylistView;

    open spec fn view(&self) -> PlaylistView {
        PlaylistView {
            id: self.id@,
            uri: self.uri@,
            name: self.name@,
            description: self.description.deep_view(),
            tracks: self.tracks@,
        }
    }
}

impl Default for Playlist {
    fn default() -> (r: Playlist)
        ensures
            r@ == (PlaylistView {
                id: Seq::empty(),
                uri: Seq::empty(),
                name: Seq::empty(),
                description: None,
                tracks: TracksView { href: Seq::empty(), items: Seq::empty(), total: 0 },
            }),
    {
        Playlist {
            id: String::new(),
            uri: String::new(),
            name: String::new(),
            description: None,
            tracks: PlaylistTrackItem::default(),
        }
    }
}

/// The playlist that a JSON document holds: an object with the string
/// members `id`, `uri` and `name`, a member `tracks` that holds a track
/// listing, and a `description` that is a string, `null` or missing.
pub open spec fn playlist_of(j: JsonValue) -> Option<PlaylistView> {
    match (
        text_member(j, "id"@),
        text_member(j, "uri"@),
        text_member(j, "name"@),
        optional_text_member(j, "description"@),
        member_of(j, "tracks"@),
    ) {
        (Some(id), Some(uri), Some(name), Some(description), Some(t)) => match tracks_of(t) {
            Some(tracks) => Some(PlaylistView { id, uri, name, description, tracks }),
            None => None,
        },
        _ => None,
    }
}

/// A playlist as JSON, members in the order of the fields.
pub open spec fn playlist_json(playlist: PlaylistView) -> Seq<char> {
    "{\"id\":"@ + json_quoted(playlist.id) + ",\"uri\":"@ + json_quoted(playlist.uri)
        + ",\"name\":"@ + json_quoted(playlist.name) + ",\"description\":"@ + optional_json(
        playlist.description,
    ) + ",\"tracks\":"@ + tracks_json(playlist.tracks) + "}"@
}

/// What the answer to a playlist request amounts to: the playlist it
/// holds; the parser's message where the body is not JSON; the body itself
/// where it is JSON of another shape.
pub open spec fn playlist_reply(body: Seq<char>) -> Result<PlaylistView, ErrorView> {
    match json_parse(body) {
        Err(message) => Err(ErrorView::Unknown { msg: Some(message) }),
        Ok(j) => match playlist_of(j) {
            Some(playlist) => Ok(playlist),
            None => Err(ErrorView::CantFetchPlaylist(body)),
        },
    }
}

impl FromJson for Playlist {
    open spec fn decoded(j: JsonValue) -> Option<PlaylistView> {
        playlist_of(j)
    }

    fn from_json(v: &serde_json::Value) -> (r: Option<Playlist>) {
        let id = text_field(v, "id")?;
        let uri = text_field(v, "uri")?;
        let name = text_field(v, "name")?;
        let description = optional_text_field(v, "description")?;
        let t = member(v, "tracks")?;
        let tracks = PlaylistTrackItem::from_json(t)?;
        Some(Playlist { id, uri, name, description, tracks })
    }
}

impl Playlist {
    /// Reads a playlist out of the body of an answer.
    pub fn from_body(body: &str) -> (r: Result<Playlist, SpotifyError>)
        ensures
            match r {
                Ok(playlist) => playlist_reply(body@) == Ok::<PlaylistView, ErrorView>(playlist@),
                Err(e) => playlist_reply(body@) == Err::<PlaylistView, ErrorView>(e@),
            },
    {
        match parse(body) {
            Err(e) => Err(SpotifyError::from(e)),
            Ok(v) => match Playlist::from_json(&v) {
                Some(playlist) => Ok(playlist),
                None => Err(SpotifyError::CantFetchPlaylist(String::from_str(body))),
            },
        }
    }

    /// Writes this playlist as JSON.
    pub fn to_json(&self) -> (r: String)
        ensures
            r@ == playlist_json(self@),
    {
        let mut r = String::from_str("{\"id\":");
        let id = quoted(self.id.as_str());
        r.append(id.as_str());
        r.append(",\"uri\":");
        let uri = quoted(self.uri.as_str());
        r.append(uri.as_str());
        r.append(",\"name\":");
        let name = quoted(self.name.as_str());
        r.append(name.as_str());
        r.append(",\"description\":");
        let description = optional_quoted(&self.description);
        r.append(description.as_str());
        r.append(",\"tracks\":");
        let tracks = self.tracks.to_json();
        r.append(tracks.as_str());
        r.append("}");
        r
    }
}

/// The client of the playlist endpoints; it holds the tokens it sends.
pub struct SpotifyClient {
    auth_info: TokenResponse,
}

impl View for SpotifyClient {
    type V = TokenView;

    closed spec fn view(&self) -> TokenView {
        self.auth_info@
    }
}

impl Clone for SpotifyClient {
    fn clone(&self) -> (r: SpotifyClient)
        ensures
            r@ == self@,
    {
        SpotifyClient { auth_info: self.auth_info.clone() }
    }
}

/// A read request authorized by a bearer token: `uri` with the query
/// string of `params` behind it.
pub open spec fn get_request(
    token: TokenView,
    uri: Seq<char>,
    params: Seq<(Seq<char>, i64)>,
) -> RequestView {
    RequestView {
        method: HttpMethod::Get,
        url: uri + query_text(params),
        headers: seq![("Authorization"@, "Bearer "@ + token.access_token)],
        form: Seq::empty(),
    }
}

/// Where the discovery playlist of `config` is read.
pub open spec fn discovery_uri(config: ConfigView) -> Seq<char> {
    config.base_url + "/playlists/"@ + config.discover_playlist
}

/// Where the user's own playlists are listed.
pub open spec fn archive_uri(config: ConfigView) -> Seq<char> {
    config.base_url + "/me/playlists"@
}

/// The parameters that the playlist requests carry: a page size of 50.
pub open spec fn default_params() -> Seq<(Seq<char>, i64)> {
    seq![("limit"@, 50i64)]
}

impl SpotifyClient {
    /// A client that sends the access token of `token_response`.
    pub fn new(token_response: TokenResponse) -> (r: SpotifyClient)
        ensures
            r@ == token_response@,
    {
        SpotifyClient { auth_info: token_response }
    }

    /// Builds the request that reads `uri` with `query_params`, in the
    /// order given.
    pub fn get(&self, uri: String, query_params: &Vec<(String, i64)>) -> (r: HttpRequest)
        ensures
            r@ == get_request(self@, uri@, query_params.deep_view()),
    {
        let mut url = uri;
        let query = query_string(query_params);
        url.append(query.as_str());
        let mut headers: Vec<(String, String)> = Vec::new();
        headers.push(
            (
                String::from_str("Authorization"),
                join("Bearer ", self.auth_info.access_token.as_str()),
            ),
        );
        let r = HttpRequest { method: HttpMethod::Get, url, headers, form: Vec::new() };
        assert(r@.headers =~= get_request(self@, uri@, query_params.deep_view()).headers);
        assert(r@.form =~= Seq::empty());
        r
    }

    /// Builds the request that reads the discovery playlist.
    pub fn discovery_weekly_playlist(&self, config: &Config) -> (r: HttpRequest)
        ensures
            r@ == get_request(self@, discovery_uri(config@), default_params()),
    {
        let mut query_params: Vec<(String, i64)> = Vec::new();
        query_params.push((String::from_str("limit"), 50));
        let mut uri = join(config.base_url.as_str(), "/playlists/");
        uri.append(config.discover_playlist.as_str());
        assert(query_params.deep_view() =~= default_params());
        self.get(uri, &query_params)
    }

    /// Builds the request that lists the user's own playlists, among which
    /// the archive playlist is looked for.
    pub fn get_or_create_archive_playlist(&self, config: &Config) -> (r: HttpRequest)
        ensures
            r@ == get_request(self@, archive_uri(config@), default_params()),
    {
        let mut query_params: Vec<(String, i64)> = Vec::new();
        query_params.push((String::from_str("limit"), 50));
        let uri = join(config.base_url.as_str(), "/me/playlists");
        assert(query_params.deep_view() =~= default_params());
        self.get(uri, &query_params)
    }
}

} // verus!
