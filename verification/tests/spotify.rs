use discover_weekly::auth::TokenResponse;
use discover_weekly::config::Config;
use discover_weekly::http::HttpMethod;
use discover_weekly::json::FromJson;
use discover_weekly::spotify::{Playlist, PlaylistTrackItem, SpotifyClient, Track, TrackItem};
use discover_weekly::spotify_error::SpotifyError;

const PLAYLIST: &str = r#"{
  "collaborative": false,
  "description": "Your weekly mixtape of fresh music.",
  "id": "37i9dQZEVXcJZyENOWUFo7",
  "name": "Discover Weekly",
  "uri": "spotify:playlist:37i9dQZEVXcJZyENOWUFo7",
  "tracks": {
    "href": "https://api.spotify.com/v1/playlists/37i9dQZEVXcJZyENOWUFo7/tracks?offset=0&limit=50",
    "items": [
      {
        "added_at": "2023-05-01T00:00:00Z",
        "is_local": false,
        "track": { "id": "t1", "name": "First \"Song\"", "uri": "spotify:track:t1", "popularity": 12 }
      },
      {
        "added_at": "2023-05-01T00:00:01Z",
        "track": { "uri": "spotify:track:t2", "name": "Zweites Stück", "id": "t2" }
      }
    ],
    "limit": 50,
    "next": null,
    "total": 30
  }
}"#;

fn token(access_token: &str) -> TokenResponse {
    TokenResponse {
        access_token: access_token.to_string(),
        token_type: "Bearer".to_string(),
        expires_in: 3600,
        refresh_token: "refresh".to_string(),
        scope: "playlist-read-private".to_string(),
    }
}

fn config() -> Config {
    Config {
        base_url: "https://api.spotify.com/v1".to_string(),
        discover_playlist: "37i9dQZEVXcJZyENOWUFo7".to_string(),
        ..Config::default()
    }
}

fn expected_playlist() -> Playlist {
    Playlist {
        id: "37i9dQZEVXcJZyENOWUFo7".to_string(),
        uri: "spotify:playlist:37i9dQZEVXcJZyENOWUFo7".to_string(),
        name: "Discover Weekly".to_string(),
        description: Some("Your weekly mixtape of fresh music.".to_string()),
        tracks: PlaylistTrackItem {
            href: "https://api.spotify.com/v1/playlists/37i9dQZEVXcJZyENOWUFo7/tracks?offset=0&limit=50"
                .to_string(),
            items: vec![
                TrackItem {
                    added_at: "2023-05-01T00:00:00Z".to_string(),
                    track: Track {
                        id: "t1".to_string(),
                        name: "First \"Song\"".to_string(),
                        uri: "spotify:track:t1".to_string(),
                    },
                },
                TrackItem {
                    added_at: "2023-05-01T00:00:01Z".to_string(),
                    track: Track {
                        id: "t2".to_string(),
                        name: "Zweites Stück".to_string(),
                        uri: "spotify:track:t2".to_string(),
                    },
                },
            ],
            total: 30,
        },
    }
}

#[test]
fn playlist_is_read_with_its_tracks_in_order() {
    assert_eq!(Playlist::from_body(PLAYLIST), Ok(expected_playlist()));
}

#[test]
fn playlist_description_may_be_null_or_missing() {
    let with_null = r#"{"id":"p","uri":"u","name":"n","description":null,"tracks":{"href":"h","items":[],"total":0}}"#;
    assert_eq!(Playlist::from_body(with_null).unwrap().description, None);
    let without = r#"{"id":"p","uri":"u","name":"n","tracks":{"href":"h","items":[],"total":0}}"#;
    let playlist = Playlist::from_body(without).unwrap();
    assert_eq!(playlist.description, None);
    assert_eq!(playlist.tracks.items.len(), 0);
    let with_number = r#"{"id":"p","uri":"u","name":"n","description":3,"tracks":{"href":"h","items":[],"total":0}}"#;
    assert_eq!(
        Playlist::from_body(with_number),
        Err(SpotifyError::CantFetchPlaylist(with_number.to_string()))
    );
}

#[test]
fn playlist_with_a_missing_member_fails_with_the_body() {
    let bodies = [
        r#"{"uri":"u","name":"n","tracks":{"href":"h","items":[],"total":0}}"#,
        r#"{"id":"p","name":"n","tracks":{"href":"h","items":[],"total":0}}"#,
        r#"{"id":"p","uri":"u","tracks":{"href":"h","items":[],"total":0}}"#,
        r#"{"id":"p","uri":"u","name":"n"}"#,
        r#"{"id":"p","uri":"u","name":"n","tracks":{"items":[],"total":0}}"#,
        r#"{"id":"p","uri":"u","name":"n","tracks":{"href":"h","total":0}}"#,
        r#"{"id":"p","uri":"u","name":"n","tracks":{"href":"h","items":[]}}"#,
        r#"{"id":"p","uri":"u","name":"n","tracks":{"href":"h","items":{},"total":0}}"#,
        r#"{"id":"p","uri":"u","name":"n","tracks":{"href":"h","items":[{"added_at":"a"}],"total":1}}"#,
        r#"{"id":"p","uri":"u","name":"n","tracks":{"href":"h","items":[{"added_at":"a","track":null}],"total":1}}"#,
        r#"{"id":"p","uri":"u","name":"n","tracks":{"href":"h","items":[{"added_at":"a","track":{"id":"t","name":"n"}}],"total":1}}"#,
        r#"{"id":"p","uri":"u","name":"n","tracks":{"href":"h","items":[{"track":{"id":"t","name":"n","uri":"u"}}],"total":1}}"#,
        r#"{"error":{"status":401,"message":"The access token expired"}}"#,
        "[]",
    ];
    for body in bodies {
        let error = Playlist::from_body(body).unwrap_err();
        assert_eq!(error, SpotifyError::CantFetchPlaylist(body.to_string()));
        assert_eq!(error.detail(), Some(&body.to_string()));
    }
}

#[test]
fn playlist_body_that_is_not_json_fails_with_the_parsers_message() {
    let error = Playlist::from_body("{\"id\":").unwrap_err();
    assert_eq!(
        error,
        SpotifyError::Unknown { msg: Some("EOF while parsing a value at line 1 column 6".to_string()) }
    );
}

#[test]
fn one_bad_entry_spoils_the_listing() {
    let body = r#"{"href":"h","items":[{"added_at":"a","track":{"id":"1","name":"n","uri":"u"}},{"added_at":7,"track":{"id":"2","name":"n","uri":"u"}}],"total":2}"#;
    let value: serde_json::Value = serde_json::from_str(body).unwrap();
    assert_eq!(PlaylistTrackItem::from_json(&value), None);
}

#[test]
fn parts_are_read_out_of_parsed_documents() {
    let value: serde_json::Value = serde_json::from_str(PLAYLIST).unwrap();
    assert_eq!(Playlist::from_json(&value), Some(expected_playlist()));
    let tracks = value.get("tracks").unwrap();
    assert_eq!(PlaylistTrackItem::from_json(tracks).unwrap().total, 30);
    let first = &tracks.get("items").unwrap().as_array().unwrap()[0];
    let item = TrackItem::from_json(first).unwrap();
    assert_eq!(item.added_at, "2023-05-01T00:00:00Z");
    let track = Track::from_json(first.get("track").unwrap()).unwrap();
    assert_eq!(track.name, "First \"Song\"");
    assert_eq!(Track::from_json(first), None);
    assert_eq!(TrackItem::from_json(tracks), None);
}

#[test]
fn playlist_is_written_as_compact_json() {
    let playlist = expected_playlist();
    assert_eq!(
        playlist.to_json(),
        "{\"id\":\"37i9dQZEVXcJZyENOWUFo7\",\"uri\":\"spotify:playlist:37i9dQZEVXcJZyENOWUFo7\",\"name\":\"Discover Weekly\",\"description\":\"Your weekly mixtape of fresh music.\",\"tracks\":{\"href\":\"https://api.spotify.com/v1/playlists/37i9dQZEVXcJZyENOWUFo7/tracks?offset=0&limit=50\",\"items\":[{\"added_at\":\"2023-05-01T00:00:00Z\",\"track\":{\"id\":\"t1\",\"name\":\"First \\\"Song\\\"\",\"uri\":\"spotify:track:t1\"}},{\"added_at\":\"2023-05-01T00:00:01Z\",\"track\":{\"id\":\"t2\",\"name\":\"Zweites Stück\",\"uri\":\"spotify:track:t2\"}}],\"total\":30}}"
    );
}

#[test]
fn empty_playlist_is_written_with_null_and_empty_list() {
    assert_eq!(
        Playlist::default().to_json(),
        "{\"id\":\"\",\"uri\":\"\",\"name\":\"\",\"description\":null,\"tracks\":{\"href\":\"\",\"items\":[],\"total\":0}}"
    );
    assert_eq!(Track::default().to_json(), "{\"id\":\"\",\"name\":\"\",\"uri\":\"\"}");
    assert_eq!(
        TrackItem::default().to_json(),
        "{\"added_at\":\"\",\"track\":{\"id\":\"\",\"name\":\"\",\"uri\":\"\"}}"
    );
    assert_eq!(
        PlaylistTrackItem::default().to_json(),
        "{\"href\":\"\",\"items\":[],\"total\":0}"
    );
}

#[test]
fn listing_of_one_entry_has_no_comma() {
    let tracks = PlaylistTrackItem {
        href: "h".to_string(),
        items: vec![TrackItem::default()],
        total: 4294967295,
    };
    assert_eq!(
        tracks.to_json(),
        "{\"href\":\"h\",\"items\":[{\"added_at\":\"\",\"track\":{\"id\":\"\",\"name\":\"\",\"uri\":\"\"}}],\"total\":4294967295}"
    );
}

#[test]
fn written_playlist_reads_back_equal() {
    let playlist = expected_playlist();
    assert_eq!(Playlist::from_body(&playlist.to_json()), Ok(expected_playlist()));
    let empty = Playlist::default();
    assert_eq!(Playlist::from_body(&empty.to_json()), Ok(Playlist::default()));
}

#[test]
fn read_request_carries_the_bearer_token() {
    let client = SpotifyClient::new(token("BQD-token"));
    let params = vec![("limit".to_string(), 10i64), ("offset".to_string(), 20i64)];
    let request = client.get("https://api.spotify.com/v1/me/tracks".to_string(), &params);
    assert_eq!(request.method, HttpMethod::Get);
    assert_eq!(request.url, "https://api.spotify.com/v1/me/tracks?limit=10&offset=20");
    assert_eq!(
        request.headers,
        vec![("Authorization".to_string(), "Bearer BQD-token".to_string())]
    );
    assert!(request.form.is_empty());
}

#[test]
fn read_request_without_parameters_has_no_query() {
    let client = SpotifyClient::new(token("t"));
    let request = client.get("https://api.spotify.com/v1/me".to_string(), &Vec::new());
    assert_eq!(request.url, "https://api.spotify.com/v1/me");
}

#[test]
fn discovery_playlist_is_asked_for_by_its_id() {
    let client = SpotifyClient::new(token("abc"));
    let request = client.discovery_weekly_playlist(&config());
    assert_eq!(request.method, HttpMethod::Get);
    assert_eq!(
        request.url,
        "https://api.spotify.com/v1/playlists/37i9dQZEVXcJZyENOWUFo7?limit=50"
    );
    assert_eq!(request.headers, vec![("Authorization".to_string(), "Bearer abc".to_string())]);
}

#[test]
fn archive_playlist_is_looked_for_among_the_users_playlists() {
    let client = SpotifyClient::new(token("abc"));
    let request = client.clone().get_or_create_archive_playlist(&config());
    assert_eq!(request.method, HttpMethod::Get);
    assert_eq!(request.url, "https://api.spotify.com/v1/me/playlists?limit=50");
    assert_eq!(request.headers, vec![("Authorization".to_string(), "Bearer abc".to_string())]);
}
