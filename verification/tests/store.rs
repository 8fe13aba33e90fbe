use discover_weekly::auth::TokenResponse;
use discover_weekly::config::Config;
use discover_weekly::spotify_error::SpotifyError;
use discover_weekly::store::Store;
use std::collections::HashMap;

fn config_with_password(password: &str) -> Config {
    Config {
        redis_url: "redis.example.org".to_string(),
        redis_port: "6380".to_string(),
        redis_db: "2".to_string(),
        redis_password: password.to_string(),
        ..Config::default()
    }
}

fn token(access_token: &str, expires_in: u32) -> TokenResponse {
    TokenResponse {
        access_token: access_token.to_string(),
        token_type: "Bearer".to_string(),
        expires_in,
        refresh_token: "AQC-refresh".to_string(),
        scope: "playlist-read-private".to_string(),
    }
}

/// A key-value store in memory: each write replaces what its key held.
fn apply(contents: &mut HashMap<String, String>, writes: &[(String, String)]) {
    for (key, value) in writes {
        contents.insert(key.clone(), value.clone());
    }
}

fn read(store: &Store, contents: &HashMap<String, String>) -> Result<(TokenResponse, String), SpotifyError> {
    store.get_token_response(
        contents.get(store.redis_key()).cloned(),
        contents.get(store.insert_time_key()).cloned(),
    )
}

#[test]
fn address_is_written_with_the_password_percent_encoded() {
    assert_eq!(
        Store::get_connection_info("hunter2", "localhost", "6379", &"0".to_string()),
        "redis://:hunter2@localhost:6379/0"
    );
    assert_eq!(
        Store::get_connection_info("p@ss word/é", "redis.example.org", "6380", &"2".to_string()),
        "redis://:p%40ss%20word%2F%C3%A9@redis.example.org:6380/2"
    );
    assert_eq!(
        Store::get_connection_info("abc-._~XYZ019", "h", "1", &"".to_string()),
        "redis://:abc-._~XYZ019@h:1/"
    );
    assert_eq!(
        Store::get_connection_info("%:ÿ\n", "h", "1", &"0".to_string()),
        "redis://:%25%3A%C3%BF%0A@h:1/0"
    );
    assert_eq!(Store::get_connection_info("", "", "", &"".to_string()), "redis://:@:/");
}

#[test]
fn opened_store_has_the_two_fixed_keys() {
    let store = Store::open(&config_with_password("p@ss")).unwrap();
    assert_eq!(store.connection_info(), "redis://:p%40ss@redis.example.org:6380/2");
    assert_eq!(store.redis_key(), "tokens");
    assert_eq!(store.insert_time_key(), "tokens:time");
}

#[test]
fn put_writes_the_token_and_then_the_time() {
    let store = Store::open(&config_with_password("")).unwrap();
    let writes = store.store_access_tokens(&token("BQD", 3600), "2024-02-29 12:00:00.000000 UTC").unwrap();
    assert_eq!(
        writes,
        vec![
            (
                "tokens".to_string(),
                "{\"access_token\":\"BQD\",\"token_type\":\"Bearer\",\"expires_in\":3600,\"refresh_token\":\"AQC-refresh\",\"scope\":\"playlist-read-private\"}"
                    .to_string()
            ),
            ("tokens:time".to_string(), "2024-02-29 12:00:00.000000 UTC".to_string()),
        ]
    );
}

#[test]
fn get_from_an_empty_store_misses_the_value() {
    let store = Store::open(&config_with_password("pw")).unwrap();
    let error = store.get_token_response(None, None).unwrap_err();
    assert_eq!(error, SpotifyError::Unknown { msg: Some("Missing value".to_string()) });
    assert_eq!(read(&store, &HashMap::new()), Err(error));
    let only_time = store.get_token_response(None, Some("2024-01-01".to_string()));
    assert_eq!(
        only_time,
        Err(SpotifyError::Unknown { msg: Some("Missing value".to_string()) })
    );
}

#[test]
fn get_after_put_returns_what_was_written() {
    let store = Store::open(&config_with_password("pw")).unwrap();
    let written = token("a\"b\\c\n\u{1}é😀", 3600);
    let now = "2024-02-29 12:00:00.000000 UTC";
    let mut contents = HashMap::new();
    apply(&mut contents, &store.store_access_tokens(&written, now).unwrap());
    let (found, inserted_at) = read(&store, &contents).unwrap();
    assert_eq!(found, written);
    assert_eq!(inserted_at, now);
    assert!(inserted_at.as_str() <= now);
}

#[test]
fn later_put_replaces_the_earlier_one() {
    let store = Store::open(&config_with_password("pw")).unwrap();
    let mut contents = HashMap::new();
    apply(&mut contents, &store.store_access_tokens(&token("first", 1), "t1").unwrap());
    apply(&mut contents, &store.store_access_tokens(&token("second", 2), "t2").unwrap());
    assert_eq!(contents.len(), 2);
    assert_eq!(read(&store, &contents), Ok((token("second", 2), "t2".to_string())));
}

#[test]
fn token_without_a_time_is_still_read() {
    let store = Store::open(&config_with_password("pw")).unwrap();
    let writes = store.store_access_tokens(&token("a", 1), "t").unwrap();
    let found = store.get_token_response(Some(writes[0].1.clone()), None);
    assert_eq!(found, Ok((token("a", 1), String::new())));
}

#[test]
fn stored_text_that_is_no_token_fails() {
    let store = Store::open(&config_with_password("pw")).unwrap();
    let broken = store.get_token_response(Some("{\"access_token\":".to_string()), None);
    assert_eq!(
        broken,
        Err(SpotifyError::Unknown {
            msg: Some("EOF while parsing a value at line 1 column 16".to_string())
        })
    );
    let other = store.get_token_response(Some("{}".to_string()), Some("t".to_string()));
    assert_eq!(other, Err(SpotifyError::Unknown { msg: Some("{}".to_string()) }));
}

#[test]
fn writes_of_two_puts_in_any_order_leave_a_whole_token() {
    let store = Store::open(&config_with_password("pw")).unwrap();
    let first = token("first", 1);
    let second = token("second", 2);
    let a = store.store_access_tokens(&first, "t1").unwrap();
    let b = store.store_access_tokens(&second, "t2").unwrap();
    let orders: [[&(String, String); 4]; 6] = [
        [&a[0], &a[1], &b[0], &b[1]],
        [&a[0], &b[0], &a[1], &b[1]],
        [&a[0], &b[0], &b[1], &a[1]],
        [&b[0], &a[0], &a[1], &b[1]],
        [&b[0], &a[0], &b[1], &a[1]],
        [&b[0], &b[1], &a[0], &a[1]],
    ];
    for order in orders {
        let mut contents = HashMap::new();
        for write in order {
            apply(&mut contents, &[write.clone()]);
            match read(&store, &contents) {
                Ok((found, _)) => assert!(found == first || found == second),
                Err(error) => panic!("a whole token was expected, not {:?}", error),
            }
        }
    }
}
