//! The token store: one slot for the current snapshot and one for the
//! time it was written, under two fixed keys of a key-value store.
//!
//! Reading and writing the key-value store is left to the caller. What is
//! written, and what the values read back amount to, is decided here.

use crate::auth::{reads_back, token_json, token_reply, TokenResponse, TokenView};
use crate::config::{Config, ConfigView};
use crate::encoding::{encodable, is_encodable, percent_encode, percent_encoded};
use crate::spotify_error::{ErrorView, SpotifyError};
use vstd::prelude::*;
use vstd::string::StringExecFns;
use vstd::utf8::encode_utf8;

verus! {

/// Where the store is, and the keys of its two slots.
#[derive(Debug, PartialEq, Eq)]
pub struct Store {
    connection_info: String,
    redis_key: String,
    insert_time_key: String,
}

/// The mathematical content of a [`Store`].
pub struct StoreView {
    pub connection_info: Seq<char>,
    pub redis_key: Seq<char>,
    pub insert_time_key: Seq<char>,
}

impl View for Store {
    type V = StoreView;

    closed spec fn view(&self) -> StoreView {
        StoreView {
            connection_info: self.connection_info@,
            redis_key: self.redis_key@,
            insert_time_key: self.insert_time_key@,
        }
    }
}

/// The address of the store: the password percent-encoded, then host, port
/// and database.
pub open spec fn connection_text(
    password: Seq<char>,
    host: Seq<char>,
    port: Seq<char>,
    db: Seq<char>,
) -> Seq<char> {
    "redis://:"@ + percent_encoded(encode_utf8(password)) + "@"@ + host + ":"@ + port + "/"@ + db
}

/// The store that `config` describes, with its fixed keys.
pub open spec fn opened(config: ConfigView) -> StoreView {
    StoreView {
        connection_info: connection_text(
            config.redis_password,
            config.redis_url,
            config.redis_port,
            config.redis_db,
        ),
        redis_key: "tokens"@,
        insert_time_key: "tokens:time"@,
    }
}

/// The error of a store whose address cannot be written.
pub open spec fn address_error() -> ErrorView {
    ErrorView::RedisError("password too long"@)
}

/// The writes that persist `token` at the time `now`: the snapshot as JSON
/// under the token key, then the time under the time key.
pub open spec fn token_writes(store: StoreView, token: TokenView, now: Seq<char>) -> Seq<
    (Seq<char>, Seq<char>),
> {
    seq![(store.redis_key, token_json(token)), (store.insert_time_key, now)]
}

/// The error of a snapshot whose JSON text would not read back as it.
pub open spec fn unreadable_error() -> ErrorView {
    ErrorView::RedisError("snapshot would not read back"@)
}

/// What persisting `token` at the time `now` amounts to: its writes, where
/// the snapshot reads back from its JSON text, and a store error otherwise.
pub open spec fn put_plan(store: StoreView, token: TokenView, now: Seq<char>) -> Result<
    Seq<(Seq<char>, Seq<char>)>,
    ErrorView,
> {
    if reads_back(token) {
        Ok(token_writes(store, token, now))
    } else {
        Err(unreadable_error())
    }
}

/// The error of a read that finds no snapshot.
pub open spec fn missing_value() -> ErrorView {
    ErrorView::Unknown { msg: Some("Missing value"@) }
}

/// What the two values read from the store amount to: the snapshot held
/// by the first, with the time of the second (empty where there is none);
/// a failure where no snapshot is stored or the stored text holds none.
pub open spec fn stored_token(tokens: Option<Seq<char>>, insert_time: Option<Seq<char>>) -> Result<
    (TokenView, Seq<char>),
    ErrorView,
> {
    match tokens {
        None => Err(missing_value()),
        Some(text) => match token_reply(text) {
            Ok(token) => Ok(
                (
                    token,
                    match insert_time {
                        Some(time) => time,
                        None => Seq::empty(),
                    },
                ),
            ),
            Err(e) => Err(e),
        },
    }
}

impl Store {
    /// Writes the address of the store.
    pub fn get_connection_info(
        redis_password: &str,
        redis_host: &str,
        redis_port: &str,
        redis_db: &String,
    ) -> (r: String)
        requires
            encodable(encode_utf8(redis_password@).len()),
        ensures
            r@ == connection_text(redis_password@, redis_host@, redis_port@, redis_db@),
    {
        let mut r = String::from_str("redis://:");
        let password = percent_encode(redis_password);
        r.append(password.as_str());
        r.append("@");
        r.append(redis_host);
        r.append(":");
        r.append(redis_port);
        r.append("/");
        r.append(redis_db.as_str());
        r
    }

    /// Describes the store of `config`. Fails where the password is too
    /// long for its address to be written.
    pub fn open(config: &Config) -> (r: Result<Store, SpotifyError>)
        ensures
            match r {
                Ok(store) => encodable(encode_utf8(config@.redis_password).len()) && store@
                    == opened(config@),
                Err(e) => !encodable(encode_utf8(config@.redis_password).len()) && e@
                    == address_error(),
            },
    {
        if !is_encodable(config.redis_password.as_str()) {
            return Err(SpotifyError::RedisError(String::from_str("password too long")));
        }
        let connection_info = Store::get_connection_info(
            config.redis_password.as_str(),
            config.redis_url.as_str(),
            config.redis_port.as_str(),
            &config.redis_db,
        );
        Ok(
            Store {
                connection_info,
                redis_key: String::from_str("tokens"),
                insert_time_key: String::from_str("tokens:time"),
            },
        )
    }

    /// The address of the store.
    pub fn connection_info(&self) -> (r: &String)
        ensures
            r@ == self@.connection_info,
    {
        &self.connection_info
    }

    /// The key under which the snapshot is kept.
    pub fn redis_key(&self) -> (r: &String)
        ensures
            r@ == self@.redis_key,
    {
        &self.redis_key
    }

    /// The key under which the time of the last write is kept.
    pub fn insert_time_key(&self) -> (r: &String)
        ensures
            r@ == self@.insert_time_key,
    {
        &self.insert_time_key
    }

    /// The writes that persist `token_response` at the time `now`, in the
    /// order in which they are to be made. Each replaces what its key held.
    /// Nothing is to be written where the snapshot would not read back from
    /// what is written.
    pub fn store_access_tokens(&self, token_response: &TokenResponse, now: &str) -> (r: Result<
        Vec<(String, String)>,
        SpotifyError,
    >)
        ensures
            match r {
                Ok(writes) => put_plan(self@, token_response@, now@) == Ok::<
                    Seq<(Seq<char>, Seq<char>)>,
                    ErrorView,
                >(writes.deep_view()),
                Err(e) => put_plan(self@, token_response@, now@) == Err::<
                    Seq<(Seq<char>, Seq<char>)>,
                    ErrorView,
                >(e@),
            },
    {
        match token_response.to_checked_json() {
            Some(text) => {
                let mut writes: Vec<(String, String)> = Vec::new();
                writes.push((self.redis_key.clone(), text));
                writes.push((self.insert_time_key.clone(), String::from_str(now)));
                assert(writes.deep_view() =~= token_writes(self@, token_response@, now@));
                Ok(writes)
            },
            None => Err(
                SpotifyError::RedisError(String::from_str("snapshot would not read back")),
            ),
        }
    }

    /// Reads the snapshot out of the values found under the two keys.
    pub fn get_token_response(&self, tokens: Option<String>, insert_time: Option<String>) -> (r:
        Result<(TokenResponse, String), SpotifyError>)
        ensures
            match r {
                Ok((token, time)) => stored_token(tokens.deep_view(), insert_time.deep_view())
                    == Ok::<(TokenView, Seq<char>), ErrorView>((token@, time@)),
                Err(e) => stored_token(tokens.deep_view(), insert_time.deep_view()) == Err::<
                    (TokenView, Seq<char>),
                    ErrorView,
                >(e@),
            },
    {
        match tokens {
            None => Err(SpotifyError::Unknown { msg: Some(String::from_str("Missing value")) }),
            Some(text) => match TokenResponse::from_body(text.as_str()) {
                Ok(token) => {
                    let time = match insert_time {
                        Some(time) => time,
                        None => String::new(),
                    };
                    Ok((token, time))
                },
                Err(e) => Err(e),
            },
        }
    }
}

/// The contents of a key-value store: the text kept under each key.
pub type Contents = Map<Seq<char>, Seq<char>>;

/// The contents after a run of writes, each replacing what its key held.
pub open spec fn written(contents: Contents, writes: Seq<(Seq<char>, Seq<char>)>) -> Contents
    decreases writes.len(),
{
    if writes.len() == 0 {
        contents
    } else {
        written(contents, writes.drop_last()).insert(writes.last().0, writes.last().1)
    }
}

/// The text kept under `key`, if any.
pub open spec fn kept(contents: Contents, key: Seq<char>) -> Option<Seq<char>> {
    if contents.contains_key(key) {
        Some(contents[key])
    } else {
        None
    }
}

/// What a read of the store amounts to, given its contents.
pub open spec fn read_back(store: StoreView, contents: Contents) -> Result<
    (TokenView, Seq<char>),
    ErrorView,
> {
    stored_token(kept(contents, store.redis_key), kept(contents, store.insert_time_key))
}

/// The two slots of the store have different keys.
pub open spec fn slots_apart(store: StoreView) -> bool {
    store.redis_key != store.insert_time_key
}

/// The store that `open` describes keeps its two slots apart.
pub proof fn lemma_opened_slots_apart(config: ConfigView)
    ensures
        slots_apart(opened(config)),
{
    reveal_strlit("tokens");
    reveal_strlit("tokens:time");
    assert("tokens"@.len() != "tokens:time"@.len());
}

/// A read from a store that holds nothing fails with the "missing value"
/// error.
pub proof fn lemma_empty_store_misses(store: StoreView)
    ensures
        read_back(store, Map::empty()) == Err::<(TokenView, Seq<char>), ErrorView>(
            missing_value(),
        ),
{
}

/// A read that follows a write returns the snapshot that was written and
/// the time of the write, no later one, whatever the store held before.
pub proof fn lemma_read_follows_write(
    store: StoreView,
    before: Contents,
    token: TokenView,
    now: Seq<char>,
    writes: Seq<(Seq<char>, Seq<char>)>,
)
    requires
        slots_apart(store),
        put_plan(store, token, now) == Ok::<Seq<(Seq<char>, Seq<char>)>, ErrorView>(writes),
    ensures
        kept(written(before, writes), store.redis_key) == Some(token_json(token)),
        kept(written(before, writes), store.insert_time_key) == Some(now),
        read_back(store, written(before, writes)) == Ok::<(TokenView, Seq<char>), ErrorView>(
            (token, now),
        ),
{
    reveal_with_fuel(written, 3);
}

/// `write` is one of the writes of some write operation among `puts`.
pub open spec fn write_of_some_put(
    store: StoreView,
    puts: Seq<(TokenView, Seq<char>)>,
    write: (Seq<char>, Seq<char>),
) -> bool {
    exists|i: int, k: int|
        0 <= i < puts.len() && 0 <= k < 2 && write == #[trigger] token_writes(
            store,
            puts[i].0,
            puts[i].1,
        )[k]
}

/// The token slot holds what it held at first, or the whole JSON text of
/// one of the snapshots of `puts`, which reads back as that snapshot.
pub open spec fn slot_whole(
    store: StoreView,
    first: Contents,
    puts: Seq<(TokenView, Seq<char>)>,
    contents: Contents,
) -> bool {
    kept(contents, store.redis_key) == kept(first, store.redis_key) || exists|i: int|
        0 <= i < puts.len() && kept(contents, store.redis_key) == Some(
            #[trigger] token_json(puts[i].0),
        ) && reads_back(puts[i].0)
}

/// However the single writes of several write operations fall one after
/// another, a read never finds a snapshot that is written in part: at
/// every moment the token slot holds what it held at first or the whole
/// JSON text of one of the snapshots, which reads back as that snapshot.
pub proof fn lemma_slot_stays_whole(
    store: StoreView,
    first: Contents,
    puts: Seq<(TokenView, Seq<char>)>,
    writes: Seq<(Seq<char>, Seq<char>)>,
)
    requires
        slots_apart(store),
        forall|i: int| 0 <= i < puts.len() ==> (#[trigger] put_plan(store, puts[i].0, puts[i].1)) is Ok,
        forall|n: int| 0 <= n < writes.len() ==> write_of_some_put(store, puts, #[trigger] writes[n]),
    ensures
        slot_whole(store, first, puts, written(first, writes)),
    decreases writes.len(),
{
    if writes.len() > 0 {
        let earlier = writes.drop_last();
        assert forall|n: int| 0 <= n < earlier.len() implies write_of_some_put(
            store,
            puts,
            #[trigger] earlier[n],
        ) by {
            assert(earlier[n] == writes[n]);
        }
        lemma_slot_stays_whole(store, first, puts, earlier);
        let last = writes.last();
        assert(write_of_some_put(store, puts, last));
        let (i, k) = choose|i: int, k: int|
            0 <= i < puts.len() && 0 <= k < 2 && last == #[trigger] token_writes(
                store,
                puts[i].0,
                puts[i].1,
            )[k];
        if k == 0 {
            assert(put_plan(store, puts[i].0, puts[i].1) is Ok);
        } else {
            assert(kept(written(first, writes), store.redis_key) == kept(
                written(first, earlier),
                store.redis_key,
            ));
        }
    }
}

} // verus!
