//! The flow from the authorization redirect to the playlist, as a state
//! machine: each step takes what has happened and decides what is to be
//! done next. Sending, storing and answering are left to the caller.

use crate::auth::{
    answer_view, auth_json, credentials_fit, exchange_result, token_of, token_reply,
    token_request, AuthClient, AuthResponse, AuthView, FetchToken, TokenResponse, TokenView,
};
use crate::config::{Config, ConfigView};
use crate::encoding::encodable;
use crate::http::{HttpRequest, RequestView};
use crate::json::{json_parse, member_of, JsonValue};
use crate::spotify::{
    default_params, discovery_uri, get_request, playlist_json, playlist_reply, Playlist,
    PlaylistView, SpotifyClient,
};
use crate::spotify_error::{detail_of, display_text, ErrorView, SpotifyError};
use crate::store::{address_error, opened, put_plan, Store};
use vstd::prelude::*;
use vstd::string::StringExecFns;
use vstd::utf8::encode_utf8;

verus! {

/// Where a request stands. A received code leads straight into the
/// exchange, an obtained token straight into persisting, and a finished
/// write straight into the fetch, so those moments are no states of their
/// own. `DeniedOrErrored`, `ExchangeFailed`, `PersistFailed`, `FetchFailed`
/// and `PlaylistReturned` end the request.
#[derive(Debug, PartialEq, Eq)]
pub enum FlowState {
    Idle,
    AwaitingCallback,
    ExchangingToken,
    Persisting { token: TokenResponse },
    FetchingPlaylist,
    PlaylistReturned,
    FetchFailed,
    ExchangeFailed,
    PersistFailed,
    DeniedOrErrored,
}

/// The mathematical content of a [`FlowState`].
pub enum StateView {
    Idle,
    AwaitingCallback,
    ExchangingToken,
    Persisting { token: TokenView },
    FetchingPlaylist,
    PlaylistReturned,
    FetchFailed,
    ExchangeFailed,
    PersistFailed,
    DeniedOrErrored,
}

impl View for FlowState {
    type V = StateView;

    open spec fn view(&self) -> StateView {
        match self {
            FlowState::Idle => StateView::Idle,
            FlowState::AwaitingCallback => StateView::AwaitingCallback,
            FlowState::ExchangingToken => StateView::ExchangingToken,
            FlowState::Persisting { token } => StateView::Persisting { token: token@ },
            FlowState::FetchingPlaylist => StateView::FetchingPlaylist,
            FlowState::PlaylistReturned => StateView::PlaylistReturned,
            FlowState::FetchFailed => StateView::FetchFailed,
            FlowState::ExchangeFailed => StateView::ExchangeFailed,
            FlowState::PersistFailed => StateView::PersistFailed,
            FlowState::DeniedOrErrored => StateView::DeniedOrErrored,
        }
    }
}

/// What has happened outside.
#[derive(Debug, PartialEq, Eq)]
pub enum FlowEvent {
    /// The user asked to begin.
    Start,
    /// The provider redirected back with its result.
    Callback { auth: AuthResponse },
    /// The token endpoint answered with a body, or the request failed
    /// with a message; `now` is the time at which this was seen.
    TokenAnswer { answer: Result<String, String>, now: String },
    /// The writes to the store were made, or one failed with a message.
    Stored { outcome: Result<(), String> },
    /// The playlist endpoint answered with a body, or the request failed
    /// with a message.
    PlaylistAnswer { answer: Result<String, String> },
}

/// The mathematical content of a [`FlowEvent`].
pub enum EventView {
    Start,
    Callback { auth: AuthView },
    TokenAnswer { answer: Result<Seq<char>, Seq<char>>, now: Seq<char> },
    Stored { outcome: Result<(), Seq<char>> },
    PlaylistAnswer { answer: Result<Seq<char>, Seq<char>> },
}

/// The content of the outcome of a write.
pub open spec fn outcome_view(outcome: Result<(), String>) -> Result<(), Seq<char>> {
    match outcome {
        Ok(_) => Ok(()),
        Err(message) => Err(message@),
    }
}

impl View for FlowEvent {
    type V = EventView;

    open spec fn view(&self) -> EventView {
        match self {
            FlowEvent::Start => EventView::Start,
            FlowEvent::Callback { auth } => EventView::Callback { auth: auth@ },
            FlowEvent::TokenAnswer { answer, now } => EventView::TokenAnswer {
                answer: answer_view(*answer),
                now: now@,
            },
            FlowEvent::Stored { outcome } => EventView::Stored { outcome: outcome_view(*outcome) },
            FlowEvent::PlaylistAnswer { answer } => EventView::PlaylistAnswer {
                answer: answer_view(*answer),
            },
        }
    }
}

/// What is to be done next.
#[derive(Debug, PartialEq, Eq)]
pub enum FlowAction {
    /// The event does not fit the state; nothing is done.
    Nothing,
    /// Send the user to the provider.
    Redirect { url: String },
    /// Send a request and come back with the answer.
    Send { request: HttpRequest },
    /// Make these writes to the store, in order, and come back with the
    /// outcome.
    Write { writes: Vec<(String, String)> },
    /// Answer with the authorization result as it came.
    Echo { auth: AuthResponse },
    /// Answer with the playlist.
    Deliver { playlist: Playlist },
    /// Answer with the error.
    Fail { error: SpotifyError },
}

/// The mathematical content of a [`FlowAction`].
pub enum ActionView {
    Nothing,
    Redirect { url: Seq<char> },
    Send { request: RequestView },
    Write { writes: Seq<(Seq<char>, Seq<char>)> },
    Echo { auth: AuthView },
    Deliver { playlist: PlaylistView },
    Fail { error: ErrorView },
}

impl View for FlowAction {
    type V = ActionView;

    open spec fn view(&self) -> ActionView {
        match self {
            FlowAction::Nothing => ActionView::Nothing,
            FlowAction::Redirect { url } => ActionView::Redirect { url: url@ },
            FlowAction::Send { request } => ActionView::Send { request: request@ },
            FlowAction::Write { writes } => ActionView::Write { writes: writes.deep_view() },
            FlowAction::Echo { auth } => ActionView::Echo { auth: auth@ },
            FlowAction::Deliver { playlist } => ActionView::Deliver { playlist: playlist@ },
            FlowAction::Fail { error } => ActionView::Fail { error: error@ },
        }
    }
}

/// The address to which the user is sent to authorize the client.
pub open spec fn authorize_text(config: ConfigView) -> Seq<char> {
    "https://accounts.spotify.com/authorize?client_id="@ + config.spotify_client_id
        + "&response_type=code&redirect_uri="@ + config.callback_url
        + "&scope=playlist-read-private playlist-modify-private user-read-recently-played&show_dialog=false"@
}

/// The error of client credentials that are too long to be encoded.
pub open spec fn credentials_error() -> ErrorView {
    ErrorView::Unknown { msg: Some("client credentials too long"@) }
}

/// The step taken on the provider's redirect: with a code, the exchange is
/// begun; without one, the result is echoed and the request ends.
pub open spec fn on_callback(auth: AuthView, config: ConfigView) -> (StateView, ActionView) {
    if auth.code is Some {
        if credentials_fit(config) {
            (StateView::ExchangingToken, ActionView::Send { request: token_request(auth, config) })
        } else {
            (StateView::ExchangeFailed, ActionView::Fail { error: credentials_error() })
        }
    } else {
        (StateView::DeniedOrErrored, ActionView::Echo { auth })
    }
}

/// The step taken on the result of an exchange: an obtained snapshot is to
/// be persisted; a failure ends the request.
pub open spec fn on_token(result: Result<TokenView, ErrorView>, now: Seq<char>, config: ConfigView) -> (
    StateView,
    ActionView,
) {
    match result {
        Err(error) => (StateView::ExchangeFailed, ActionView::Fail { error }),
        Ok(token) => if encodable(encode_utf8(config.redis_password).len()) {
            match put_plan(opened(config), token, now) {
                Ok(writes) => (StateView::Persisting { token }, ActionView::Write { writes }),
                Err(error) => (StateView::PersistFailed, ActionView::Fail { error }),
            }
        } else {
            (StateView::PersistFailed, ActionView::Fail { error: address_error() })
        },
    }
}

/// The step taken on the answer of the token endpoint.
pub open spec fn on_token_answer(
    answer: Result<Seq<char>, Seq<char>>,
    now: Seq<char>,
    config: ConfigView,
) -> (StateView, ActionView) {
    on_token(exchange_result(answer), now, config)
}

/// The step taken when the store has answered: after the writes, the
/// playlist is asked for with the token just obtained; a failed write ends
/// the request with a store error.
pub open spec fn on_stored(token: TokenView, outcome: Result<(), Seq<char>>, config: ConfigView) -> (
    StateView,
    ActionView,
) {
    match outcome {
        Ok(_) => (
            StateView::FetchingPlaylist,
            ActionView::Send {
                request: get_request(token, discovery_uri(config), default_params()),
            },
        ),
        Err(message) => (
            StateView::PersistFailed,
            ActionView::Fail { error: ErrorView::RedisError(message) },
        ),
    }
}

/// The step taken on the answer of the playlist endpoint.
pub open spec fn on_playlist_answer(answer: Result<Seq<char>, Seq<char>>) -> (
    StateView,
    ActionView,
) {
    match answer {
        Err(message) => (
            StateView::FetchFailed,
            ActionView::Fail { error: ErrorView::Unknown { msg: Some(message) } },
        ),
        Ok(body) => match playlist_reply(body) {
            Err(error) => (StateView::FetchFailed, ActionView::Fail { error }),
            Ok(playlist) => (StateView::PlaylistReturned, ActionView::Deliver { playlist }),
        },
    }
}

/// One step of the flow. An event that does not fit the state changes
/// nothing.
pub open spec fn next(state: StateView, event: EventView, config: ConfigView) -> (
    StateView,
    ActionView,
) {
    match (state, event) {
        (StateView::Idle, EventView::Start) => (
            StateView::AwaitingCallback,
            ActionView::Redirect { url: authorize_text(config) },
        ),
        (StateView::AwaitingCallback, EventView::Callback { auth }) => on_callback(auth, config),
        (StateView::ExchangingToken, EventView::TokenAnswer { answer, now }) => on_token_answer(
            answer,
            now,
            config,
        ),
        (StateView::Persisting { token }, EventView::Stored { outcome }) => on_stored(
            token,
            outcome,
            config,
        ),
        (StateView::FetchingPlaylist, EventView::PlaylistAnswer { answer }) => on_playlist_answer(
            answer,
        ),
        _ => (state, ActionView::Nothing),
    }
}

/// What an action answers to the caller, where it answers: the
/// authorization result as JSON, the playlist as JSON, or the text of the
/// error.
pub open spec fn response_text(action: ActionView) -> Option<Seq<char>> {
    match action {
        ActionView::Echo { auth } => Some(auth_json(auth)),
        ActionView::Deliver { playlist } => Some(playlist_json(playlist)),
        ActionView::Fail { error } => Some(display_text(error)),
        _ => None,
    }
}

/// Writes the address to which the user is sent to authorize the client.
pub fn authorize_url(config: &Config) -> (r: String)
    ensures
        r@ == authorize_text(config@),
{
    let mut r = String::from_str("https://accounts.spotify.com/authorize?client_id=");
    r.append(config.spotify_client_id.as_str());
    r.append("&response_type=code&redirect_uri=");
    r.append(config.callback_url.as_str());
    r.append(
        "&scope=playlist-read-private playlist-modify-private user-read-recently-played&show_dialog=false",
    );
    r
}

/// The failure that carries a message from outside.
fn failure(message: String) -> (r: FlowAction)
    ensures
        r@ == (ActionView::Fail { error: ErrorView::Unknown { msg: Some(message@) } }),
{
    FlowAction::Fail { error: SpotifyError::from(message) }
}

/// Takes the provider's redirect.
fn take_callback(auth: AuthResponse, config: &Config) -> (r: (FlowState, FlowAction))
    ensures
        (r.0@, r.1@) == on_callback(auth@, config@),
{
    if auth.code.is_some() {
        if AuthClient::can_encode(config) {
            let request = AuthClient::get_token(&auth, config);
            (FlowState::ExchangingToken, FlowAction::Send { request })
        } else {
            (
                FlowState::ExchangeFailed,
                FlowAction::Fail {
                    error: SpotifyError::Unknown {
                        msg: Some(String::from_str("client credentials too long")),
                    },
                },
            )
        }
    } else {
        (FlowState::DeniedOrErrored, FlowAction::Echo { auth })
    }
}

/// The content of the result of an exchange.
pub open spec fn result_view(result: Result<TokenResponse, SpotifyError>) -> Result<
    TokenView,
    ErrorView,
> {
    match result {
        Ok(token) => Ok(token@),
        Err(error) => Err(error@),
    }
}

/// Takes the result of an exchange, however it was made.
pub fn take_token(result: Result<TokenResponse, SpotifyError>, now: String, config: &Config) -> (r:
    (FlowState, FlowAction))
    ensures
        (r.0@, r.1@) == on_token(result_view(result), now@, config@),
{
    match result {
        Err(error) => (FlowState::ExchangeFailed, FlowAction::Fail { error }),
        Ok(token) => match Store::open(config) {
            Ok(store) => match store.store_access_tokens(&token, now.as_str()) {
                Ok(writes) => (FlowState::Persisting { token }, FlowAction::Write { writes }),
                Err(error) => (FlowState::PersistFailed, FlowAction::Fail { error }),
            },
            Err(error) => (FlowState::PersistFailed, FlowAction::Fail { error }),
        },
    }
}

/// Takes the answer of the token endpoint.
fn take_token_answer(answer: Result<String, String>, now: String, config: &Config) -> (r: (
    FlowState,
    FlowAction,
))
    ensures
        (r.0@, r.1@) == on_token_answer(answer_view(answer), now@, config@),
{
    let result = AuthClient::fetch_token(answer);
    take_token(result, now, config)
}

/// Handles the provider's redirect with a fetcher that makes the exchange
/// itself: without a code the result is echoed and the request ends; with
/// one, the fetcher is asked, and whatever it returns is taken as the
/// result of the exchange.
pub fn callback<F: FetchToken>(
    fetcher: &F,
    auth_response: AuthResponse,
    now: String,
    config: &Config,
) -> (r: (FlowState, FlowAction))
    ensures
        auth_response@.code is None ==> (r.0@, r.1@) == (
            StateView::DeniedOrErrored,
            ActionView::Echo { auth: auth_response@ },
        ),
        auth_response@.code is Some ==> exists|result: Result<TokenView, ErrorView>|
            (r.0@, r.1@) == #[trigger] on_token(result, now@, config@),
{
    if auth_response.code.is_some() {
        let result = fetcher.fetch_token(config, &auth_response);
        take_token(result, now, config)
    } else {
        (FlowState::DeniedOrErrored, FlowAction::Echo { auth: auth_response })
    }
}

/// Takes the outcome of the writes.
fn take_stored(token: TokenResponse, outcome: Result<(), String>, config: &Config) -> (r: (
    FlowState,
    FlowAction,
))
    ensures
        (r.0@, r.1@) == on_stored(token@, outcome_view(outcome), config@),
{
    match outcome {
        Ok(_) => {
            let client = SpotifyClient::new(token);
            let request = client.discovery_weekly_playlist(config);
            (FlowState::FetchingPlaylist, FlowAction::Send { request })
        },
        Err(message) => (
            FlowState::PersistFailed,
            FlowAction::Fail { error: SpotifyError::RedisError(message) },
        ),
    }
}

/// Takes the answer of the playlist endpoint.
fn take_playlist_answer(answer: Result<String, String>) -> (r: (FlowState, FlowAction))
    ensures
        (r.0@, r.1@) == on_playlist_answer(answer_view(answer)),
{
    match answer {
        Err(message) => (FlowState::FetchFailed, failure(message)),
        Ok(body) => match Playlist::from_body(body.as_str()) {
            Err(error) => (FlowState::FetchFailed, FlowAction::Fail { error }),
            Ok(playlist) => (FlowState::PlaylistReturned, FlowAction::Deliver { playlist }),
        },
    }
}

/// Takes one step of the flow: gives the state after `event` and what is
/// to be done next.
pub fn step(state: FlowState, event: FlowEvent, config: &Config) -> (r: (FlowState, FlowAction))
    ensures
        (r.0@, r.1@) == next(state@, event@, config@),
{
    match state {
        FlowState::Idle => match event {
            FlowEvent::Start => (
                FlowState::AwaitingCallback,
                FlowAction::Redirect { url: authorize_url(config) },
            ),
            _ => (FlowState::Idle, FlowAction::Nothing),
        },
        FlowState::AwaitingCallback => match event {
            FlowEvent::Callback { auth } => take_callback(auth, config),
            _ => (FlowState::AwaitingCallback, FlowAction::Nothing),
        },
        FlowState::ExchangingToken => match event {
            FlowEvent::TokenAnswer { answer, now } => take_token_answer(answer, now, config),
            _ => (FlowState::ExchangingToken, FlowAction::Nothing),
        },
        FlowState::Persisting { token } => match event {
            FlowEvent::Stored { outcome } => take_stored(token, outcome, config),
            _ => (FlowState::Persisting { token }, FlowAction::Nothing),
        },
        FlowState::FetchingPlaylist => match event {
            FlowEvent::PlaylistAnswer { answer } => take_playlist_answer(answer),
            _ => (FlowState::FetchingPlaylist, FlowAction::Nothing),
        },
        other => (other, FlowAction::Nothing),
    }
}

impl FlowAction {
    /// The body with which this action answers the caller, where it
    /// answers.
    pub fn response_body(&self) -> (r: Option<String>)
        ensures
            r.deep_view() == response_text(self@),
    {
        match self {
            FlowAction::Echo { auth } => Some(auth.to_json()),
            FlowAction::Deliver { playlist } => Some(playlist.to_json()),
            FlowAction::Fail { error } => Some(error.to_string()),
            _ => None,
        }
    }
}

impl FlowState {
    /// Whether the request has ended.
    pub fn is_terminal(&self) -> (r: bool)
        ensures
            r == terminal(self@),
    {
        match self {
            FlowState::PlaylistReturned => true,
            FlowState::FetchFailed => true,
            FlowState::ExchangeFailed => true,
            FlowState::PersistFailed => true,
            FlowState::DeniedOrErrored => true,
            _ => false,
        }
    }
}

/// The states that end a request.
pub open spec fn terminal(state: StateView) -> bool {
    state is PlaylistReturned || state is FetchFailed || state is ExchangeFailed
        || state is PersistFailed || state is DeniedOrErrored
}

/// The state after a run of events.
pub open spec fn state_after(state: StateView, events: Seq<EventView>, config: ConfigView) -> StateView
    decreases events.len(),
{
    if events.len() == 0 {
        state
    } else {
        next(state_after(state, events.drop_last(), config), events.last(), config).0
    }
}

/// The action that the last event of a run calls for.
pub open spec fn last_action(state: StateView, events: Seq<EventView>, config: ConfigView) -> ActionView
    recommends
        events.len() > 0,
{
    next(state_after(state, events.drop_last(), config), events.last(), config).1
}

/// Once a request has ended, no event moves it and none calls for
/// anything.
pub proof fn lemma_terminal_stays(state: StateView, events: Seq<EventView>, config: ConfigView)
    requires
        terminal(state),
    ensures
        state_after(state, events, config) == state,
        events.len() > 0 ==> last_action(state, events, config) is Nothing,
    decreases events.len(),
{
    if events.len() > 0 {
        lemma_terminal_stays(state, events.drop_last(), config);
    }
}

/// A redirect without a code ends the request at once: the authorization
/// result is echoed as it came, error and state included, and whatever
/// happens afterwards, nothing is ever written to the store.
pub proof fn lemma_denied_is_echoed(auth: AuthView, later: Seq<EventView>, config: ConfigView)
    requires
        auth.code is None,
    ensures
        next(StateView::AwaitingCallback, EventView::Callback { auth }, config) == (
            StateView::DeniedOrErrored,
            ActionView::Echo { auth },
        ),
        response_text(ActionView::Echo { auth }) == Some(auth_json(auth)),
        later.len() > 0 ==> !(last_action(StateView::DeniedOrErrored, later, config) is Write),
{
    lemma_terminal_stays(StateView::DeniedOrErrored, later, config);
}

/// An answer of the token endpoint is well formed when it is a JSON
/// document that holds a snapshot whose access token is not empty.
pub open spec fn well_formed_token_answer(body: Seq<char>) -> bool {
    match json_parse(body) {
        Ok(j) => token_of(j) is Some && token_of(j)->0.access_token.len() > 0,
        Err(_) => false,
    }
}

/// With a code and a well-formed answer, the exchange yields a snapshot
/// whose access token is not empty: the redirect leads to the exchange
/// request (where the client credentials can be encoded at all), the answer
/// is read as that snapshot, and the flow does not end in `ExchangeFailed`.
pub proof fn lemma_exchange_yields_token(
    auth: AuthView,
    body: Seq<char>,
    now: Seq<char>,
    config: ConfigView,
)
    requires
        auth.code is Some,
        well_formed_token_answer(body),
    ensures
        credentials_fit(config) ==> next(
            StateView::AwaitingCallback,
            EventView::Callback { auth },
            config,
        ) == (
            StateView::ExchangingToken,
            ActionView::Send { request: token_request(auth, config) },
        ),
        exchange_result(Ok(body)) is Ok,
        exchange_result(Ok(body))->Ok_0.access_token.len() > 0,
        !(next(
            StateView::ExchangingToken,
            EventView::TokenAnswer { answer: Ok(body), now },
            config,
        ).0 is ExchangeFailed),
{
}

/// The members that a snapshot must have.
pub open spec fn token_member(key: Seq<char>) -> bool {
    key == "access_token"@ || key == "token_type"@ || key == "expires_in"@ || key
        == "refresh_token"@ || key == "scope"@
}

/// The members that a playlist must have.
pub open spec fn playlist_member(key: Seq<char>) -> bool {
    key == "id"@ || key == "uri"@ || key == "name"@ || key == "tracks"@
}

/// An answer of the token endpoint that is JSON but lacks a member of the
/// snapshot is turned into an `Unknown` error that carries the body as it
/// came; the flow ends in `ExchangeFailed` with that error.
pub proof fn lemma_malformed_token_keeps_body(
    body: Seq<char>,
    j: JsonValue,
    key: Seq<char>,
    now: Seq<char>,
    config: ConfigView,
)
    requires
        json_parse(body) == Ok::<JsonValue, Seq<char>>(j),
        token_member(key),
        member_of(j, key) is None,
    ensures
        token_reply(body) == Err::<TokenView, ErrorView>(ErrorView::Unknown { msg: Some(body) }),
        detail_of(token_reply(body)->Err_0) == Some(body),
        next(
            StateView::ExchangingToken,
            EventView::TokenAnswer { answer: Ok(body), now },
            config,
        ) == (
            StateView::ExchangeFailed,
            ActionView::Fail { error: ErrorView::Unknown { msg: Some(body) } },
        ),
{
}

/// An answer of the playlist endpoint that is JSON but lacks a member of
/// the playlist is turned into a `CantFetchPlaylist` error that carries the
/// body as it came; the flow ends in `FetchFailed` with that error.
pub proof fn lemma_malformed_playlist_keeps_body(
    body: Seq<char>,
    j: JsonValue,
    key: Seq<char>,
    config: ConfigView,
)
    requires
        json_parse(body) == Ok::<JsonValue, Seq<char>>(j),
        playlist_member(key),
        member_of(j, key) is None,
    ensures
        playlist_reply(body) == Err::<PlaylistView, ErrorView>(ErrorView::CantFetchPlaylist(body)),
        detail_of(playlist_reply(body)->Err_0) == Some(body),
        next(
            StateView::FetchingPlaylist,
            EventView::PlaylistAnswer { answer: Ok(body) },
            config,
        ) == (
            StateView::FetchFailed,
            ActionView::Fail { error: ErrorView::CantFetchPlaylist(body) },
        ),
{
}

} // verus!
