//! The authorization-code exchange: the request that asks for tokens and
//! the reading of the answer.

use crate::config::{Config, ConfigView};
use crate::encoding::{base64_encode, base64_no_pad, encodable, is_encodable};
use crate::http::{HttpMethod, HttpRequest, RequestView};
use crate::json::{
    json_parse, json_quoted, optional_json, optional_quoted, parse, quoted, text_field,
    text_member, u32_field, u32_member, FromJson, JsonValue,
};
use crate::spotify_error::{ErrorView, SpotifyError};
use crate::text::{clone_optional, decimal, decimal_string, join};
use vstd::prelude::*;
use vstd::string::StringExecFns;
use vstd::utf8::encode_utf8;

verus! {

/// The client of the token endpoint.
#[derive(Debug)]
pub struct AuthClient;

impl Default for AuthClient {
    fn default() -> AuthClient {
        AuthClient
    }
}

/// What the provider hands back on the redirect: a code to exchange, or an
/// error, and the state that was sent along.
#[derive(Debug, PartialEq, Eq)]
pub struct AuthResponse {
    pub code: Option<String>,
    pub state: Option<String>,
    pub error: Option<String>,
}

/// The mathematical content of an [`AuthResponse`].
pub struct AuthView {
    pub code: Option<Seq<char>>,
    pub state: Option<Seq<char>>,
    pub error: Option<Seq<char>>,
}

impl View for AuthResponse {
    type V = AuthView;

    open spec fn view(&self) -> AuthView {
        AuthView {
            code: self.code.deep_view(),
            state: self.state.deep_view(),
            error: self.error.deep_view(),
        }
    }
}

impl Default for AuthResponse {
    fn default() -> (r: AuthResponse)
        ensures
            r@ == (AuthView { code: None, state: None, error: None }),
    {
        AuthResponse { code: None, state: None, error: None }
    }
}

impl Clone for AuthResponse {
    fn clone(&self) -> (r: AuthResponse)
        ensures
            r@ == self@,
    {
        AuthResponse {
            code: clone_optional(&self.code),
            state: clone_optional(&self.state),
            error: clone_optional(&self.error),
        }
    }
}

/// An authorization result as JSON: the three members in the order `code`,
/// `state`, `error`, each `null` where it is absent.
pub open spec fn auth_json(auth: AuthView) -> Seq<char> {
    "{\"code\":"@ + optional_json(auth.code) + ",\"state\":"@ + optional_json(auth.state)
        + ",\"error\":"@ + optional_json(auth.error) + "}"@
}

impl AuthResponse {
    /// Writes this authorization result as JSON.
    pub fn to_json(&self) -> (r: String)
        ensures
            r@ == auth_json(self@),
    {
        let mut r = String::from_str("{\"code\":");
        let code = optional_quoted(&self.code);
        r.append(code.as_str());
        r.append(",\"state\":");
        let state = optional_quoted(&self.state);
        r.append(state.as_str());
        r.append(",\"error\":");
        let error = optional_quoted(&self.error);
        r.append(error.as_str());
        r.append("}");
        r
    }
}

/// One token snapshot: what a successful exchange returns. Replaced as a
/// whole, never updated in part.
#[derive(Debug, PartialEq, Eq)]
pub struct TokenResponse {
    pub access_token: String,
    pub token_type: String,
    pub expires_in: u32,
    pub refresh_token: String,
    pub scope: String,
}

/// The mathematical content of a [`TokenResponse`].
pub struct TokenView {
    pub access_token: Seq<char>,
    pub token_type: Seq<char>,
    pub expires_in: u32,
    pub refresh_token: Seq<char>,
    pub scope: Seq<char>,
}

impl View for TokenResponse {
    type V = TokenView;

    open spec fn view(&self) -> TokenView {
        TokenView {
            access_token: self.access_token@,
            token_type: self.token_type@,
            expires_in: self.expires_in,
            refresh_token: self.refresh_token@,
            scope: self.scope@,
        }
    }
}

impl Clone for TokenResponse {
    fn clone(&self) -> (r: TokenResponse)
        ensures
            r@ == self@,
    {
        TokenResponse {
            access_token: self.access_token.clone(),
            token_type: self.token_type.clone(),
            expires_in: self.expires_in,
            refresh_token: self.refresh_token.clone(),
            scope: self.scope.clone(),
        }
    }
}

/// The snapshot that a JSON document holds: it must be an object with the
/// string members `access_token`, `token_type`, `refresh_token` and
/// `scope` and the 32-bit unsigned member `expires_in`. Other members are
/// not read.
pub open spec fn token_of(j: JsonValue) -> Option<TokenView> {
    if text_member(j, "access_token"@) is Some && text_member(j, "token_type"@) is Some
        && u32_member(j, "expires_in"@) is Some && text_member(j, "refresh_token"@) is Some
        && text_member(j, "scope"@) is Some {
        Some(
            TokenView {
                access_token: text_member(j, "access_token"@)->0,
                token_type: text_member(j, "token_type"@)->0,
                expires_in: u32_member(j, "expires_in"@)->0,
                refresh_token: text_member(j, "refresh_token"@)->0,
                scope: text_member(j, "scope"@)->0,
            },
        )
    } else {
        None
    }
}

/// A snapshot as JSON, members in the order of the fields.
pub open spec fn token_json(token: TokenView) -> Seq<char> {
    "{\"access_token\":"@ + json_quoted(token.access_token) + ",\"token_type\":"@ + json_quoted(
        token.token_type,
    ) + ",\"expires_in\":"@ + decimal(token.expires_in as nat) + ",\"refresh_token\":"@
        + json_quoted(token.refresh_token) + ",\"scope\":"@ + json_quoted(token.scope) + "}"@
}

/// What the answer of the token endpoint amounts to: the snapshot it
/// holds; the parser's message where the body is not JSON; the body itself
/// where it is JSON of another shape.
pub open spec fn token_reply(body: Seq<char>) -> Result<TokenView, ErrorView> {
    match json_parse(body) {
        Err(message) => Err(ErrorView::Unknown { msg: Some(message) }),
        Ok(j) => match token_of(j) {
            Some(token) => Ok(token),
            None => Err(ErrorView::Unknown { msg: Some(body) }),
        },
    }
}

/// What an exchange amounts to: the snapshot that the answer holds, or the
/// failure of the request or of the reading.
pub open spec fn exchange_result(answer: Result<Seq<char>, Seq<char>>) -> Result<
    TokenView,
    ErrorView,
> {
    match answer {
        Err(message) => Err(ErrorView::Unknown { msg: Some(message) }),
        Ok(body) => token_reply(body),
    }
}

/// The content of an answer: of the body or of the failure message.
pub open spec fn answer_view(answer: Result<String, String>) -> Result<Seq<char>, Seq<char>> {
    match answer {
        Ok(body) => Ok(body@),
        Err(message) => Err(message@),
    }
}

impl FromJson for TokenResponse {
    open spec fn decoded(j: JsonValue) -> Option<TokenView> {
        token_of(j)
    }

    fn from_json(v: &serde_json::Value) -> (r: Option<TokenResponse>) {
        let access_token = text_field(v, "access_token")?;
        let token_type = text_field(v, "token_type")?;
        let expires_in = u32_field(v, "expires_in")?;
        let refresh_token = text_field(v, "refresh_token")?;
        let scope = text_field(v, "scope")?;
        Some(TokenResponse { access_token, token_type, expires_in, refresh_token, scope })
    }
}

/// A snapshot reads back from its own JSON text as itself.
pub open spec fn reads_back(token: TokenView) -> bool {
    token_reply(token_json(token)) == Ok::<TokenView, ErrorView>(token)
}

impl TokenResponse {
    /// Tells whether two snapshots hold the same.
    pub fn same_as(&self, other: &TokenResponse) -> (r: bool)
        ensures
            r == (self@ == other@),
    {
        self.access_token == other.access_token && self.token_type == other.token_type
            && self.expires_in == other.expires_in && self.refresh_token == other.refresh_token
            && self.scope == other.scope
    }

    /// Writes this snapshot as JSON and makes sure that the text reads
    /// back as this snapshot; gives nothing where it does not.
    pub fn to_checked_json(&self) -> (r: Option<String>)
        ensures
            match r {
                Some(text) => reads_back(self@) && text@ == token_json(self@),
                None => !reads_back(self@),
            },
    {
        let text = self.to_json();
        match TokenResponse::from_body(text.as_str()) {
            Ok(found) => if found.same_as(self) {
                Some(text)
            } else {
                None
            },
            Err(_) => None,
        }
    }

    /// Reads a snapshot out of the body of an answer.
    pub fn from_body(body: &str) -> (r: Result<TokenResponse, SpotifyError>)
        ensures
            match r {
                Ok(token) => token_reply(body@) == Ok::<TokenView, ErrorView>(token@),
                Err(e) => token_reply(body@) == Err::<TokenView, ErrorView>(e@),
            },
    {
        match parse(body) {
            Err(e) => Err(SpotifyError::from(e)),
            Ok(v) => match TokenResponse::from_json(&v) {
                Some(token) => Ok(token),
                None => Err(SpotifyError::Unknown { msg: Some(String::from_str(body)) }),
            },
        }
    }

    /// Writes this snapshot as JSON.
    pub fn to_json(&self) -> (r: String)
        ensures
            r@ == token_json(self@),
    {
        let mut r = String::from_str("{\"access_token\":");
        let access_token = quoted(self.access_token.as_str());
        r.append(access_token.as_str());
        r.append(",\"token_type\":");
        let token_type = quoted(self.token_type.as_str());
        r.append(token_type.as_str());
        r.append(",\"expires_in\":");
        let expires_in = decimal_string(self.expires_in as u64);
        r.append(expires_in.as_str());
        r.append(",\"refresh_token\":");
        let refresh_token = quoted(self.refresh_token.as_str());
        r.append(refresh_token.as_str());
        r.append(",\"scope\":");
        let scope = quoted(self.scope.as_str());
        r.append(scope.as_str());
        r.append("}");
        r
    }
}

/// Something that turns an authorization result into a token snapshot.
pub trait FetchToken {
    fn fetch_token(&self, config: &Config, auth_response: &AuthResponse) -> Result<
        TokenResponse,
        SpotifyError,
    >;
}

/// The client credentials as they are encoded for the `Authorization`
/// header: the id, a colon, the secret.
pub open spec fn credentials(config: ConfigView) -> Seq<char> {
    config.spotify_client_id + ":"@ + config.spotify_client_secret
}

/// The form fields of the exchange, in the order in which they are sent.
pub open spec fn token_form(auth: AuthView, config: ConfigView) -> Seq<(Seq<char>, Seq<char>)> {
    match auth.code {
        Some(code) => seq![
            ("grant_type"@, "authorization_code"@),
            ("code"@, code),
            ("redirect_uri"@, config.callback_url),
        ],
        None => seq![
            ("grant_type"@, "authorization_code"@),
            ("redirect_uri"@, config.callback_url),
        ],
    }
}

/// The request that exchanges an authorization code for tokens.
pub open spec fn token_request(auth: AuthView, config: ConfigView) -> RequestView {
    RequestView {
        method: HttpMethod::Post,
        url: config.auth_uri,
        headers: seq![
            ("Content-Type"@, "application/x-www-form-urlencoded"@),
            ("Authorization"@, "Basic "@ + base64_no_pad(encode_utf8(credentials(config)))),
        ],
        form: token_form(auth, config),
    }
}

/// The client credentials are short enough to be encoded.
pub open spec fn credentials_fit(config: ConfigView) -> bool {
    encodable(encode_utf8(credentials(config)).len())
}

impl AuthClient {
    /// Tells whether the client credentials of `config` are short enough
    /// to be encoded.
    pub fn can_encode(config: &Config) -> (r: bool)
        ensures
            r == credentials_fit(config@),
    {
        let mut pair = join(config.spotify_client_id.as_str(), ":");
        pair.append(config.spotify_client_secret.as_str());
        is_encodable(pair.as_str())
    }

    /// Reads the outcome of the exchange request: the body of the answer,
    /// or the message with which sending failed.
    pub fn fetch_token(answer: Result<String, String>) -> (r: Result<TokenResponse, SpotifyError>)
        ensures
            match r {
                Ok(token) => exchange_result(answer_view(answer)) == Ok::<TokenView, ErrorView>(
                    token@,
                ),
                Err(e) => exchange_result(answer_view(answer)) == Err::<TokenView, ErrorView>(e@),
            },
    {
        match answer {
            Err(message) => Err(SpotifyError::from(message)),
            Ok(body) => TokenResponse::from_body(body.as_str()),
        }
    }

    /// Builds the request that exchanges the code of `auth_response` for
    /// tokens: a form post to the token endpoint, authorized by the client
    /// credentials.
    pub fn get_token(auth_response: &AuthResponse, config: &Config) -> (r: HttpRequest)
        requires
            credentials_fit(config@),
        ensures
            r@ == token_request(auth_response@, config@),
    {
        let mut pair = join(config.spotify_client_id.as_str(), ":");
        pair.append(config.spotify_client_secret.as_str());
        let encoded = base64_encode(pair.as_str());
        let authorization = join("Basic ", encoded.as_str());
        let mut headers: Vec<(String, String)> = Vec::new();
        headers.push(
            (
                String::from_str("Content-Type"),
                String::from_str("application/x-www-form-urlencoded"),
            ),
        );
        headers.push((String::from_str("Authorization"), authorization));
        let mut form: Vec<(String, String)> = Vec::new();
        form.push((String::from_str("grant_type"), String::from_str("authorization_code")));
        match &auth_response.code {
            Some(code) => {
                form.push((String::from_str("code"), code.clone()));
            },
            None => {},
        }
        form.push((String::from_str("redirect_uri"), config.callback_url.clone()));
        let r = HttpRequest {
            method: HttpMethod::Post,
            url: config.auth_uri.clone(),
            headers,
            form,
        };
        assert(r@.headers =~= token_request(auth_response@, config@).headers);
        assert(r@.form =~= token_request(auth_response@, config@).form);
        r
    }
}

} // verus!
