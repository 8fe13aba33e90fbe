//! The error kinds of the flow, and the text each one shows.

use crate::json::{error_text, json_error_text};
use crate::text::join;
use vstd::prelude::*;
use vstd::std_specs::convert::FromSpecImpl;
use vstd::string::StringExecFns;

verus! {

/// What can go wrong between the authorization redirect and the playlist.
#[derive(Debug, PartialEq, Eq)]
pub enum SpotifyError {
    /// The user declined the authorization request.
    AccessDenied(String),
    /// The token store failed; carries the store's message.
    RedisError(String),
    /// The service answered with something that is not a playlist; carries
    /// the body as it was received.
    CantFetchPlaylist(String),
    /// Anything else: transport failures, undecodable answers.
    Unknown { msg: Option<String> },
}

/// The mathematical content of a [`SpotifyError`].
pub enum ErrorView {
    AccessDenied(Seq<char>),
    RedisError(Seq<char>),
    CantFetchPlaylist(Seq<char>),
    Unknown { msg: Option<Seq<char>> },
}

impl View for SpotifyError {
    type V = ErrorView;

    open spec fn view(&self) -> ErrorView {
        match self {
            SpotifyError::AccessDenied(s) => ErrorView::AccessDenied(s@),
            SpotifyError::RedisError(s) => ErrorView::RedisError(s@),
            SpotifyError::CantFetchPlaylist(s) => ErrorView::CantFetchPlaylist(s@),
            SpotifyError::Unknown { msg } => ErrorView::Unknown { msg: msg.deep_view() },
        }
    }
}

/// `s` as the `Debug` formatting of `str` writes it: quoted and escaped.
pub uninterp spec fn debug_quoted(s: Seq<char>) -> Seq<char>;

/// An optional message as `Debug` formatting writes it.
pub open spec fn debug_option(msg: Option<Seq<char>>) -> Seq<char> {
    match msg {
        None => "None"@,
        Some(s) => "Some("@ + debug_quoted(s) + ")"@,
    }
}

/// The text that an error shows to the caller.
pub open spec fn display_text(e: ErrorView) -> Seq<char> {
    match e {
        ErrorView::AccessDenied(_) => "User denied request."@,
        ErrorView::RedisError(s) => "Error "@ + s + " to redis"@,
        ErrorView::CantFetchPlaylist(s) => "Unable to fetch spotify playlist: "@ + s,
        ErrorView::Unknown { msg } => "Unknown error occurred: "@ + debug_option(msg) + "."@,
    }
}

/// Formats a `str` with `{:?}`. Trusted: the text is a function of the
/// string alone, named [`debug_quoted`].
#[verifier::external_body]
fn debug_string(s: &str) -> (r: String)
    ensures
        r@ == debug_quoted(s@),
{
    format!("{:?}", s)
}

impl SpotifyError {
    /// The text shown for this error.
    pub fn to_string(&self) -> (r: String)
        ensures
            r@ == display_text(self@),
    {
        match self {
            SpotifyError::AccessDenied(_) => String::from_str("User denied request."),
            SpotifyError::RedisError(s) => {
                let mut r = join("Error ", s.as_str());
                r.append(" to redis");
                r
            },
            SpotifyError::CantFetchPlaylist(s) => join(
                "Unable to fetch spotify playlist: ",
                s.as_str(),
            ),
            SpotifyError::Unknown { msg } => {
                let mut r = String::from_str("Unknown error occurred: ");
                match msg {
                    None => {
                        r.append("None");
                    },
                    Some(s) => {
                        r.append("Some(");
                        let quoted = debug_string(s.as_str());
                        r.append(quoted.as_str());
                        r.append(")");
                    },
                }
                r.append(".");
                r
            },
        }
    }

    /// The diagnostic text that the error carries, if any: the body or the
    /// message it was made from.
    pub fn detail(&self) -> (r: Option<&String>)
        ensures
            r.deep_view() == detail_of(self@),
    {
        match self {
            SpotifyError::AccessDenied(s) => Some(s),
            SpotifyError::RedisError(s) => Some(s),
            SpotifyError::CantFetchPlaylist(s) => Some(s),
            SpotifyError::Unknown { msg } => msg.as_ref(),
        }
    }
}

/// The diagnostic text carried by an error.
pub open spec fn detail_of(e: ErrorView) -> Option<Seq<char>> {
    match e {
        ErrorView::AccessDenied(s) => Some(s),
        ErrorView::RedisError(s) => Some(s),
        ErrorView::CantFetchPlaylist(s) => Some(s),
        ErrorView::Unknown { msg } => msg,
    }
}

impl From<String> for SpotifyError {
    fn from(value: String) -> (r: SpotifyError)
        ensures
            r@ == (ErrorView::Unknown { msg: Some(value@) }),
    {
        SpotifyError::Unknown { msg: Some(value) }
    }
}

impl FromSpecImpl<String> for SpotifyError {
    open spec fn obeys_from_spec() -> bool {
        true
    }

    open spec fn from_spec(value: String) -> SpotifyError {
        SpotifyError::Unknown { msg: Some(value) }
    }
}

impl From<serde_json::Error> for SpotifyError {
    fn from(value: serde_json::Error) -> (r: SpotifyError)
        ensures
            r@ == (ErrorView::Unknown { msg: Some(json_error_text(value)) }),
    {
        SpotifyError::Unknown { msg: Some(error_text(&value)) }
    }
}

/// The message of a parse failure is written afresh, so this conversion is
/// fixed through the view of its result, by the contract of `from`, and not
/// as one value by `from_spec`.
impl FromSpecImpl<serde_json::Error> for SpotifyError {
    open spec fn obeys_from_spec() -> bool {
        false
    }

    open spec fn from_spec(value: serde_json::Error) -> SpotifyError {
        SpotifyError::Unknown { msg: None }
    }
}

} // verus!
