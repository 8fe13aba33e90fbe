//! Authorization-code flow, token persistence plan and playlist retrieval
//! for a music service, with every rule stated as a contract.

pub mod auth;
pub mod config;
pub mod encoding;
pub mod flow;
pub mod http;
pub mod json;
pub mod paging;
pub mod spotify;
pub mod spotify_error;
pub mod store;
pub mod string_map;
pub mod text;
