//! Verified core of a command-line Spotify statistics viewer.
//!
//! The heart of the library is the OAuth2 Authorization-Code-with-PKCE
//! credential lifecycle: deriving the PKCE challenge, building the
//! authorization URL, parsing the redirect callback, exchanging and
//! refreshing tokens, and persisting the credential as a JSON document.
//! Network, file and terminal I/O live outside the library; every
//! decision and every byte of protocol text is produced by verified code.

pub mod api;
pub mod callback;
pub mod codec;
pub mod config;
pub mod credential;
pub mod encoding;
pub mod error;
pub mod exchange;
pub mod image;
pub mod manager;
pub mod pkce;
pub mod render;
pub mod text;

pub use credential::AuthToken;
pub use error::AuthError;
