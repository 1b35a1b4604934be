//! A wrapper for the Spotify Web API: a type-safe object model, Spotify ID parsing, OAuth scopes and the
//! request-building and response-handling rules of the Spotify clients.

pub mod client;
pub mod error;
pub mod model;
pub mod private;
pub mod scope;
pub mod util;
