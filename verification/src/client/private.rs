//! The traits every Spotify client implements, and the HTTP client abstraction.

use vstd::prelude::*;

use crate::error::Error;

verus! {

/// An HTTP client the Spotify clients send their requests with.
pub trait HttpClient: Sized {
    /// A new HTTP client with the default configuration.
    fn new() -> Self;
}

/// Every Spotify client implements this trait.
pub trait AccessTokenExpirySync: crate::private::Sealed {
    /// Reacts to the client's access token having expired: refreshes it where the client can.
    fn handle_access_token_expired(&self) -> Result<AccessTokenExpiryResult, Error>;
}

/// Result to having tried to refresh a client's access token.
#[derive(Debug, Clone, Copy, PartialEq, Eq, Structural)]
pub enum AccessTokenExpiryResult {
    /// Refreshing the token succeeded
    Refreshed,
    /// Refreshing an access token is not applicable to this client
    Inapplicable,
}

} // verus!
