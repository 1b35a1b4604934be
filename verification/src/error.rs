//! Various error types exposed by the crate.

use std::borrow::Cow;

use vstd::prelude::*;

use vstd::std_specs::convert::FromSpecImpl;

use crate::model::error::AuthenticationErrorKind;
use crate::model::ItemType;

verus! {

/// Covers all errors the library may return.
#[derive(Debug)]
#[non_exhaustive]
pub enum Error {
    /// When attempting to finalize an authorization code or implicit grant user client, the given state string does
    /// not match the original one in the client.
    AuthorizationCodeStateMismatch,
    /// When attempting to finalize an authorization code user client, the given authorization code is invalid.
    InvalidAuthorizationCode,
    /// The access token expired and was not automatically refreshed, due to it being impossible (the implicit grant
    /// client does not support refreshing its access token), or automatic token refreshing is disabled.
    AccessTokenExpired,
    /// The refresh token is invalid; it cannot be used to retrieve an access token. The error message from Spotify is
    /// included. The user should be reauthorized.
    InvalidRefreshToken(String),
    /// The client credentials (ID and possible secret) are invalid.
    InvalidClient(String),
    /// Request rate limit was hit. The required wait time is included.
    RateLimit(u64),
    /// The required scope for the endpoint being called has not been granted by the user.
    MissingScope,
    /// The endpoint is forbidden. This is likely due to the user removing the application's access to their account.
    /// The user should be reauthorized.
    Forbidden,
    /// The action is restricted by Spotify for the current playback.
    Restricted,
    /// The action requires the user to have Spotify Premium.
    PremiumRequired,
    /// No device is currently active in the user's account, or the given device could not be activated for playback.
    NoActiveDevice,
    /// Spotify returned a 429 Too Many Requests, but the Retry-After header could not be parsed as an integer.
    InvalidRateLimitResponse,
    /// Spotify returned an empty response where a body was expected.
    EmptyResponse,
    /// The track that was asked for does not exist.
    NonexistentTrack(crate::model::id::Id<'static, crate::model::id::TrackId>),
    /// Spotify returned an authentication error we did not expect.
    UnhandledAuthenticationError(AuthenticationErrorKind, String),
    /// Spotify returned a response status we did not expect.
    UnhandledSpotifyResponseStatusCode(u16),
    /// Spotify returned an error we did not expect.
    UnhandledSpotifyError(u16, String),
    /// Parsing a string to a Spotify [ID](crate::model::id::Id) failed.
    InvalidSpotifyId(IdError),
    /// Converting a Spotify API response JSON into a model object failed.
    Conversion(ConversionError),
}

impl From<IdError> for Error {
    fn from(e: IdError) -> (r: Self)
        ensures
            r == Error::InvalidSpotifyId(e),
    {
        Error::InvalidSpotifyId(e)
    }
}

impl FromSpecImpl<IdError> for Error {
    open spec fn obeys_from_spec() -> bool {
        true
    }

    open spec fn from_spec(v: IdError) -> Self {
        Error::InvalidSpotifyId(v)
    }
}

impl From<ConversionError> for Error {
    fn from(e: ConversionError) -> (r: Self)
        ensures
            r == Error::Conversion(e),
    {
        Error::Conversion(e)
    }
}

impl FromSpecImpl<ConversionError> for Error {
    open spec fn obeys_from_spec() -> bool {
        true
    }

    open spec fn from_spec(v: ConversionError) -> Self {
        Error::Conversion(v)
    }
}

/// Error type for parsing a Spotify [ID](crate::model::id::Id).
#[derive(Debug)]
#[non_exhaustive]
pub enum IdError {
    /// The item type in the input is not one of known Spotify [item types](crate::model::ItemType).
    InvalidItemType(String),
    /// The item type in the input is not the expected type for the target type.
    WrongItemType(ItemType),
    /// The ID in the input does not look like a valid Spotify ID. The ID may still be nonexistent in Spotify even if
    /// it looks valid.
    InvalidId(String),
    /// The input string is malformed.
    MalformedString(String),
}

/// The mathematical value of an [IdError]: the variant and the text it carries.
pub ghost enum IdErrorView {
    InvalidItemType(Seq<char>),
    WrongItemType(ItemType),
    InvalidId(Seq<char>),
    MalformedString(Seq<char>),
}

impl View for IdError {
    type V = IdErrorView;

    open spec fn view(&self) -> IdErrorView {
        match self {
            IdError::InvalidItemType(s) => IdErrorView::InvalidItemType(s@),
            IdError::WrongItemType(t) => IdErrorView::WrongItemType(*t),
            IdError::InvalidId(s) => IdErrorView::InvalidId(s@),
            IdError::MalformedString(s) => IdErrorView::MalformedString(s@),
        }
    }
}

/// Error when converting serialized objects into model objects fails.
#[derive(Debug)]
#[non_exhaustive]
pub struct ConversionError(pub(crate) Cow<'static, str>);

impl ConversionError {
    /// The reason the conversion failed.
    pub closed spec fn reason(&self) -> Seq<char> {
        self.0@
    }

    /// An error for the given reason.
    pub(crate) fn new(reason: Cow<'static, str>) -> (r: Self)
        ensures
            r == ConversionError(reason),
            r.reason() == reason@,
    {
        ConversionError(reason)
    }

    /// The error's message: `object conversion failed: ` followed by the reason.
    pub fn to_string(&self) -> (r: String)
        ensures
            r@ == "object conversion failed: "@ + self.reason(),
    {
        let mut r = String::from_str("object conversion failed: ");
        let reason: &str = match &self.0 {
            Cow::Borrowed(b) => b,
            Cow::Owned(o) => o.as_str(),
        };
        r.append(reason);
        r
    }
}

} // verus!
