//! Abstraction over the different errors the Spotify API may return.

use vstd::prelude::*;

use crate::error::Error;
use crate::model::id::str_eq;

verus! {

/// An authentication error Spotify's accounts service returned.
#[derive(Debug, Clone)]
pub struct AuthenticationErrorResponse {
    pub error: AuthenticationErrorKind,
    pub error_description: String,
}

/// An error Spotify's Web API returned.
#[derive(Debug, Clone)]
pub struct ApiErrorResponse {
    pub error: ApiError,
}

/// The error in an [ApiErrorResponse].
#[derive(Debug, Clone)]
pub struct ApiError {
    pub status: u16,
    pub message: ApiErrorMessage,
}

/// The different causes for OAuth-authentication to fail.
#[derive(Debug, Clone, Copy, PartialEq, Eq, Structural)]
pub enum AuthenticationErrorKind {
    InvalidRequest,
    InvalidClient,
    InvalidGrant,
    UnauthorizedClient,
    UnsupportedGrantType,
    InvalidScope,
}

/// The known messages in Spotify's API errors.
#[derive(Debug, Clone)]
#[non_exhaustive]
pub enum ApiErrorMessage {
    PermissionsMissing,
    TokenExpired,
    NoActiveDevice,
    RestrictionViolated,
    PremiumRequired,
    NotFound,
    Other(String),
}

impl AuthenticationErrorResponse {
    /// The library error for an authentication error that is not handled otherwise.
    pub fn into_unhandled_error(self) -> (r: Error)
        ensures
            r == Error::UnhandledAuthenticationError(self.error, self.error_description),
    {
        Error::UnhandledAuthenticationError(self.error, self.error_description)
    }
}

/// The message Spotify sends when the scope an endpoint needs is missing.
pub open spec fn permissions_missing_text() -> Seq<char> {
    "Permissions missing"@
}

/// The message Spotify sends when the access token has expired.
pub open spec fn token_expired_text() -> Seq<char> {
    "The access token expired"@
}

/// The message Spotify sends when a player command finds no active device.
pub open spec fn no_active_device_text() -> Seq<char> {
    "Player command failed: No active device found"@
}

/// The message Spotify sends when a player command is not allowed in the current playback, such as pausing a paused
/// playback.
pub open spec fn restriction_violated_text() -> Seq<char> {
    "Player command failed: Restriction violated"@
}

/// The message Spotify sends when a player command needs a Spotify Premium account.
pub open spec fn premium_required_text() -> Seq<char> {
    "Player command failed: Premium required"@
}

/// The message Spotify sends when what a request names does not exist, such as a device that cannot be found.
pub open spec fn not_found_text() -> Seq<char> {
    "Not found."@
}

impl ApiErrorMessage {
    /// Reads the message of an API error: the known messages get their own variant, any other is kept as it is.
    pub fn from_message(message: String) -> (r: Self)
        ensures
            r == if message@ == permissions_missing_text() {
                ApiErrorMessage::PermissionsMissing
            } else if message@ == token_expired_text() {
                ApiErrorMessage::TokenExpired
            } else if message@ == no_active_device_text() {
                ApiErrorMessage::NoActiveDevice
            } else if message@ == restriction_violated_text() {
                ApiErrorMessage::RestrictionViolated
            } else if message@ == premium_required_text() {
                ApiErrorMessage::PremiumRequired
            } else if message@ == not_found_text() {
                ApiErrorMessage::NotFound
            } else {
                ApiErrorMessage::Other(message)
            },
    {
        if str_eq(message.as_str(), "Permissions missing") {
            ApiErrorMessage::PermissionsMissing
        } else if str_eq(message.as_str(), "The access token expired") {
            ApiErrorMessage::TokenExpired
        } else if str_eq(message.as_str(), "Player command failed: No active device found") {
            ApiErrorMessage::NoActiveDevice
        } else if str_eq(message.as_str(), "Player command failed: Restriction violated") {
            ApiErrorMessage::RestrictionViolated
        } else if str_eq(message.as_str(), "Player command failed: Premium required") {
            ApiErrorMessage::PremiumRequired
        } else if str_eq(message.as_str(), "Not found.") {
            ApiErrorMessage::NotFound
        } else {
            ApiErrorMessage::Other(message)
        }
    }
}


/// The messages of Spotify's API errors that the library tells apart, word for word as Spotify sends them.
pub proof fn law_api_error_message_texts()
    ensures
        permissions_missing_text() == "Permissions missing"@,
        token_expired_text() == "The access token expired"@,
        no_active_device_text() == "Player command failed: No active device found"@,
        restriction_violated_text() == "Player command failed: Restriction violated"@,
        premium_required_text() == "Player command failed: Premium required"@,
        not_found_text() == "Not found."@,
{
}

} // verus!
