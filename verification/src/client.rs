//! Contains the Spotify clients' builders and the rules by which they build requests and handle responses.
//!
//! Sending requests is left to an HTTP client; the library decides what is sent and what a response means.

pub mod authorization_code;
pub mod implicit_grant;
pub mod object;

pub mod private;
pub mod request_builder;
pub mod scoped;
pub mod unscoped;



use std::sync::Arc;

use rand::Rng;

use vstd::prelude::*;

use self::authorization_code::AuthorizationCodeUserClientBuilder;
use self::implicit_grant::ImplicitGrantUserClientBuilder;
use self::private::HttpClient;
use crate::error::Error;
use crate::model::error::AuthenticationErrorKind;

verus! {

/// The length of the random state string sent with authorization requests.
pub const RANDOM_STATE_LENGTH: usize = 16;

/// The length of the PKCE code verifier; the maximum Spotify allows.
pub const PKCE_VERIFIER_LENGTH: usize = 128;

pub const API_BASE_URL: &'static str = "https://api.spotify.com/v1/";

pub const API_TRACKS_ENDPOINT: &'static str = "https://api.spotify.com/v1/tracks";

pub const API_SEARCH_ENDPOINT: &'static str = "https://api.spotify.com/v1/search";

pub const API_PLAYBACK_STATE_ENDPOINT: &'static str = "https://api.spotify.com/v1/me/player";

pub const API_CURRENTLY_PLAYING_ITEM_ENDPOINT: &'static str =
    "https://api.spotify.com/v1/me/player/currently-playing";

pub const API_PLAYER_PLAY_ENDPOINT: &'static str = "https://api.spotify.com/v1/me/player/play";

pub const API_PLAYER_PAUSE_ENDPOINT: &'static str = "https://api.spotify.com/v1/me/player/pause";

pub const API_PLAYER_NEXT_ENDPOINT: &'static str = "https://api.spotify.com/v1/me/player/next";

pub const API_PLAYER_PREVIOUS_ENDPOINT: &'static str = "https://api.spotify.com/v1/me/player/previous";

pub const API_PLAYER_SEEK_ENDPOINT: &'static str = "https://api.spotify.com/v1/me/player/seek";

pub const API_PLAYER_REPEAT_ENDPOINT: &'static str = "https://api.spotify.com/v1/me/player/repeat";

pub const API_PLAYER_SHUFFLE_ENDPOINT: &'static str = "https://api.spotify.com/v1/me/player/shuffle";

pub const API_PLAYER_VOLUME_ENDPOINT: &'static str = "https://api.spotify.com/v1/me/player/volume";

pub const API_PLAYER_QUEUE_ENDPOINT: &'static str = "https://api.spotify.com/v1/me/player/queue";

pub const API_PLAYER_DEVICES_ENDPOINT: &'static str = "https://api.spotify.com/v1/me/player/devices";

pub const ACCOUNTS_BASE_URL: &'static str = "https://accounts.spotify.com/";

pub const ACCOUNTS_AUTHORIZE_ENDPOINT: &'static str = "https://accounts.spotify.com/authorize";

pub const ACCOUNTS_API_TOKEN_ENDPOINT: &'static str = "https://accounts.spotify.com/api/token";

/// The text `base64::encode` gives for the UTF-8 bytes of `text`: standard alphabet, with padding.
pub uninterp spec fn base64_standard_of(text: Seq<char>) -> Seq<char>;

/// `base64::encode`: the standard Base64 encoding, with padding, of the UTF-8 bytes of the text.
#[verifier::external_body]
fn encode_base64(text: &str) -> (r: String)
    ensures
        r@ == base64_standard_of(text@),
{
    base64::encode(text)
}

/// The URL `reqwest::Url::parse_with_params` gives for a base URL and query parameters, or nothing where the base
/// does not parse as an URL.
pub uninterp spec fn url_with_params_of(base: Seq<char>, params: Seq<(Seq<char>, Seq<char>)>) -> Option<Seq<char>>;

/// The views of a list of key-value pairs.
pub open spec fn pairs_view(pairs: Seq<(String, String)>) -> Seq<(Seq<char>, Seq<char>)> {
    pairs.map_values(|p: (String, String)| (p.0@, p.1@))
}

/// The text of an optional string.
pub open spec fn opt_text(o: Option<String>) -> Option<Seq<char>> {
    match o {
        Some(s) => Some(s@),
        None => None,
    }
}

/// `reqwest::Url::parse_with_params`: parses the base URL and appends the parameters to its query, form-encoded, in
/// order; `None` where the base does not parse.
#[verifier::external_body]
pub(crate) fn parse_url_with_params(base: &str, params: &Vec<(String, String)>) -> (r: Option<String>)
    ensures
        opt_text(r) == url_with_params_of(base@, pairs_view(params@)),
{
    match reqwest::Url::parse_with_params(base, params.iter()) {
        Ok(url) => Some(url.into()),
        Err(_) => None,
    }
}

/// An ASCII letter or digit, the characters of Rand's `Alphanumeric` distribution.
pub open spec fn is_alphanumeric(c: char) -> bool {
    ('A' <= c && c <= 'Z') || ('a' <= c && c <= 'z') || ('0' <= c && c <= '9')
}

/// A random string of `len` characters from Rand's `Alphanumeric` distribution, drawn with the thread-local generator.
#[verifier::external_body]
pub(crate) fn random_alphanumeric(len: usize) -> (r: String)
    ensures
        r@.len() == len,
        forall|i: int| 0 <= i < r@.len() ==> is_alphanumeric(#[trigger] r@[i]),
{
    rand::thread_rng().sample_iter(&rand::distributions::Alphanumeric).take(len).map(char::from).collect()
}

/// Another handle to the shared value: `Arc::clone`, which points to the same value.
#[verifier::external_body]
pub(crate) fn share<T>(value: &Arc<T>) -> (r: Arc<T>)
    ensures
        *r == **value,
{
    Arc::clone(value)
}

/// The owned text of a string slice.
pub(crate) fn owned(text: &str) -> (r: String)
    ensures
        r@ == text@,
{
    text.to_owned()
}

/// A pair of owned strings.
pub(crate) fn pair(key: &str, value: &str) -> (r: (String, String))
    ensures
        r.0@ == key@,
        r.1@ == value@,
{
    (key.to_owned(), value.to_owned())
}

/// The `Authorization` header value `Basic <encoded>` for an already Base64-encoded `client_id:client_secret`.
pub fn basic_authorization(encoded: &str) -> (r: String)
    ensures
        r@ == "Basic "@ + encoded@,
{
    let mut r = "Basic ".to_owned();
    proof {
        reveal_strlit("Basic ");
    }
    r.append(encoded);
    r
}

/// The `Authorization` header the client credentials flow sends: `Basic` and the Base64 encoding of
/// `client_id:client_secret`.
pub fn build_authorization_header(client_id: &str, client_secret: &str) -> (r: String)
    ensures
        r@ == "Basic "@ + base64_standard_of(client_id@ + ":"@ + client_secret@),
{
    let mut auth = client_id.to_owned();
    auth.append(":");
    auth.append(client_secret);
    proof {
        reveal_strlit(":");
    }
    let encoded = encode_base64(auth.as_str());
    basic_authorization(encoded.as_str())
}

/// The outcome of a synchronous client waiting out a rate limit: the client blocks its running thread for
/// `sleep_time` seconds and then sends the request again, so the wait always succeeds. The blocking itself is done by
/// the thread that sends the request, which the library does not hold.
pub fn rate_limit_sleep_sync(sleep_time: u64) -> (r: Result<(), Error>)
    ensures
        r == Ok::<(), Error>(()),
{
    Ok(())
}

/// Whether a response from Spotify's accounts service is an authentication error: a 400 Bad Request, whose body holds
/// the error.
pub fn is_authentication_error_status(status: u16) -> (r: bool)
    ensures
        r == (status == 400),
{
    status == 400
}

/// The error the client credentials flow gives: an invalid client is reported as such with Spotify's description,
/// any other error is kept.
pub fn map_client_credentials_error(err: Error) -> (r: Error)
    ensures
        r == match err {
            Error::UnhandledAuthenticationError(AuthenticationErrorKind::InvalidClient, description) => {
                Error::InvalidClient(description)
            },
            other => other,
        },
{
    match err {
        Error::UnhandledAuthenticationError(AuthenticationErrorKind::InvalidClient, description) => {
            Error::InvalidClient(description)
        },
        other => other,
    }
}

/// The error refreshing a client credentials flow access token gives: an invalid grant means the client is invalid,
/// reported with Spotify's description; any other error is kept.
pub fn map_client_credentials_refresh_error(err: Error) -> (r: Error)
    ensures
        r == match err {
            Error::UnhandledAuthenticationError(AuthenticationErrorKind::InvalidGrant, description) => {
                Error::InvalidClient(description)
            },
            other => other,
        },
{
    match err {
        Error::UnhandledAuthenticationError(AuthenticationErrorKind::InvalidGrant, description) => {
            Error::InvalidClient(description)
        },
        other => other,
    }
}

/// The form the client credentials flow posts to request an access token.
pub fn client_credentials_request_form() -> (r: Vec<(&'static str, &'static str)>)
    ensures
        r@.len() == 1,
        r@[0].0@ == "grant_type"@,
        r@[0].1@ == "client_credentials"@,
{
    proof {
        reveal_strlit("grant_type");
        reveal_strlit("client_credentials");
    }
    vec![("grant_type", "client_credentials")]
}

/// What a Spotify client shares with the clients it builds.
#[derive(Debug)]
pub struct SpotifyClientRef {
    client_id: String,
}

impl SpotifyClientRef {
    /// The application's client ID.
    pub closed spec fn spec_client_id(&self) -> Seq<char> {
        self.client_id@
    }

    /// The application's client ID.
    pub fn client_id(&self) -> (r: &str)
        ensures
            r@ == self.spec_client_id(),
    {
        self.client_id.as_str()
    }
}

/// A Spotify client that knows only the application's client ID. It builds the user clients that do not need the
/// client secret: the implicit grant flow and the authorization code flow with PKCE.
#[derive(Debug, Clone)]
pub struct SpotifyClient<C> where C: HttpClient {
    inner: Arc<SpotifyClientRef>,
    http_client: C,
}

/// Builder for [SpotifyClient].
#[derive(Debug, Clone)]
pub struct SpotifyClientBuilder {
    client_id: String,
}

/// Builder for a Spotify client that also knows the application's client secret.
#[derive(Debug, Clone)]
pub struct SpotifyClientWithSecretBuilder {
    client_id: String,
    client_secret: String,
}

impl SpotifyClientBuilder {
    /// The application's client ID.
    pub closed spec fn spec_client_id(&self) -> Seq<char> {
        self.client_id@
    }

    /// Starts building a client for the application with this client ID.
    pub fn new(client_id: String) -> (r: Self)
        ensures
            r.spec_client_id() == client_id@,
    {
        SpotifyClientBuilder { client_id }
    }

    /// Gives the builder the application's client secret.
    pub fn client_secret(self, client_secret: String) -> (r: SpotifyClientWithSecretBuilder)
        ensures
            r.spec_client_id() == self.spec_client_id(),
            r.spec_client_secret() == client_secret@,
    {
        SpotifyClientWithSecretBuilder { client_id: self.client_id, client_secret }
    }

    /// Builds the client with a new HTTP client.
    pub fn build<C>(self) -> (r: SpotifyClient<C>) where C: HttpClient
        ensures
            r.spec_client_id() == self.spec_client_id(),
    {
        SpotifyClient { inner: Arc::new(SpotifyClientRef { client_id: self.client_id }), http_client: C::new() }
    }
}

impl SpotifyClientWithSecretBuilder {
    /// The application's client ID.
    pub closed spec fn spec_client_id(&self) -> Seq<char> {
        self.client_id@
    }

    /// The application's client secret.
    pub closed spec fn spec_client_secret(&self) -> Seq<char> {
        self.client_secret@
    }

    /// The application's client ID.
    pub fn client_id(&self) -> (r: &str)
        ensures
            r@ == self.spec_client_id(),
    {
        self.client_id.as_str()
    }

    /// The application's client secret.
    pub fn client_secret(&self) -> (r: &str)
        ensures
            r@ == self.spec_client_secret(),
    {
        self.client_secret.as_str()
    }

    /// The `Authorization` header every request of the client credentials flow carries.
    pub fn authorization_header(&self) -> (r: String)
        ensures
            r@ == "Basic "@ + base64_standard_of(self.spec_client_id() + ":"@ + self.spec_client_secret()),
    {
        build_authorization_header(self.client_id.as_str(), self.client_secret.as_str())
    }
}

impl<C> SpotifyClient<C> where C: HttpClient {
    /// The application's client ID.
    pub closed spec fn spec_client_id(&self) -> Seq<char> {
        self.inner.client_id@
    }

    /// The HTTP client requests are sent with.
    pub closed spec fn spec_http_client(&self) -> C {
        self.http_client
    }
}

impl<C> SpotifyClient<C> where C: HttpClient + Clone {

    /// The application's client ID.
    pub fn client_id(&self) -> (r: &str)
        ensures
            r@ == self.spec_client_id(),
    {
        self.inner.client_id.as_str()
    }

    /// The HTTP client requests are sent with.
    pub fn http_client(&self) -> (r: &C)
        ensures
            *r == self.spec_http_client(),
    {
        &self.http_client
    }

    /// Starts building an implicit grant flow user client that redirects the user to `redirect_uri`.
    pub fn implicit_grant_client(&self, redirect_uri: String) -> (r: ImplicitGrantUserClientBuilder<C>)
        ensures
            r.spec_redirect_uri() == redirect_uri@,
            r.spec_client_id() == self.spec_client_id(),
            r.spec_scopes() is None,
            !r.spec_show_dialog(),
    {
        ImplicitGrantUserClientBuilder::new(redirect_uri, share(&self.inner), self.http_client.clone())
    }

    /// Starts building an authorization code flow user client with PKCE that redirects the user to `redirect_uri`.
    pub fn authorization_code_client_with_pkce(&self, redirect_uri: String) -> (r: AuthorizationCodeUserClientBuilder<C>)
        ensures
            r.spec_redirect_uri() == redirect_uri@,
            r.spec_client_id() == self.spec_client_id(),
            r.spec_scopes() is None,
            !r.spec_show_dialog(),
            r.spec_pkce_verifier() matches Some(v) && v.len() == PKCE_VERIFIER_LENGTH && forall|i: int|
                0 <= i < v.len() ==> is_alphanumeric(#[trigger] v[i]),
    {
        AuthorizationCodeUserClientBuilder::new(redirect_uri, self.inner.client_id.clone(), self.http_client.clone())
            .with_pkce()
    }
}


/// The Spotify endpoints the clients talk to, as Spotify documents them, and the lengths of the random state (16) and
/// of the PKCE code verifier (128, the most Spotify allows).
pub proof fn law_endpoints()
    ensures
        API_BASE_URL@ == "https://api.spotify.com/v1/"@,
        API_TRACKS_ENDPOINT@ == "https://api.spotify.com/v1/tracks"@,
        API_SEARCH_ENDPOINT@ == "https://api.spotify.com/v1/search"@,
        API_PLAYBACK_STATE_ENDPOINT@ == "https://api.spotify.com/v1/me/player"@,
        API_CURRENTLY_PLAYING_ITEM_ENDPOINT@ == "https://api.spotify.com/v1/me/player/currently-playing"@,
        API_PLAYER_PLAY_ENDPOINT@ == "https://api.spotify.com/v1/me/player/play"@,
        API_PLAYER_PAUSE_ENDPOINT@ == "https://api.spotify.com/v1/me/player/pause"@,
        API_PLAYER_NEXT_ENDPOINT@ == "https://api.spotify.com/v1/me/player/next"@,
        API_PLAYER_PREVIOUS_ENDPOINT@ == "https://api.spotify.com/v1/me/player/previous"@,
        API_PLAYER_SEEK_ENDPOINT@ == "https://api.spotify.com/v1/me/player/seek"@,
        API_PLAYER_REPEAT_ENDPOINT@ == "https://api.spotify.com/v1/me/player/repeat"@,
        API_PLAYER_SHUFFLE_ENDPOINT@ == "https://api.spotify.com/v1/me/player/shuffle"@,
        API_PLAYER_VOLUME_ENDPOINT@ == "https://api.spotify.com/v1/me/player/volume"@,
        API_PLAYER_QUEUE_ENDPOINT@ == "https://api.spotify.com/v1/me/player/queue"@,
        API_PLAYER_DEVICES_ENDPOINT@ == "https://api.spotify.com/v1/me/player/devices"@,
        ACCOUNTS_BASE_URL@ == "https://accounts.spotify.com/"@,
        ACCOUNTS_AUTHORIZE_ENDPOINT@ == "https://accounts.spotify.com/authorize"@,
        ACCOUNTS_API_TOKEN_ENDPOINT@ == "https://accounts.spotify.com/api/token"@,
        RANDOM_STATE_LENGTH == 16,
        PKCE_VERIFIER_LENGTH == 128,
{
}

} // verus!
