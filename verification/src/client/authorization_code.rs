//! The authorization code flow, with optional PKCE: the builder, the incomplete client waiting for the user's
//! authorization, and the forms and errors of the token requests.
//!
//! [Spotify documentation on the authorization code flow.](https://developer.spotify.com/documentation/general/guides/authorization/code-flow/).

use vstd::prelude::*;

use super::is_alphanumeric;
use super::pair;
use super::parse_url_with_params;
use super::private::HttpClient;
use super::random_alphanumeric;
use super::url_with_params_of;
use super::opt_text;
use super::pairs_view;
use super::ACCOUNTS_AUTHORIZE_ENDPOINT;
use super::PKCE_VERIFIER_LENGTH;
use super::RANDOM_STATE_LENGTH;
use super::request_builder::keys_unique;
use super::request_builder::lemma_param_value_at;
use super::request_builder::spec_param_value;
use crate::error::Error;
use crate::model::error::AuthenticationErrorKind;
use crate::model::id::str_eq;
use crate::scope::spec_scopes_string;
use crate::scope::ToScopesString;

verus! {

/// The SHA-256 digest of the UTF-8 bytes of `text`.
pub uninterp spec fn sha256_of(text: Seq<char>) -> Seq<u8>;

/// The text `base64::encode_config` with `URL_SAFE_NO_PAD` gives for `bytes`: the URL-safe alphabet, without padding.
pub uninterp spec fn base64_url_no_pad_of(bytes: Seq<u8>) -> Seq<char>;

/// `sha2::Sha256::digest`: the SHA-256 digest of the UTF-8 bytes of the text, 32 bytes long.
#[verifier::external_body]
fn sha256_digest(text: &str) -> (r: Vec<u8>)
    ensures
        r@ == sha256_of(text@),
        r@.len() == 32,
{
    <sha2::Sha256 as sha2::Digest>::digest(text.as_bytes()).to_vec()
}

/// `base64::encode_config` with `URL_SAFE_NO_PAD`: the URL-safe Base64 encoding of the bytes, without padding.
#[verifier::external_body]
fn encode_base64_url_no_pad(bytes: &[u8]) -> (r: String)
    ensures
        r@ == base64_url_no_pad_of(bytes@),
{
    base64::encode_config(bytes, base64::URL_SAFE_NO_PAD)
}

/// The PKCE code challenge for a code verifier: the URL-safe, unpadded Base64 encoding of the verifier's SHA-256
/// digest (the `S256` method).
pub fn pkce_challenge(verifier: &str) -> (r: String)
    ensures
        r@ == base64_url_no_pad_of(sha256_of(verifier@)),
{
    let digest = sha256_digest(verifier);
    encode_base64_url_no_pad(digest.as_slice())
}

/// The query parameters of the authorization URL the user is directed to, in order: the response type `code`, the
/// redirect URI, the client ID, the state and whether to show the dialog, then the scopes if any, then the PKCE
/// challenge and its method if PKCE is used.
pub open spec fn spec_authorize_params(
    redirect_uri: Seq<char>,
    client_id: Seq<char>,
    state: Seq<char>,
    show_dialog: bool,
    scopes: Option<Seq<char>>,
    pkce_challenge: Option<Seq<char>>,
) -> Seq<(Seq<char>, Seq<char>)> {
    let base = seq![
        ("response_type"@, "code"@),
        ("redirect_uri"@, redirect_uri),
        ("client_id"@, client_id),
        ("state"@, state),
        ("show_dialog"@, if show_dialog { "true"@ } else { "false"@ }),
    ];
    let with_scopes = match scopes {
        Some(s) => base.push(("scope"@, s)),
        None => base,
    };
    match pkce_challenge {
        Some(c) => with_scopes.push(("code_challenge_method"@, "S256"@)).push(("code_challenge"@, c)),
        None => with_scopes,
    }
}

/// The form that requests an access and a refresh token for an authorization code: the grant type, the code and the
/// redirect URI, then with PKCE the client ID and the code verifier.
pub open spec fn spec_authorization_code_form(
    code: Seq<char>,
    redirect_uri: Seq<char>,
    client_id: Seq<char>,
    pkce_verifier: Option<Seq<char>>,
) -> Seq<(Seq<char>, Seq<char>)> {
    let base = seq![("grant_type"@, "authorization_code"@), ("code"@, code), ("redirect_uri"@, redirect_uri)];
    match pkce_verifier {
        Some(v) => base.push(("client_id"@, client_id)).push(("code_verifier"@, v)),
        None => base,
    }
}

/// The form that requests a new access token with a refresh token: the grant type and the refresh token, then the
/// client ID when the client uses PKCE.
pub open spec fn spec_refresh_token_form(refresh_token: Seq<char>, client_id: Option<Seq<char>>) -> Seq<
    (Seq<char>, Seq<char>),
> {
    let base = seq![("grant_type"@, "refresh_token"@), ("refresh_token"@, refresh_token)];
    match client_id {
        Some(id) => base.push(("client_id"@, id)),
        None => base,
    }
}

/// The views of a list of borrowed key-value pairs.
pub open spec fn str_pairs_view(pairs: Seq<(&str, &str)>) -> Seq<(Seq<char>, Seq<char>)> {
    pairs.map_values(|p: (&str, &str)| (p.0@, p.1@))
}

/// Builder for an authorization code flow user client.
#[derive(Debug)]
pub struct AuthorizationCodeUserClientBuilder<C> where C: HttpClient + Clone {
    client_id: String,
    redirect_uri: String,
    scopes: Option<String>,
    show_dialog: bool,
    pkce_verifier: Option<String>,
    http_client: C,
}

/// An incomplete authorization code user client.
///
/// The client has been configured, and it has to be finalized by directing the user to the
/// [authorize URL](IncompleteAuthorizationCodeUserClient::get_authorize_url) and retrieving an authorization code and a
/// state parameter from the redirect callback URL.
#[derive(Debug)]
pub struct IncompleteAuthorizationCodeUserClient<C> where C: HttpClient + Clone {
    client_id: String,
    redirect_uri: String,
    state: String,
    scopes: Option<String>,
    show_dialog: bool,
    pkce_verifier: Option<String>,
    http_client: C,
}

impl<C> AuthorizationCodeUserClientBuilder<C> where C: HttpClient + Clone {
    /// The application's client ID.
    pub closed spec fn spec_client_id(&self) -> Seq<char> {
        self.client_id@
    }

    /// Where Spotify redirects the user after the authorization.
    pub closed spec fn spec_redirect_uri(&self) -> Seq<char> {
        self.redirect_uri@
    }

    /// The scopes the user is asked to grant, as one string.
    pub closed spec fn spec_scopes(&self) -> Option<Seq<char>> {
        opt_text(self.scopes)
    }

    /// Whether the user is asked to approve the application again.
    pub closed spec fn spec_show_dialog(&self) -> bool {
        self.show_dialog
    }

    /// The PKCE code verifier, when PKCE is used.
    pub closed spec fn spec_pkce_verifier(&self) -> Option<Seq<char>> {
        opt_text(self.pkce_verifier)
    }

    /// The HTTP client requests are sent with.
    pub closed spec fn spec_http_client(&self) -> C {
        self.http_client
    }

    /// Starts building a client that redirects to `redirect_uri`; no scopes, no dialog and no PKCE.
    pub fn new(redirect_uri: String, client_id: String, http_client: C) -> (r: Self)
        ensures
            r.spec_redirect_uri() == redirect_uri@,
            r.spec_client_id() == client_id@,
            r.spec_scopes() is None,
            !r.spec_show_dialog(),
            r.spec_pkce_verifier() is None,
            r.spec_http_client() == http_client,
    {
        AuthorizationCodeUserClientBuilder {
            client_id,
            redirect_uri,
            scopes: None,
            show_dialog: false,
            pkce_verifier: None,
            http_client,
        }
    }

    /// Generates a PKCE code verifier to be used in the authentication process.
    pub fn with_pkce(self) -> (r: Self)
        ensures
            r.spec_redirect_uri() == self.spec_redirect_uri(),
            r.spec_client_id() == self.spec_client_id(),
            r.spec_scopes() == self.spec_scopes(),
            r.spec_show_dialog() == self.spec_show_dialog(),
            r.spec_http_client() == self.spec_http_client(),
            r.spec_pkce_verifier() matches Some(v) && v.len() == PKCE_VERIFIER_LENGTH && forall|i: int|
                0 <= i < v.len() ==> is_alphanumeric(#[trigger] v[i]),
    {
        let code_verifier = random_alphanumeric(PKCE_VERIFIER_LENGTH);
        AuthorizationCodeUserClientBuilder { pkce_verifier: Some(code_verifier), ..self }
    }

    /// Specify the [OAuth authorization scopes](crate::scope::Scope) that the user is asked to grant for the
    /// application.
    pub fn scopes<T>(self, scopes: T) -> (r: Self) where T: ToScopesString
        ensures
            r.spec_scopes() == Some(spec_scopes_string(scopes.spec_scopes())),
            r.spec_redirect_uri() == self.spec_redirect_uri(),
            r.spec_client_id() == self.spec_client_id(),
            r.spec_show_dialog() == self.spec_show_dialog(),
            r.spec_pkce_verifier() == self.spec_pkce_verifier(),
            r.spec_http_client() == self.spec_http_client(),
    {
        AuthorizationCodeUserClientBuilder { scopes: Some(scopes.to_scopes_string()), ..self }
    }

    /// Set whether or not to force the user to approve the application again, if they've already done so.
    ///
    /// If false (default), a user who has already approved the application is automatically redirected to the specified
    /// redirect URL. If true, the user will not be automatically redirected and will have to approve the application
    /// again.
    pub fn show_dialog(self, show_dialog: bool) -> (r: Self)
        ensures
            r.spec_show_dialog() == show_dialog,
            r.spec_redirect_uri() == self.spec_redirect_uri(),
            r.spec_client_id() == self.spec_client_id(),
            r.spec_scopes() == self.spec_scopes(),
            r.spec_pkce_verifier() == self.spec_pkce_verifier(),
            r.spec_http_client() == self.spec_http_client(),
    {
        AuthorizationCodeUserClientBuilder { show_dialog, ..self }
    }

    /// Finalize the builder and return an [IncompleteAuthorizationCodeUserClient] with a new random state.
    pub fn build(self) -> (r: IncompleteAuthorizationCodeUserClient<C>)
        ensures
            r.spec_redirect_uri() == self.spec_redirect_uri(),
            r.spec_client_id() == self.spec_client_id(),
            r.spec_scopes() == self.spec_scopes(),
            r.spec_show_dialog() == self.spec_show_dialog(),
            r.spec_pkce_verifier() == self.spec_pkce_verifier(),
            r.spec_http_client() == self.spec_http_client(),
            r.spec_state().len() == RANDOM_STATE_LENGTH,
            forall|i: int| 0 <= i < r.spec_state().len() ==> is_alphanumeric(#[trigger] r.spec_state()[i]),
    {
        let state = random_alphanumeric(RANDOM_STATE_LENGTH);
        IncompleteAuthorizationCodeUserClient {
            redirect_uri: self.redirect_uri,
            state,
            scopes: self.scopes,
            show_dialog: self.show_dialog,
            client_id: self.client_id,
            pkce_verifier: self.pkce_verifier,
            http_client: self.http_client,
        }
    }
}

impl<C> IncompleteAuthorizationCodeUserClient<C> where C: HttpClient + Clone {
    /// The application's client ID.
    pub closed spec fn spec_client_id(&self) -> Seq<char> {
        self.client_id@
    }

    /// Where Spotify redirects the user after the authorization.
    pub closed spec fn spec_redirect_uri(&self) -> Seq<char> {
        self.redirect_uri@
    }

    /// The state the callback must carry back.
    pub closed spec fn spec_state(&self) -> Seq<char> {
        self.state@
    }

    /// The scopes the user is asked to grant, as one string.
    pub closed spec fn spec_scopes(&self) -> Option<Seq<char>> {
        opt_text(self.scopes)
    }

    /// Whether the user is asked to approve the application again.
    pub closed spec fn spec_show_dialog(&self) -> bool {
        self.show_dialog
    }

    /// The PKCE code verifier, when PKCE is used.
    pub closed spec fn spec_pkce_verifier(&self) -> Option<Seq<char>> {
        opt_text(self.pkce_verifier)
    }

    /// The HTTP client requests are sent with.
    pub closed spec fn spec_http_client(&self) -> C {
        self.http_client
    }

    /// The PKCE challenge sent in the authorization URL, when PKCE is used.
    pub open spec fn spec_pkce_challenge(&self) -> Option<Seq<char>> {
        match self.spec_pkce_verifier() {
            Some(v) => Some(base64_url_no_pad_of(sha256_of(v))),
            None => None,
        }
    }

    /// The query parameters of this client's authorization URL.
    pub open spec fn spec_authorize_params(&self) -> Seq<(Seq<char>, Seq<char>)> {
        spec_authorize_params(
            self.spec_redirect_uri(),
            self.spec_client_id(),
            self.spec_state(),
            self.spec_show_dialog(),
            self.spec_scopes(),
            self.spec_pkce_challenge(),
        )
    }

    /// The query parameters of the authorization URL.
    pub fn authorize_params(&self) -> (r: Vec<(String, String)>)
        ensures
            pairs_view(r@) == self.spec_authorize_params(),
    {
        proof {
            reveal_strlit("response_type");
            reveal_strlit("code");
            reveal_strlit("redirect_uri");
            reveal_strlit("client_id");
            reveal_strlit("state");
            reveal_strlit("show_dialog");
            reveal_strlit("true");
            reveal_strlit("false");
            reveal_strlit("scope");
            reveal_strlit("code_challenge_method");
            reveal_strlit("S256");
            reveal_strlit("code_challenge");
        }
        let mut params: Vec<(String, String)> = Vec::new();
        params.push(pair("response_type", "code"));
        params.push(pair("redirect_uri", self.redirect_uri.as_str()));
        params.push(pair("client_id", self.client_id.as_str()));
        params.push(pair("state", self.state.as_str()));
        params.push(pair("show_dialog", if self.show_dialog { "true" } else { "false" }));
        if let Some(scopes) = &self.scopes {
            params.push(pair("scope", scopes.as_str()));
        }
        if let Some(pkce_verifier) = &self.pkce_verifier {
            let challenge = pkce_challenge(pkce_verifier.as_str());
            params.push(pair("code_challenge_method", "S256"));
            params.push(pair("code_challenge", challenge.as_str()));
        }
        assert(pairs_view(params@) =~= self.spec_authorize_params());
        params
    }

    /// Returns an authorization URL the user should be directed to in some manner: the accounts service's authorize
    /// endpoint with this client's parameters. `None` only where the endpoint does not parse as an URL.
    ///
    /// Once the user approves the application, they are redirected back to the application's callback URL. The URL
    /// query in the callback will contain a `code` parameter and a `state` parameter, which complete the client.
    pub fn get_authorize_url(&self) -> (r: Option<String>)
        ensures
            opt_text(r) == url_with_params_of(ACCOUNTS_AUTHORIZE_ENDPOINT@, self.spec_authorize_params()),
    {
        let params = self.authorize_params();
        parse_url_with_params(ACCOUNTS_AUTHORIZE_ENDPOINT, &params)
    }

    /// The form that requests the access and refresh tokens for an authorization code, once the state from the
    /// callback is checked against the client's own: a different state is an error.
    pub fn build_authorization_code_token_request_form<'a>(&'a self, code: &'a str, state: &str) -> (r: Result<
        Vec<(&'a str, &'a str)>,
        Error,
    >)
        ensures
            state@ != self.spec_state() ==> r == Err::<Vec<(&'a str, &'a str)>, Error>(
                Error::AuthorizationCodeStateMismatch,
            ),
            state@ == self.spec_state() ==> (r matches Ok(form) && str_pairs_view(form@)
                == spec_authorization_code_form(
                code@,
                self.spec_redirect_uri(),
                self.spec_client_id(),
                self.spec_pkce_verifier(),
            )),
    {
        if !str_eq(state, self.state.as_str()) {
            return Err(Error::AuthorizationCodeStateMismatch);
        }
        proof {
            reveal_strlit("grant_type");
            reveal_strlit("authorization_code");
            reveal_strlit("code");
            reveal_strlit("redirect_uri");
            reveal_strlit("client_id");
            reveal_strlit("code_verifier");
        }
        let mut token_request_form: Vec<(&'a str, &'a str)> = Vec::new();
        token_request_form.push(("grant_type", "authorization_code"));
        token_request_form.push(("code", code));
        token_request_form.push(("redirect_uri", self.redirect_uri.as_str()));
        if let Some(pkce_verifier) = &self.pkce_verifier {
            token_request_form.push(("client_id", self.client_id.as_str()));
            token_request_form.push(("code_verifier", pkce_verifier.as_str()));
        }
        assert(str_pairs_view(token_request_form@) =~= spec_authorization_code_form(
            code@,
            self.spec_redirect_uri(),
            self.spec_client_id(),
            self.spec_pkce_verifier(),
        ));
        Ok(token_request_form)
    }

    /// The HTTP client requests are sent with.
    pub fn http_client(&self) -> (r: &C)
        ensures
            *r == self.spec_http_client(),
    {
        &self.http_client
    }

    /// The client ID the finished client sends when it refreshes its access token: only a client that uses PKCE
    /// sends it.
    pub fn refresh_client_id(&self) -> (r: Option<String>)
        ensures
            opt_text(r) == match self.spec_pkce_verifier() {
                Some(_) => Some(self.spec_client_id()),
                None => None,
            },
    {
        match &self.pkce_verifier {
            Some(_) => Some(self.client_id.clone()),
            None => None,
        }
    }
}

/// The form that requests a new access token with a refresh token.
pub fn build_refresh_token_request_form<'a>(refresh_token: &'a str, client_id: Option<&'a str>) -> (r: Vec<
    (&'a str, &'a str),
>)
    ensures
        str_pairs_view(r@) == spec_refresh_token_form(
            refresh_token@,
            match client_id {
                Some(id) => Some(id@),
                None => None,
            },
        ),
{
    proof {
        reveal_strlit("grant_type");
        reveal_strlit("refresh_token");
        reveal_strlit("client_id");
    }
    let mut token_request_form: Vec<(&'a str, &'a str)> = Vec::new();
    token_request_form.push(("grant_type", "refresh_token"));
    token_request_form.push(("refresh_token", refresh_token));
    if let Some(client_id) = client_id {
        token_request_form.push(("client_id", client_id));
    }
    assert(str_pairs_view(token_request_form@) =~= spec_refresh_token_form(
        refresh_token@,
        match client_id {
            Some(id) => Some(id@),
            None => None,
        },
    ));
    token_request_form
}

/// The refresh token a client keeps after a token response: the new one when Spotify sent one, else the old one.
pub fn next_refresh_token(new_refresh_token: Option<String>, refresh_token: String) -> (r: String)
    ensures
        r == match new_refresh_token {
            Some(t) => t,
            None => refresh_token,
        },
{
    match new_refresh_token {
        Some(t) => t,
        None => refresh_token,
    }
}

/// The error finalizing the client gives: an invalid grant means the authorization code is invalid; any other error is
/// kept.
pub fn map_authentication_error(err: Error) -> (r: Error)
    ensures
        r == match err {
            Error::UnhandledAuthenticationError(AuthenticationErrorKind::InvalidGrant, _) => {
                Error::InvalidAuthorizationCode
            },
            other => other,
        },
{
    match err {
        Error::UnhandledAuthenticationError(AuthenticationErrorKind::InvalidGrant, _) => Error::InvalidAuthorizationCode,
        other => other,
    }
}

/// The error refreshing the access token gives: an invalid grant means the refresh token is invalid, reported with
/// Spotify's description; any other error is kept.
pub fn map_refresh_token_error(err: Error) -> (r: Error)
    ensures
        r == match err {
            Error::UnhandledAuthenticationError(AuthenticationErrorKind::InvalidGrant, description) => {
                Error::InvalidRefreshToken(description)
            },
            other => other,
        },
{
    match err {
        Error::UnhandledAuthenticationError(AuthenticationErrorKind::InvalidGrant, description) => {
            Error::InvalidRefreshToken(description)
        },
        other => other,
    }
}


/// The authorization URL of the authorization code flow asks for a code (`response_type=code`) for the client's ID,
/// with its redirect URI and its state, and says whether the dialog is forced (`show_dialog=true` or `false`); it asks
/// for the scopes exactly when some were given, and with PKCE it sends the S256 challenge of the code verifier. No
/// parameter occurs twice.
pub proof fn law_authorize_params<C: HttpClient + Clone>(client: IncompleteAuthorizationCodeUserClient<C>)
    ensures
        keys_unique(client.spec_authorize_params()),
        spec_param_value(client.spec_authorize_params(), "response_type"@) == Some("code"@),
        spec_param_value(client.spec_authorize_params(), "redirect_uri"@) == Some(client.spec_redirect_uri()),
        spec_param_value(client.spec_authorize_params(), "client_id"@) == Some(client.spec_client_id()),
        spec_param_value(client.spec_authorize_params(), "state"@) == Some(client.spec_state()),
        spec_param_value(client.spec_authorize_params(), "show_dialog"@) == Some(
            if client.spec_show_dialog() {
                "true"@
            } else {
                "false"@
            },
        ),
        spec_param_value(client.spec_authorize_params(), "scope"@) == client.spec_scopes(),
        spec_param_value(client.spec_authorize_params(), "code_challenge_method"@) == match client.spec_pkce_verifier() {
            Some(_) => Some("S256"@),
            None => None,
        },
        spec_param_value(client.spec_authorize_params(), "code_challenge"@) == match client.spec_pkce_verifier() {
            Some(v) => Some(base64_url_no_pad_of(sha256_of(v))),
            None => None,
        },
{
    reveal_strlit("response_type");
    reveal_strlit("code");
    reveal_strlit("redirect_uri");
    reveal_strlit("client_id");
    reveal_strlit("state");
    reveal_strlit("show_dialog");
    reveal_strlit("true");
    reveal_strlit("false");
    reveal_strlit("scope");
    reveal_strlit("code_challenge_method");
    reveal_strlit("S256");
    reveal_strlit("code_challenge");
    let p = client.spec_authorize_params();
    assert("state"@[1] != "scope"@[1]);
    assert(p[0].0 == "response_type"@);
    assert(p[1].0 == "redirect_uri"@);
    assert(p[2].0 == "client_id"@);
    assert(p[3].0 == "state"@);
    assert(p[4].0 == "show_dialog"@);
    if client.spec_scopes() is Some {
        assert(p[5].0 == "scope"@);
    }
    if client.spec_pkce_verifier() is Some {
        let n: int = if client.spec_scopes() is Some { 6 } else { 5 };
        assert(p.len() == n + 2);
        assert(p[n].0 == "code_challenge_method"@);
        assert(p[n + 1].0 == "code_challenge"@);
    } else {
        assert(p.len() == if client.spec_scopes() is Some { 6int } else { 5int });
    }
    assert(keys_unique(p));
    lemma_param_value_at(p, 0);
    lemma_param_value_at(p, 1);
    lemma_param_value_at(p, 2);
    lemma_param_value_at(p, 3);
    lemma_param_value_at(p, 4);
    let n: int = if client.spec_scopes() is Some { 6 } else { 5 };
    if client.spec_scopes() is Some {
        lemma_param_value_at(p, 5);
    } else {
        assert(forall|i: int| 0 <= i < p.len() ==> #[trigger] p[i].0 != "scope"@);
    }
    if client.spec_pkce_verifier() is Some {
        lemma_param_value_at(p, n);
        lemma_param_value_at(p, n + 1);
    } else {
        assert(forall|i: int| 0 <= i < p.len() ==> #[trigger] p[i].0 != "code_challenge_method"@);
        assert(forall|i: int| 0 <= i < p.len() ==> #[trigger] p[i].0 != "code_challenge"@);
    }
}

/// The token request for an authorization code has the grant type `authorization_code`, the code and the redirect
/// URI; with PKCE it also sends the client ID and the code verifier, and without PKCE neither. No field occurs twice.
pub proof fn law_authorization_code_form(
    code: Seq<char>,
    redirect_uri: Seq<char>,
    client_id: Seq<char>,
    pkce_verifier: Option<Seq<char>>,
)
    ensures
        keys_unique(spec_authorization_code_form(code, redirect_uri, client_id, pkce_verifier)),
        spec_param_value(spec_authorization_code_form(code, redirect_uri, client_id, pkce_verifier), "grant_type"@)
            == Some("authorization_code"@),
        spec_param_value(spec_authorization_code_form(code, redirect_uri, client_id, pkce_verifier), "code"@) == Some(
            code,
        ),
        spec_param_value(spec_authorization_code_form(code, redirect_uri, client_id, pkce_verifier), "redirect_uri"@)
            == Some(redirect_uri),
        spec_param_value(spec_authorization_code_form(code, redirect_uri, client_id, pkce_verifier), "client_id"@)
            == match pkce_verifier {
            Some(_) => Some(client_id),
            None => None,
        },
        spec_param_value(spec_authorization_code_form(code, redirect_uri, client_id, pkce_verifier), "code_verifier"@)
            == pkce_verifier,
{
    reveal_strlit("grant_type");
    reveal_strlit("authorization_code");
    reveal_strlit("code");
    reveal_strlit("redirect_uri");
    reveal_strlit("client_id");
    reveal_strlit("code_verifier");
    let p = spec_authorization_code_form(code, redirect_uri, client_id, pkce_verifier);
    assert(p[0].0 == "grant_type"@);
    assert(p[1].0 == "code"@);
    assert(p[2].0 == "redirect_uri"@);
    if pkce_verifier is Some {
        assert(p.len() == 5);
        assert(p[3].0 == "client_id"@);
        assert(p[4].0 == "code_verifier"@);
    } else {
        assert(p.len() == 3);
    }
    assert(keys_unique(p));
    lemma_param_value_at(p, 0);
    lemma_param_value_at(p, 1);
    lemma_param_value_at(p, 2);
    if pkce_verifier is Some {
        lemma_param_value_at(p, 3);
        lemma_param_value_at(p, 4);
    } else {
        assert(forall|i: int| 0 <= i < p.len() ==> #[trigger] p[i].0 != "client_id"@);
        assert(forall|i: int| 0 <= i < p.len() ==> #[trigger] p[i].0 != "code_verifier"@);
    }
}

/// The request for a new access token has the grant type `refresh_token` and the refresh token, and the client ID
/// exactly when one is given. No field occurs twice.
pub proof fn law_refresh_token_form(refresh_token: Seq<char>, client_id: Option<Seq<char>>)
    ensures
        keys_unique(spec_refresh_token_form(refresh_token, client_id)),
        spec_param_value(spec_refresh_token_form(refresh_token, client_id), "grant_type"@) == Some("refresh_token"@),
        spec_param_value(spec_refresh_token_form(refresh_token, client_id), "refresh_token"@) == Some(refresh_token),
        spec_param_value(spec_refresh_token_form(refresh_token, client_id), "client_id"@) == client_id,
{
    reveal_strlit("grant_type");
    reveal_strlit("refresh_token");
    reveal_strlit("client_id");
    let p = spec_refresh_token_form(refresh_token, client_id);
    assert(p[0].0 == "grant_type"@);
    assert(p[1].0 == "refresh_token"@);
    if client_id is Some {
        assert(p.len() == 3);
        assert(p[2].0 == "client_id"@);
    } else {
        assert(p.len() == 2);
    }
    assert(keys_unique(p));
    lemma_param_value_at(p, 0);
    lemma_param_value_at(p, 1);
    if client_id is Some {
        lemma_param_value_at(p, 2);
    } else {
        assert(forall|i: int| 0 <= i < p.len() ==> #[trigger] p[i].0 != "client_id"@);
    }
}

} // verus!
