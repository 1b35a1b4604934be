//! The implicit grant flow: the builder, the incomplete client waiting for the user's authorization, and the finished
//! client, which cannot refresh its access token.
//!
//! [Spotify documentation on the implicit grant flow.](https://developer.spotify.com/documentation/general/guides/authorization/implicit-grant/)

use std::sync::Arc;

use vstd::prelude::*;

use super::is_alphanumeric;
use super::opt_text;
use super::pair;
use super::pairs_view;
use super::parse_url_with_params;
use super::private::AccessTokenExpiryResult;
use super::private::AccessTokenExpirySync;
use super::private::HttpClient;
use super::random_alphanumeric;
use super::scoped::ScopedClient;
use super::unscoped::UnscopedClient;
use super::url_with_params_of;
use super::SpotifyClientRef;
use super::ACCOUNTS_AUTHORIZE_ENDPOINT;
use super::RANDOM_STATE_LENGTH;
use super::request_builder::keys_unique;
use super::request_builder::lemma_param_value_at;
use super::request_builder::spec_param_value;
use crate::error::Error;
use crate::model::id::str_eq;
use crate::scope::spec_scopes_string;
use crate::scope::ToScopesString;

verus! {

/// The query parameters of the implicit grant authorization URL, in order: the response type `token`, the redirect
/// URI, the client ID and the state, then the scopes if any, then `show_dialog=true` if the dialog is forced (Spotify
/// does not show it by default).
pub open spec fn spec_implicit_authorize_params(
    redirect_uri: Seq<char>,
    client_id: Seq<char>,
    state: Seq<char>,
    scopes: Option<Seq<char>>,
    show_dialog: bool,
) -> Seq<(Seq<char>, Seq<char>)> {
    let base = seq![
        ("response_type"@, "token"@),
        ("redirect_uri"@, redirect_uri),
        ("client_id"@, client_id),
        ("state"@, state),
    ];
    let with_scopes = match scopes {
        Some(s) => base.push(("scope"@, s)),
        None => base,
    };
    if show_dialog {
        with_scopes.push(("show_dialog"@, "true"@))
    } else {
        with_scopes
    }
}

/// A client that implements the implicit grant flow to authenticate an user with Spotify. Its access token cannot be
/// refreshed.
#[derive(Debug, Clone)]
pub struct ImplicitGrantUserClient<C> where C: HttpClient + Clone {
    inner: Arc<ImplicitGrantUserClientRef>,
    http_client: C,
}

/// What an [ImplicitGrantUserClient] shares between its copies.
#[derive(Debug)]
pub struct ImplicitGrantUserClientRef {
    access_token: String,
}

/// An incomplete implicit grant user client.
///
/// The client has been configured, and it has to be [finalized](IncompleteImplicitGrantUserClient::finalize) by
/// directing the user to the [authorize URL](IncompleteImplicitGrantUserClient::get_authorize_url) and retrieving an
/// access token and a state parameter from the redirect callback URL.
#[derive(Debug, Clone)]
pub struct IncompleteImplicitGrantUserClient<C> where C: HttpClient + Clone {
    redirect_uri: String,
    state: String,
    scopes: Option<String>,
    show_dialog: bool,
    spotify_client_ref: Arc<SpotifyClientRef>,
    http_client: C,
}

/// Builder for [ImplicitGrantUserClient].
pub struct ImplicitGrantUserClientBuilder<C> where C: HttpClient + Clone {
    redirect_uri: String,
    scopes: Option<String>,
    show_dialog: bool,
    spotify_client_ref: Arc<SpotifyClientRef>,
    http_client: C,
}

impl<C> ImplicitGrantUserClient<C> where C: HttpClient + Clone {
    /// The access token the client authenticates with.
    pub closed spec fn spec_access_token(&self) -> Seq<char> {
        self.inner.access_token@
    }

    /// The HTTP client requests are sent with.
    pub closed spec fn spec_http_client(&self) -> C {
        self.http_client
    }

    /// The access token the client authenticates with.
    pub fn access_token(&self) -> (r: &str)
        ensures
            r@ == self.spec_access_token(),
    {
        self.inner.access_token.as_str()
    }

    /// The HTTP client requests are sent with.
    pub fn http_client(&self) -> (r: &C)
        ensures
            *r == self.spec_http_client(),
    {
        &self.http_client
    }
}

impl<C> crate::private::Sealed for ImplicitGrantUserClient<C> where C: HttpClient + Clone {}

/// The implicit grant client reaches the endpoints that need the user's authorization.
impl<C> ScopedClient for ImplicitGrantUserClient<C> where C: HttpClient + Clone {}

/// The implicit grant client reaches the catalog endpoints.
impl<C> UnscopedClient for ImplicitGrantUserClient<C> where C: HttpClient + Clone {}

/// An implicit grant client cannot refresh its access token.
impl<C> AccessTokenExpirySync for ImplicitGrantUserClient<C> where C: HttpClient + Clone {
    fn handle_access_token_expired(&self) -> (r: Result<AccessTokenExpiryResult, Error>)
        ensures
            r == Ok::<AccessTokenExpiryResult, Error>(AccessTokenExpiryResult::Inapplicable),
    {
        Ok(AccessTokenExpiryResult::Inapplicable)
    }
}

impl<C> IncompleteImplicitGrantUserClient<C> where C: HttpClient + Clone {
    /// Where Spotify redirects the user after the authorization.
    pub closed spec fn spec_redirect_uri(&self) -> Seq<char> {
        self.redirect_uri@
    }

    /// The application's client ID.
    pub closed spec fn spec_client_id(&self) -> Seq<char> {
        self.spotify_client_ref.spec_client_id()
    }

    /// The state the callback must carry back.
    pub closed spec fn spec_state(&self) -> Seq<char> {
        self.state@
    }

    /// The scopes the user is asked to grant, as one string.
    pub closed spec fn spec_scopes(&self) -> Option<Seq<char>> {
        opt_text(self.scopes)
    }

    /// Whether the user is asked to approve the application again.
    pub closed spec fn spec_show_dialog(&self) -> bool {
        self.show_dialog
    }

    /// The HTTP client requests are sent with.
    pub closed spec fn spec_http_client(&self) -> C {
        self.http_client
    }

    /// The query parameters of this client's authorization URL.
    pub open spec fn spec_authorize_params(&self) -> Seq<(Seq<char>, Seq<char>)> {
        spec_implicit_authorize_params(
            self.spec_redirect_uri(),
            self.spec_client_id(),
            self.spec_state(),
            self.spec_scopes(),
            self.spec_show_dialog(),
        )
    }

    /// The query parameters of the authorization URL.
    pub fn authorize_params(&self) -> (r: Vec<(String, String)>)
        ensures
            pairs_view(r@) == self.spec_authorize_params(),
    {
        proof {
            reveal_strlit("response_type");
            reveal_strlit("token");
            reveal_strlit("redirect_uri");
            reveal_strlit("client_id");
            reveal_strlit("state");
            reveal_strlit("scope");
            reveal_strlit("show_dialog");
            reveal_strlit("true");
        }
        let mut params: Vec<(String, String)> = Vec::new();
        params.push(pair("response_type", "token"));
        params.push(pair("redirect_uri", self.redirect_uri.as_str()));
        params.push(pair("client_id", self.spotify_client_ref.client_id()));
        params.push(pair("state", self.state.as_str()));
        if let Some(scopes) = &self.scopes {
            params.push(pair("scope", scopes.as_str()));
        }
        if self.show_dialog {
            params.push(pair("show_dialog", "true"));
        }
        assert(pairs_view(params@) =~= self.spec_authorize_params());
        params
    }

    /// Returns an authorization URL the user should be directed to in some manner: the accounts service's authorize
    /// endpoint with this client's parameters. `None` only where the endpoint does not parse as an URL.
    pub fn get_authorize_url(&self) -> (r: Option<String>)
        ensures
            opt_text(r) == url_with_params_of(ACCOUNTS_AUTHORIZE_ENDPOINT@, self.spec_authorize_params()),
    {
        let params = self.authorize_params();
        parse_url_with_params(ACCOUNTS_AUTHORIZE_ENDPOINT, &params)
    }

    /// Finalize this client with the access token and the state from the callback URL. A state that differs from the
    /// client's own is an error.
    pub fn finalize(self, access_token: String, state: &str) -> (r: Result<ImplicitGrantUserClient<C>, Error>)
        ensures
            state@ != self.spec_state() ==> r == Err::<ImplicitGrantUserClient<C>, Error>(
                Error::AuthorizationCodeStateMismatch,
            ),
            state@ == self.spec_state() ==> (r matches Ok(client) && client.spec_access_token() == access_token@
                && client.spec_http_client() == self.spec_http_client()),
    {
        if !str_eq(state, self.state.as_str()) {
            return Err(Error::AuthorizationCodeStateMismatch);
        }
        Ok(ImplicitGrantUserClient {
            inner: Arc::new(ImplicitGrantUserClientRef { access_token }),
            http_client: self.http_client,
        })
    }
}

impl<C> ImplicitGrantUserClientBuilder<C> where C: HttpClient + Clone {
    /// Where Spotify redirects the user after the authorization.
    pub closed spec fn spec_redirect_uri(&self) -> Seq<char> {
        self.redirect_uri@
    }

    /// The application's client ID.
    pub closed spec fn spec_client_id(&self) -> Seq<char> {
        self.spotify_client_ref.spec_client_id()
    }

    /// The scopes the user is asked to grant, as one string.
    pub closed spec fn spec_scopes(&self) -> Option<Seq<char>> {
        opt_text(self.scopes)
    }

    /// Whether the user is asked to approve the application again.
    pub closed spec fn spec_show_dialog(&self) -> bool {
        self.show_dialog
    }

    /// The HTTP client requests are sent with.
    pub closed spec fn spec_http_client(&self) -> C {
        self.http_client
    }

    /// Starts building a client that redirects to `redirect_uri`; no scopes and no dialog.
    pub fn new(redirect_uri: String, spotify_client_ref: Arc<SpotifyClientRef>, http_client: C) -> (r: Self)
        ensures
            r.spec_redirect_uri() == redirect_uri@,
            r.spec_client_id() == spotify_client_ref.spec_client_id(),
            r.spec_scopes() is None,
            !r.spec_show_dialog(),
            r.spec_http_client() == http_client,
    {
        ImplicitGrantUserClientBuilder { redirect_uri, scopes: None, show_dialog: false, spotify_client_ref, http_client }
    }

    /// Specify the [OAuth authorization scopes](crate::scope::Scope) that the user is asked to grant for the
    /// application.
    pub fn scopes<T>(self, scopes: T) -> (r: Self) where T: ToScopesString
        ensures
            r.spec_scopes() == Some(spec_scopes_string(scopes.spec_scopes())),
            r.spec_redirect_uri() == self.spec_redirect_uri(),
            r.spec_client_id() == self.spec_client_id(),
            r.spec_show_dialog() == self.spec_show_dialog(),
            r.spec_http_client() == self.spec_http_client(),
    {
        ImplicitGrantUserClientBuilder { scopes: Some(scopes.to_scopes_string()), ..self }
    }

    /// Set whether or not to force the user to approve the application again, if they've already done so.
    pub fn show_dialog(self, show_dialog: bool) -> (r: Self)
        ensures
            r.spec_show_dialog() == show_dialog,
            r.spec_redirect_uri() == self.spec_redirect_uri(),
            r.spec_client_id() == self.spec_client_id(),
            r.spec_scopes() == self.spec_scopes(),
            r.spec_http_client() == self.spec_http_client(),
    {
        ImplicitGrantUserClientBuilder { show_dialog, ..self }
    }

    /// Finalize the builder and return an [IncompleteImplicitGrantUserClient] with a new random state.
    pub fn build(self) -> (r: IncompleteImplicitGrantUserClient<C>)
        ensures
            r.spec_redirect_uri() == self.spec_redirect_uri(),
            r.spec_client_id() == self.spec_client_id(),
            r.spec_scopes() == self.spec_scopes(),
            r.spec_show_dialog() == self.spec_show_dialog(),
            r.spec_http_client() == self.spec_http_client(),
            r.spec_state().len() == RANDOM_STATE_LENGTH,
            forall|i: int| 0 <= i < r.spec_state().len() ==> is_alphanumeric(#[trigger] r.spec_state()[i]),
    {
        let state = random_alphanumeric(RANDOM_STATE_LENGTH);
        IncompleteImplicitGrantUserClient {
            redirect_uri: self.redirect_uri,
            state,
            scopes: self.scopes,
            show_dialog: self.show_dialog,
            spotify_client_ref: self.spotify_client_ref,
            http_client: self.http_client,
        }
    }
}


/// The authorization URL of the implicit grant flow asks for an access token (`response_type=token`) for the client's
/// ID, with its redirect URI and its state; it asks for the scopes exactly when some were given, and it forces the
/// dialog (`show_dialog=true`) exactly when that was asked for. No parameter occurs twice.
pub proof fn law_implicit_authorize_params<C: HttpClient + Clone>(client: IncompleteImplicitGrantUserClient<C>)
    ensures
        keys_unique(client.spec_authorize_params()),
        spec_param_value(client.spec_authorize_params(), "response_type"@) == Some("token"@),
        spec_param_value(client.spec_authorize_params(), "redirect_uri"@) == Some(client.spec_redirect_uri()),
        spec_param_value(client.spec_authorize_params(), "client_id"@) == Some(client.spec_client_id()),
        spec_param_value(client.spec_authorize_params(), "state"@) == Some(client.spec_state()),
        spec_param_value(client.spec_authorize_params(), "scope"@) == client.spec_scopes(),
        spec_param_value(client.spec_authorize_params(), "show_dialog"@) == if client.spec_show_dialog() {
            Some("true"@)
        } else {
            None
        },
{
    reveal_strlit("response_type");
    reveal_strlit("token");
    reveal_strlit("redirect_uri");
    reveal_strlit("client_id");
    reveal_strlit("state");
    reveal_strlit("scope");
    reveal_strlit("show_dialog");
    reveal_strlit("true");
    let p = client.spec_authorize_params();
    assert("state"@[1] != "scope"@[1]);
    assert(p[0].0 == "response_type"@);
    assert(p[1].0 == "redirect_uri"@);
    assert(p[2].0 == "client_id"@);
    assert(p[3].0 == "state"@);
    assert(keys_unique(p));
    lemma_param_value_at(p, 0);
    lemma_param_value_at(p, 1);
    lemma_param_value_at(p, 2);
    lemma_param_value_at(p, 3);
    if client.spec_scopes() is Some {
        assert(p[4].0 == "scope"@);
        lemma_param_value_at(p, 4);
        if client.spec_show_dialog() {
            lemma_param_value_at(p, 5);
        } else {
            assert(forall|i: int| 0 <= i < p.len() ==> #[trigger] p[i].0 != "show_dialog"@);
        }
    } else {
        assert(forall|i: int| 0 <= i < p.len() ==> #[trigger] p[i].0 != "scope"@);
        if client.spec_show_dialog() {
            lemma_param_value_at(p, 4);
        } else {
            assert(forall|i: int| 0 <= i < p.len() ==> #[trigger] p[i].0 != "show_dialog"@);
        }
    }
}

} // verus!
