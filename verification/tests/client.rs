use std::borrow::Cow;

use ferrispot::client::authorization_code::build_refresh_token_request_form;
use ferrispot::client::authorization_code::map_authentication_error;
use ferrispot::client::authorization_code::map_refresh_token_error;
use ferrispot::client::authorization_code::next_refresh_token;
use ferrispot::client::authorization_code::pkce_challenge;
use ferrispot::client::authorization_code::AuthorizationCodeUserClientBuilder;
use ferrispot::client::build_authorization_header;
use ferrispot::client::client_credentials_request_form;
use ferrispot::client::implicit_grant::ImplicitGrantUserClientBuilder;
use ferrispot::client::is_authentication_error_status;
use ferrispot::client::map_client_credentials_error;
use ferrispot::client::map_client_credentials_refresh_error;
use ferrispot::client::private::AccessTokenExpiryResult;
use ferrispot::client::private::AccessTokenExpirySync;
use ferrispot::client::private::HttpClient;
use ferrispot::client::rate_limit_sleep_sync;
use ferrispot::client::request_builder::decimal_text;
use ferrispot::client::request_builder::default_response_outcome;
use ferrispot::client::request_builder::extract_rate_limit_retry_after;
use ferrispot::client::request_builder::handle_403_forbidden_api_response;
use ferrispot::client::request_builder::is_api_error_expired_access_token;
use ferrispot::client::request_builder::next_send_step;
use ferrispot::client::request_builder::parse_u64;
use ferrispot::client::request_builder::player_control_not_found_error;
use ferrispot::client::request_builder::player_control_not_found_error_sync;
use ferrispot::client::request_builder::reaction_to_status;
use ferrispot::client::request_builder::StatusReaction;
use ferrispot::client::request_builder::player_control_response_outcome;
use ferrispot::client::request_builder::status_needs_reaction;
use ferrispot::client::request_builder::track_response_outcome;
use ferrispot::client::request_builder::BaseRequestBuilder;
use ferrispot::client::request_builder::HttpMethod;
use ferrispot::client::request_builder::PlayerControlOutcome;
use ferrispot::client::request_builder::RequestBuilder;
use ferrispot::client::request_builder::ResponseHandler;
use ferrispot::client::request_builder::SendEvent;
use ferrispot::client::request_builder::SendStep;
use ferrispot::client::request_builder::TryFromEmptyResponse;
use ferrispot::client::scoped::ScopedClient;
use ferrispot::client::unscoped::UnscopedClient;
use ferrispot::client::SpotifyClientBuilder;
use ferrispot::error::Error;
use ferrispot::model::error::ApiError;
use ferrispot::model::error::ApiErrorMessage;
use ferrispot::model::error::ApiErrorResponse;
use ferrispot::model::error::AuthenticationErrorKind;
use ferrispot::model::error::AuthenticationErrorResponse;
use ferrispot::model::id::Id;
use ferrispot::model::id::IdFromBare;
use ferrispot::model::id::IdFromKnownKind;
use ferrispot::model::id::PlayableContext;
use ferrispot::model::id::PlayableItem;
use ferrispot::model::id::TrackId;
use ferrispot::model::playback::RepeatState;
use ferrispot::model::CountryCode;
use ferrispot::model::ItemType;
use ferrispot::scope::Scope;

/// An HTTP client that sends nothing; the library only describes requests.
#[derive(Debug, Clone, PartialEq)]
struct NoHttp;

impl HttpClient for NoHttp {
    fn new() -> Self {
        NoHttp
    }
}

impl ScopedClient for NoHttp {}

impl UnscopedClient for NoHttp {}

fn api_error(status: u16, message: ApiErrorMessage) -> ApiErrorResponse {
    ApiErrorResponse { error: ApiError { status, message } }
}

fn query_of(url: &str) -> &str {
    url.split_once('?').map(|(_, q)| q).unwrap_or("")
}

#[test]
fn parse_u64_reads_decimal_numbers() {
    assert_eq!(parse_u64("120"), Some(120));
    assert_eq!(parse_u64("+5"), Some(5));
    assert_eq!(parse_u64("0"), Some(0));
    assert_eq!(parse_u64("18446744073709551615"), Some(u64::MAX));
    assert_eq!(parse_u64("18446744073709551616"), None);
    assert_eq!(parse_u64(""), None);
    assert_eq!(parse_u64("+"), None);
    assert_eq!(parse_u64("-1"), None);
    assert_eq!(parse_u64("12a"), None);
    assert_eq!(parse_u64(" 1"), None);
}

#[test]
fn decimal_text_round_trips_through_parse() {
    for n in [0u64, 7, 10, 99, 100, 12345, u64::MAX] {
        let text = decimal_text(n);
        assert_eq!(text, n.to_string());
        assert_eq!(parse_u64(&text), Some(n));
    }
}

#[test]
fn retry_after_header_is_parsed() {
    assert!(matches!(extract_rate_limit_retry_after(Some("30")), Ok(30)));
    assert!(matches!(extract_rate_limit_retry_after(Some("soon")), Err(Error::InvalidRateLimitResponse)));
    assert!(matches!(extract_rate_limit_retry_after(None), Err(Error::InvalidRateLimitResponse)));
}

#[test]
fn forbidden_responses_are_errors() {
    let restricted = handle_403_forbidden_api_response(api_error(403, ApiErrorMessage::RestrictionViolated));
    assert!(matches!(restricted, Err(Error::Restricted)));
    let premium = handle_403_forbidden_api_response(api_error(403, ApiErrorMessage::PremiumRequired));
    assert!(matches!(premium, Err(Error::PremiumRequired)));
    let other = handle_403_forbidden_api_response(api_error(403, ApiErrorMessage::Other("no".to_owned())));
    assert!(matches!(other, Err(Error::Forbidden)));
}

#[test]
fn unauthorized_responses_are_classified() {
    assert!(is_api_error_expired_access_token(api_error(401, ApiErrorMessage::TokenExpired)).is_ok());
    assert!(matches!(
        is_api_error_expired_access_token(api_error(401, ApiErrorMessage::PermissionsMissing)),
        Err(Error::MissingScope)
    ));
    assert!(matches!(
        is_api_error_expired_access_token(api_error(401, ApiErrorMessage::NoActiveDevice)),
        Err(Error::UnhandledSpotifyResponseStatusCode(401))
    ));
}

#[test]
fn send_loop_refreshes_expired_token_then_retries() {
    let step = next_send_step(true, true, SendEvent::Unauthorized(api_error(401, ApiErrorMessage::TokenExpired)));
    assert!(matches!(step, SendStep::RefreshAccessToken));
    let step = next_send_step(true, true, SendEvent::RefreshAttempted(AccessTokenExpiryResult::Refreshed));
    assert!(matches!(step, SendStep::Retry));
    let step = next_send_step(true, true, SendEvent::RefreshAttempted(AccessTokenExpiryResult::Inapplicable));
    assert!(matches!(step, SendStep::Fail(Error::AccessTokenExpired)));
}

#[test]
fn send_loop_without_refresh_fails_on_expired_token() {
    let step = next_send_step(true, false, SendEvent::Unauthorized(api_error(401, ApiErrorMessage::TokenExpired)));
    assert!(matches!(step, SendStep::Fail(Error::AccessTokenExpired)));
}

#[test]
fn send_loop_waits_out_rate_limits_when_asked() {
    let step = next_send_step(true, true, SendEvent::TooManyRequests(Some("4".to_owned())));
    assert!(matches!(step, SendStep::SleepThenRetry(4)));
    let step = next_send_step(false, true, SendEvent::TooManyRequests(Some("4".to_owned())));
    assert!(matches!(step, SendStep::Fail(Error::RateLimit(4))));
    let step = next_send_step(true, true, SendEvent::TooManyRequests(None));
    assert!(matches!(step, SendStep::Fail(Error::InvalidRateLimitResponse)));
}

#[test]
fn send_loop_other_events() {
    assert!(matches!(
        next_send_step(true, true, SendEvent::BadRequest),
        SendStep::Fail(Error::UnhandledSpotifyResponseStatusCode(400))
    ));
    assert!(matches!(
        next_send_step(true, true, SendEvent::Forbidden(api_error(403, ApiErrorMessage::PremiumRequired))),
        SendStep::Fail(Error::PremiumRequired)
    ));
    assert!(matches!(next_send_step(true, true, SendEvent::Other), SendStep::Deliver));
    assert!(status_needs_reaction(429));
    assert!(status_needs_reaction(400));
    assert!(!status_needs_reaction(200));
}

#[test]
fn response_handlers() {
    assert!(default_response_outcome(200).is_ok());
    assert!(default_response_outcome(204).is_ok());
    assert!(matches!(default_response_outcome(404), Err(Error::UnhandledSpotifyResponseStatusCode(404))));
    assert!(matches!(default_response_outcome(503), Err(Error::UnhandledSpotifyResponseStatusCode(503))));
    assert!(matches!(player_control_response_outcome(204), PlayerControlOutcome::Done));
    assert!(matches!(player_control_response_outcome(404), PlayerControlOutcome::ReadNotFoundError));
    assert!(matches!(
        player_control_response_outcome(200),
        PlayerControlOutcome::Fail(Error::UnhandledSpotifyResponseStatusCode(200))
    ));
    assert!(matches!(player_control_not_found_error(ApiErrorMessage::NoActiveDevice), Error::NoActiveDevice));
    assert!(matches!(player_control_not_found_error(ApiErrorMessage::NotFound), Error::NoActiveDevice));
    assert!(matches!(player_control_not_found_error_sync(ApiErrorMessage::NoActiveDevice), Error::NoActiveDevice));
    assert!(matches!(
        player_control_not_found_error_sync(ApiErrorMessage::NotFound),
        Error::UnhandledSpotifyResponseStatusCode(404)
    ));
    assert!(matches!(
        player_control_not_found_error(ApiErrorMessage::TokenExpired),
        Error::UnhandledSpotifyResponseStatusCode(404)
    ));
    let id = Id::<TrackId>::from_bare(Cow::Borrowed("2pDPOMX0kWA7kcPBcDCQBu")).unwrap();
    assert!(track_response_outcome(200, id.clone()).is_ok());
    assert!(matches!(track_response_outcome(404, id.clone()), Err(Error::NonexistentTrack(_))));
    assert!(matches!(track_response_outcome(500, id), Err(Error::UnhandledSpotifyResponseStatusCode(500))));
}

#[test]
fn empty_responses() {
    assert!(matches!(<() as TryFromEmptyResponse>::try_from_empty_response(), Ok(())));
    assert!(matches!(<Option<u8> as TryFromEmptyResponse>::try_from_empty_response(), Ok(None)));
    assert!(matches!(<Vec<u8> as TryFromEmptyResponse>::try_from_empty_response(), Ok(v) if v.is_empty()));
}

#[test]
fn api_error_messages_are_classified() {
    assert!(matches!(
        ApiErrorMessage::from_message("Permissions missing".to_owned()),
        ApiErrorMessage::PermissionsMissing
    ));
    assert!(matches!(
        ApiErrorMessage::from_message("The access token expired".to_owned()),
        ApiErrorMessage::TokenExpired
    ));
    assert!(matches!(
        ApiErrorMessage::from_message("Player command failed: No active device found".to_owned()),
        ApiErrorMessage::NoActiveDevice
    ));
    assert!(matches!(
        ApiErrorMessage::from_message("Player command failed: Restriction violated".to_owned()),
        ApiErrorMessage::RestrictionViolated
    ));
    assert!(matches!(
        ApiErrorMessage::from_message("Player command failed: Premium required".to_owned()),
        ApiErrorMessage::PremiumRequired
    ));
    assert!(matches!(ApiErrorMessage::from_message("Not found.".to_owned()), ApiErrorMessage::NotFound));
    assert!(matches!(
        ApiErrorMessage::from_message("Something else".to_owned()),
        ApiErrorMessage::Other(m) if m == "Something else"
    ));
}

#[test]
fn statuses_the_send_loop_reacts_to() {
    assert_eq!(reaction_to_status(400), StatusReaction::BadRequest);
    assert_eq!(reaction_to_status(401), StatusReaction::Unauthorized);
    assert_eq!(reaction_to_status(403), StatusReaction::Forbidden);
    assert_eq!(reaction_to_status(429), StatusReaction::TooManyRequests);
    assert_eq!(reaction_to_status(404), StatusReaction::PassOn);
    assert_eq!(reaction_to_status(200), StatusReaction::PassOn);
}

#[test]
fn restricted_player_command_is_a_restricted_error() {
    let message = ApiErrorMessage::from_message("Player command failed: Restriction violated".to_owned());
    let step = next_send_step(true, true, SendEvent::Forbidden(api_error(403, message)));
    assert!(matches!(step, SendStep::Fail(Error::Restricted)));
}

#[test]
fn authentication_errors_are_mapped() {
    let unhandled = AuthenticationErrorResponse {
        error: AuthenticationErrorKind::InvalidGrant,
        error_description: "bad".to_owned(),
    }
    .into_unhandled_error();
    assert!(matches!(
        &unhandled,
        Error::UnhandledAuthenticationError(AuthenticationErrorKind::InvalidGrant, d) if d == "bad"
    ));
    assert!(matches!(map_authentication_error(unhandled), Error::InvalidAuthorizationCode));

    let grant = Error::UnhandledAuthenticationError(AuthenticationErrorKind::InvalidGrant, "revoked".to_owned());
    assert!(matches!(map_refresh_token_error(grant), Error::InvalidRefreshToken(d) if d == "revoked"));

    let client = Error::UnhandledAuthenticationError(AuthenticationErrorKind::InvalidClient, "who".to_owned());
    assert!(matches!(map_client_credentials_error(client), Error::InvalidClient(d) if d == "who"));

    let grant = Error::UnhandledAuthenticationError(AuthenticationErrorKind::InvalidGrant, "again".to_owned());
    assert!(matches!(map_client_credentials_refresh_error(grant), Error::InvalidClient(d) if d == "again"));

    assert!(matches!(map_refresh_token_error(Error::Forbidden), Error::Forbidden));
    assert!(is_authentication_error_status(400));
    assert!(!is_authentication_error_status(200));
    assert!(matches!(rate_limit_sleep_sync(3), Ok(())));
}

#[test]
fn client_credentials_authorization_header() {
    assert_eq!(build_authorization_header("id", "secret"), "Basic aWQ6c2VjcmV0");
    let builder = SpotifyClientBuilder::new("id".to_owned()).client_secret("secret".to_owned());
    assert_eq!(builder.authorization_header(), "Basic aWQ6c2VjcmV0");
    assert_eq!(builder.client_id(), "id");
    let form = client_credentials_request_form();
    assert_eq!(form, vec![("grant_type", "client_credentials")]);
}

#[test]
fn pkce_challenge_matches_rfc_7636_example() {
    assert_eq!(
        pkce_challenge("dBjftJeZ4CVP-mB92K27uhbUJU1p1r_wW1gFWFOEjXk"),
        "E9Melhoa2OwvFrEMTJguCHaoeK1t8URWbuGJSstw-cM"
    );
}

#[test]
fn authorization_code_flow_urls_and_forms() {
    let builder = AuthorizationCodeUserClientBuilder::new(
        "http://localhost/callback".to_owned(),
        "client".to_owned(),
        NoHttp,
    )
    .scopes(vec![Scope::UserReadPlaybackState, Scope::UserModifyPlaybackState])
    .show_dialog(true);
    let incomplete = builder.build();

    let params = incomplete.authorize_params();
    let state = params[3].1.clone();
    assert_eq!(state.len(), 16);
    assert!(state.chars().all(|c| c.is_ascii_alphanumeric()));
    assert_eq!(params[0], ("response_type".to_owned(), "code".to_owned()));
    assert_eq!(params[4], ("show_dialog".to_owned(), "true".to_owned()));
    assert_eq!(
        params[5],
        ("scope".to_owned(), "user-read-playback-state user-modify-playback-state".to_owned())
    );
    assert_eq!(params.len(), 6);

    let url = incomplete.get_authorize_url().unwrap();
    assert!(url.starts_with("https://accounts.spotify.com/authorize?"));
    assert_eq!(
        query_of(&url),
        format!(
            "response_type=code&redirect_uri=http%3A%2F%2Flocalhost%2Fcallback&client_id=client&state={state}&\
             show_dialog=true&scope=user-read-playback-state+user-modify-playback-state"
        )
    );

    assert!(matches!(
        incomplete.build_authorization_code_token_request_form("code", "wrong"),
        Err(Error::AuthorizationCodeStateMismatch)
    ));
    let form = incomplete.build_authorization_code_token_request_form("code", &state).unwrap();
    assert_eq!(
        form,
        vec![
            ("grant_type", "authorization_code"),
            ("code", "code"),
            ("redirect_uri", "http://localhost/callback")
        ]
    );
    assert_eq!(incomplete.refresh_client_id(), None);
}

#[test]
fn authorization_code_flow_with_pkce() {
    let spotify = SpotifyClientBuilder::new("client".to_owned()).build::<NoHttp>();
    let incomplete = spotify.authorization_code_client_with_pkce("http://localhost/cb".to_owned()).build();
    let params = incomplete.authorize_params();
    let state = params[3].1.clone();
    assert_eq!(params[4], ("show_dialog".to_owned(), "false".to_owned()));
    assert_eq!(params[5], ("code_challenge_method".to_owned(), "S256".to_owned()));
    let challenge = params[6].1.clone();
    let form = incomplete.build_authorization_code_token_request_form("c", &state).unwrap();
    assert_eq!(form.len(), 5);
    assert_eq!(form[3], ("client_id", "client"));
    let verifier = form[4].1;
    assert_eq!(verifier.len(), 128);
    assert!(verifier.chars().all(|c| c.is_ascii_alphanumeric()));
    assert_eq!(pkce_challenge(verifier), challenge);
    assert_eq!(incomplete.refresh_client_id(), Some("client".to_owned()));
}

#[test]
fn refresh_token_forms_and_tokens() {
    assert_eq!(
        build_refresh_token_request_form("token", None),
        vec![("grant_type", "refresh_token"), ("refresh_token", "token")]
    );
    assert_eq!(
        build_refresh_token_request_form("token", Some("client")),
        vec![("grant_type", "refresh_token"), ("refresh_token", "token"), ("client_id", "client")]
    );
    assert_eq!(next_refresh_token(Some("new".to_owned()), "old".to_owned()), "new");
    assert_eq!(next_refresh_token(None, "old".to_owned()), "old");
}

#[test]
fn implicit_grant_flow() {
    let spotify = SpotifyClientBuilder::new("client".to_owned()).build::<NoHttp>();
    let builder: ImplicitGrantUserClientBuilder<NoHttp> = spotify.implicit_grant_client("http://localhost/cb".to_owned());
    let incomplete = builder.scopes([Scope::Streaming]).build();
    let params = incomplete.authorize_params();
    assert_eq!(params.len(), 5);
    assert_eq!(params[0], ("response_type".to_owned(), "token".to_owned()));
    assert_eq!(params[2], ("client_id".to_owned(), "client".to_owned()));
    assert_eq!(params[4], ("scope".to_owned(), "streaming".to_owned()));
    let state = params[3].1.clone();
    let url = incomplete.get_authorize_url().unwrap();
    assert_eq!(
        query_of(&url),
        format!("response_type=token&redirect_uri=http%3A%2F%2Flocalhost%2Fcb&client_id=client&state={state}&scope=streaming")
    );
    assert!(matches!(incomplete.clone().finalize("token".to_owned(), "nope"), Err(Error::AuthorizationCodeStateMismatch)));
    let client = incomplete.finalize("token".to_owned(), &state).unwrap();
    assert_eq!(client.access_token(), "token");
    assert!(matches!(client.handle_access_token_expired(), Ok(AccessTokenExpiryResult::Inapplicable)));
}

#[test]
fn request_builder_sets_query_parameters_once() {
    let request: RequestBuilder<NoHttp, ()> =
        RequestBuilder::new(HttpMethod::Get, "https://api.spotify.com/v1/search".to_owned(), NoHttp)
            .append_query("q", "first".to_owned())
            .append_query("limit", "5".to_owned())
            .append_query("q", "second".to_owned());
    assert_eq!(request.build_url().unwrap(), "https://api.spotify.com/v1/search?q=second&limit=5");
    assert!(request.reacts_to_rate_limit());
    assert!(request.refreshes_access_token());
    let request = request.react_to_rate_limit(false).auto_refresh_access_token(false);
    assert!(!request.reacts_to_rate_limit());
    assert!(!request.refreshes_access_token());
    assert!(!request.needs_empty_content_length());
    let post: RequestBuilder<NoHttp, ()> = RequestBuilder::new(HttpMethod::Post, "https://a/".to_owned(), NoHttp);
    assert!(post.needs_empty_content_length());
    assert!(RequestBuilder::<NoHttp, (), (), ()>::new(HttpMethod::Get, "not a url".to_owned(), NoHttp)
        .build_url()
        .is_none());
}

#[test]
fn scoped_requests() {
    let client = NoHttp;
    let state = client.playback_state();
    assert_eq!(state.method(), HttpMethod::Get);
    assert_eq!(state.build_url().unwrap(), "https://api.spotify.com/v1/me/player?");

    let volume = client.volume(42).device_id("device".to_owned()).take_base_builder();
    assert_eq!(volume.method(), HttpMethod::Put);
    assert!(volume.needs_empty_content_length());
    assert!(matches!(volume.response_handler(), ResponseHandler::PlayerControl));
    assert_eq!(
        volume.build_url().unwrap(),
        "https://api.spotify.com/v1/me/player/volume?volume_percent=42&device_id=device"
    );

    let repeat = client.repeat_state(RepeatState::Context).take_base_builder();
    assert_eq!(repeat.build_url().unwrap(), "https://api.spotify.com/v1/me/player/repeat?repeat_state=context");

    let seek = client.seek(25000).take_base_builder();
    assert_eq!(seek.build_url().unwrap(), "https://api.spotify.com/v1/me/player/seek?position_ms=25000");

    let shuffle = client.shuffle(true).take_base_builder();
    assert_eq!(shuffle.build_url().unwrap(), "https://api.spotify.com/v1/me/player/shuffle?shuffle=true");

    let track = PlayableItem::from_url_or_uri(Cow::Borrowed("https://open.spotify.com/track/2pDPOMX0kWA7kcPBcDCQBu"))
        .unwrap();
    let queue = client.add_to_queue(track.clone()).take_base_builder();
    assert_eq!(
        queue.build_url().unwrap(),
        "https://api.spotify.com/v1/me/player/queue?uri=spotify%3Atrack%3A2pDPOMX0kWA7kcPBcDCQBu"
    );

    let play = client.play_items(vec![track]).take_base_builder();
    assert_eq!(play.body().unwrap().uris, vec!["spotify:track:2pDPOMX0kWA7kcPBcDCQBu".to_owned()]);
    assert!(!play.needs_empty_content_length());

    let album = PlayableContext::from_uri(Cow::Borrowed("spotify:album:0tDsHtvN9YNuZjlqHvDY2P")).unwrap();
    let context = client.play_context(album).offset(3).take_base_builder();
    let body = context.body().unwrap();
    assert_eq!(body.context_uri, "spotify:album:0tDsHtvN9YNuZjlqHvDY2P");
    assert_eq!(body.offset.position, Some(3));
    assert_eq!(client.next().take_base_builder().method(), HttpMethod::Post);
}

#[test]
fn unscoped_requests() {
    let client = NoHttp;
    let id = Id::<TrackId>::from_bare(Cow::Borrowed("2pDPOMX0kWA7kcPBcDCQBu")).unwrap();
    let track = client.track(id.clone()).market(CountryCode::from_code("FI").unwrap()).take_base_builder();
    assert_eq!(
        track.build_url().unwrap(),
        "https://api.spotify.com/v1/tracks/2pDPOMX0kWA7kcPBcDCQBu?market=FI"
    );
    assert!(matches!(track.response_handler(), ResponseHandler::Track(_)));

    let other = Id::<TrackId>::from_bare(Cow::Borrowed("0tDsHtvN9YNuZjlqHvDY2P")).unwrap();
    let tracks = client.tracks(vec![id, other]).take_base_builder();
    assert_eq!(
        tracks.build_url().unwrap(),
        "https://api.spotify.com/v1/tracks?ids=2pDPOMX0kWA7kcPBcDCQBu%2C0tDsHtvN9YNuZjlqHvDY2P"
    );

    let search = client
        .search("hello".to_owned())
        .types(vec![ItemType::Track, ItemType::Album])
        .limit(5)
        .offset(10)
        .market(CountryCode::from_code("SE").unwrap())
        .build_search_builder();
    assert_eq!(
        search.build_url().unwrap(),
        "https://api.spotify.com/v1/search?q=hello&type=track%2Calbum&limit=5&offset=10&market=SE"
    );
    let default_search = client.search("x".to_owned()).build_search_builder();
    assert_eq!(
        default_search.build_url().unwrap(),
        "https://api.spotify.com/v1/search?q=x&type=album%2Cartist%2Cplaylist%2Ctrack%2Cshow%2Cepisode&limit=20&offset=0"
    );
}
