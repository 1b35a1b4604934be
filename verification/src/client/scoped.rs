//! The endpoints that need a user's authorization: playback state and player commands.

use vstd::prelude::*;

use super::object::PlayContextBody;
use super::object::PlayContextOffset;
use super::object::PlayItemsBody;
use super::object::DEVICE_ID_QUERY;
use super::object::QUEUE_URI_QUERY;
use super::object::REPEAT_STATE_QUERY;
use super::object::SEEK_POSITION_QUERY;
use super::object::SHUFFLE_QUERY;
use super::object::VOLUME_PERCENT_QUERY;
use super::owned;
use super::request_builder::decimal_text;
use super::request_builder::is_new_request;
use super::request_builder::spec_decimal_text;
use super::request_builder::spec_set_param;
use super::request_builder::BaseRequestBuilder;
use super::request_builder::HttpMethod;
use super::request_builder::RequestBuilder;
use super::request_builder::ResponseHandler;
use super::API_CURRENTLY_PLAYING_ITEM_ENDPOINT;
use super::API_PLAYBACK_STATE_ENDPOINT;
use super::API_PLAYER_DEVICES_ENDPOINT;
use super::API_PLAYER_NEXT_ENDPOINT;
use super::API_PLAYER_PAUSE_ENDPOINT;
use super::API_PLAYER_PLAY_ENDPOINT;
use super::API_PLAYER_PREVIOUS_ENDPOINT;
use super::API_PLAYER_QUEUE_ENDPOINT;
use super::API_PLAYER_REPEAT_ENDPOINT;
use super::API_PLAYER_SEEK_ENDPOINT;
use super::API_PLAYER_SHUFFLE_ENDPOINT;
use super::API_PLAYER_VOLUME_ENDPOINT;
use crate::model::id::cow_to_string;
use crate::model::id::spec_uri_of;
use crate::model::id::IdTrait;
use crate::model::id::PlayableContext;
use crate::model::id::PlayableItem;
use crate::model::playback::CurrentlyPlayingItem;
use crate::model::playback::Device;
use crate::model::playback::PlaybackState;
use crate::model::playback::RepeatState;
use crate::client::object::DevicesResponse;

verus! {

/// A request builder for player commands.
pub struct BasePlayerControlRequestBuilder<TClient, TBody>(RequestBuilder<TClient, (), TBody>);

/// A request builder for playing a context, which may start at an offset.
pub struct PlayContextRequestBuilder<TClient>(RequestBuilder<TClient, (), PlayContextBody>);

/// A request builder for playing items.
pub type PlayItemsRequestBuilder<TClient> = BasePlayerControlRequestBuilder<TClient, PlayItemsBody>;

/// A request builder for player commands without a body.
pub type PlayerControlRequestBuilder<TClient> = BasePlayerControlRequestBuilder<TClient, ()>;

impl<TClient, TBody> BasePlayerControlRequestBuilder<TClient, TBody> {
    /// The request this builder describes.
    pub closed spec fn spec_request(&self) -> RequestBuilder<TClient, (), TBody> {
        self.0
    }

    /// A player command: `method` to `url`, with its response read as a player command's.
    pub fn new(method: HttpMethod, url: &str, body: Option<TBody>, client: TClient) -> (r: Self)
        ensures
            is_new_request(r.spec_request(), method, url@, body, ResponseHandler::PlayerControl),
            r.spec_request().spec_client() == client,
    {
        let request = RequestBuilder::new(method, owned(url), client).with_body(body).with_response_handler(
            ResponseHandler::PlayerControl,
        );
        BasePlayerControlRequestBuilder(request)
    }

    /// The device the command is for; without it the command is for the active device.
    pub fn device_id(self, device_id: String) -> (r: Self)
        ensures
            r.spec_request().spec_query() == spec_set_param(
                self.spec_request().spec_query(),
                DEVICE_ID_QUERY@,
                device_id@,
            ),
            r.spec_request().spec_body() == self.spec_request().spec_body(),
            r.spec_request().spec_method() == self.spec_request().spec_method(),
            r.spec_request().spec_base_url() == self.spec_request().spec_base_url(),
            r.spec_request().spec_response_handler() == self.spec_request().spec_response_handler(),
            r.spec_request().spec_react_to_rate_limit() == self.spec_request().spec_react_to_rate_limit(),
            r.spec_request().spec_auto_refresh_access_token() == self.spec_request().spec_auto_refresh_access_token(),
    {
        BasePlayerControlRequestBuilder(self.0.append_query(DEVICE_ID_QUERY, device_id))
    }

    /// The request, to be sent.
    pub fn take_base_builder(self) -> (r: RequestBuilder<TClient, (), TBody>)
        ensures
            r == self.spec_request(),
    {
        self.0
    }
}

impl<TClient, TBody> BaseRequestBuilder for BasePlayerControlRequestBuilder<TClient, TBody> {
    open spec fn spec_reacts_to_rate_limit(&self) -> bool {
        self.spec_request().spec_react_to_rate_limit()
    }

    open spec fn spec_refreshes_access_token(&self) -> bool {
        self.spec_request().spec_auto_refresh_access_token()
    }

    fn react_to_rate_limit(self, react_to_rate_limit: bool) -> (r: Self) {
        BasePlayerControlRequestBuilder(self.0.react_to_rate_limit(react_to_rate_limit))
    }

    fn auto_refresh_access_token(self, auto_refresh_access_token: bool) -> (r: Self) {
        BasePlayerControlRequestBuilder(self.0.auto_refresh_access_token(auto_refresh_access_token))
    }
}

impl<TClient> PlayContextRequestBuilder<TClient> {
    /// The request this builder describes.
    pub closed spec fn spec_request(&self) -> RequestBuilder<TClient, (), PlayContextBody> {
        self.0
    }

    /// Start playing the context at this position.
    pub fn offset(self, offset: u32) -> (r: Self)
        ensures
            match (r.spec_request().spec_body(), self.spec_request().spec_body()) {
                (Some(new), Some(old)) => new.context_uri == old.context_uri && new.offset.position == Some(offset)
                    && new.offset.uri == old.offset.uri,
                (None, None) => true,
                _ => false,
            },
            r.spec_request().spec_query() == self.spec_request().spec_query(),
            r.spec_request().spec_method() == self.spec_request().spec_method(),
            r.spec_request().spec_base_url() == self.spec_request().spec_base_url(),
            r.spec_request().spec_response_handler() == self.spec_request().spec_response_handler(),
    {
        let (request, body) = self.0.take_body();
        let body = match body {
            Some(body) => Some(PlayContextBody {
                context_uri: body.context_uri,
                offset: PlayContextOffset { position: Some(offset), uri: body.offset.uri },
            }),
            None => None,
        };
        PlayContextRequestBuilder(request.with_body(body))
    }

    /// The device the command is for; without it the command is for the active device.
    pub fn device_id(self, device_id: String) -> (r: Self)
        ensures
            r.spec_request().spec_query() == spec_set_param(
                self.spec_request().spec_query(),
                DEVICE_ID_QUERY@,
                device_id@,
            ),
            r.spec_request().spec_body() == self.spec_request().spec_body(),
    {
        PlayContextRequestBuilder(self.0.append_query(DEVICE_ID_QUERY, device_id))
    }

    /// The request, to be sent.
    pub fn take_base_builder(self) -> (r: RequestBuilder<TClient, (), PlayContextBody>)
        ensures
            r == self.spec_request(),
    {
        self.0
    }
}

impl<TClient> BaseRequestBuilder for PlayContextRequestBuilder<TClient> {
    open spec fn spec_reacts_to_rate_limit(&self) -> bool {
        self.spec_request().spec_react_to_rate_limit()
    }

    open spec fn spec_refreshes_access_token(&self) -> bool {
        self.spec_request().spec_auto_refresh_access_token()
    }

    fn react_to_rate_limit(self, react_to_rate_limit: bool) -> (r: Self) {
        PlayContextRequestBuilder(self.0.react_to_rate_limit(react_to_rate_limit))
    }

    fn auto_refresh_access_token(self, auto_refresh_access_token: bool) -> (r: Self) {
        PlayContextRequestBuilder(self.0.auto_refresh_access_token(auto_refresh_access_token))
    }
}

/// The texts of the strings, in order.
pub open spec fn string_views(strings: Seq<String>) -> Seq<Seq<char>> {
    strings.map_values(|u: String| u@)
}

/// The Spotify URIs of the items, in order.
pub open spec fn spec_item_uris(items: Seq<PlayableItem>) -> Seq<Seq<char>> {
    items.map_values(|item: PlayableItem| spec_uri_of(item.item_type(), item.bare_id()))
}

/// The Spotify URIs of the items, in order.
fn item_uris(items: &Vec<PlayableItem<'_>>) -> (r: Vec<String>)
    ensures
        string_views(r@) == spec_item_uris(items@),
{
    let mut uris: Vec<String> = Vec::new();
    let mut i: usize = 0;
    while i < items.len()
        invariant
            i <= items@.len(),
            uris@.len() == i,
            string_views(uris@) == spec_item_uris(items@).take(i as int),
        decreases items@.len() - i,
    {
        let uri = cow_to_string(&items[i].as_uri());
        let ghost before = uris@;
        uris.push(uri);
        assert(string_views(uris@) =~= spec_item_uris(items@).take(i + 1)) by {
            assert forall|j: int| 0 <= j < i + 1 implies #[trigger] string_views(uris@)[j]
                == spec_item_uris(items@)[j] by {
                if j < i {
                    assert(uris@[j] == before[j]);
                    assert(string_views(before)[j] == spec_item_uris(items@).take(i as int)[j]);
                }
            }
        }
        i = i + 1;
    }
    assert(spec_item_uris(items@).take(i as int) =~= spec_item_uris(items@));
    uris
}

/// The endpoints that need a user's authorization. Each function describes the request; sending it is left to the
/// client.
pub trait ScopedClient: Clone + Sized {
    /// Get information about the user's current playback state, including track or episode, progress, and active
    /// device.
    fn playback_state(&self) -> (r: RequestBuilder<Self, Option<PlaybackState>>)
        ensures
            is_new_request(r, HttpMethod::Get, API_PLAYBACK_STATE_ENDPOINT@, None, ResponseHandler::Default),
    {
        RequestBuilder::new(HttpMethod::Get, owned(API_PLAYBACK_STATE_ENDPOINT), self.clone())
    }

    /// Get the object currently being played on the user's Spotify account.
    fn currently_playing_item(&self) -> (r: RequestBuilder<Self, Option<CurrentlyPlayingItem>>)
        ensures
            is_new_request(r, HttpMethod::Get, API_CURRENTLY_PLAYING_ITEM_ENDPOINT@, None, ResponseHandler::Default),
    {
        RequestBuilder::new(HttpMethod::Get, owned(API_CURRENTLY_PLAYING_ITEM_ENDPOINT), self.clone())
    }

    /// Get information about a user’s available devices.
    fn devices(&self) -> (r: RequestBuilder<Self, DevicesResponse, (), Vec<Device>>)
        ensures
            is_new_request(r, HttpMethod::Get, API_PLAYER_DEVICES_ENDPOINT@, None, ResponseHandler::Default),
    {
        RequestBuilder::new(HttpMethod::Get, owned(API_PLAYER_DEVICES_ENDPOINT), self.clone())
    }

    /// Start playing one or more items, replacing the current playback.
    fn play_items<'a>(&'a self, items: Vec<PlayableItem<'a>>) -> (r: PlayItemsRequestBuilder<Self>)
        ensures
            r.spec_request().spec_method() == HttpMethod::Post,
            r.spec_request().spec_base_url() == API_PLAYER_PLAY_ENDPOINT@,
            r.spec_request().spec_query().len() == 0,
            r.spec_request().spec_response_handler() == ResponseHandler::PlayerControl,
            r.spec_request().spec_body() matches Some(body) && string_views(body.uris@)
                == spec_item_uris(items@),
    {
        let body = PlayItemsBody { uris: item_uris(&items) };
        BasePlayerControlRequestBuilder::new(HttpMethod::Post, API_PLAYER_PLAY_ENDPOINT, Some(body), self.clone())
    }

    /// Start playing a context; an album, an artist, a playlist or a show.
    fn play_context<'a>(&'a self, context: PlayableContext<'a>) -> (r: PlayContextRequestBuilder<Self>)
        ensures
            is_new_request(
                r.spec_request(),
                HttpMethod::Post,
                API_PLAYER_PLAY_ENDPOINT@,
                r.spec_request().spec_body(),
                ResponseHandler::PlayerControl,
            ),
            r.spec_request().spec_body() matches Some(body) && body.context_uri@ == spec_uri_of(
                context.item_type(),
                context.bare_id(),
            ) && body.offset.position is None && body.offset.uri is None,
    {
        let body = PlayContextBody {
            context_uri: cow_to_string(&context.as_uri()),
            offset: PlayContextOffset { position: None, uri: None },
        };
        let request = RequestBuilder::new(HttpMethod::Post, owned(API_PLAYER_PLAY_ENDPOINT), self.clone()).with_body(
            Some(body),
        ).with_response_handler(ResponseHandler::PlayerControl);
        PlayContextRequestBuilder(request)
    }

    /// Resume the current playback.
    fn resume(&self) -> (r: PlayerControlRequestBuilder<Self>)
        ensures
            is_new_request(r.spec_request(), HttpMethod::Put, API_PLAYER_PLAY_ENDPOINT@, None, ResponseHandler::PlayerControl),
    {
        BasePlayerControlRequestBuilder::new(HttpMethod::Put, API_PLAYER_PLAY_ENDPOINT, None, self.clone())
    }

    /// Pause the current playback.
    fn pause(&self) -> (r: PlayerControlRequestBuilder<Self>)
        ensures
            is_new_request(r.spec_request(), HttpMethod::Put, API_PLAYER_PAUSE_ENDPOINT@, None, ResponseHandler::PlayerControl),
    {
        BasePlayerControlRequestBuilder::new(HttpMethod::Put, API_PLAYER_PAUSE_ENDPOINT, None, self.clone())
    }

    /// Set the repeat mode of the playback.
    fn repeat_state(&self, repeat_state: RepeatState) -> (r: PlayerControlRequestBuilder<Self>)
        ensures
            r.spec_request().spec_method() == HttpMethod::Put,
            r.spec_request().spec_base_url() == API_PLAYER_REPEAT_ENDPOINT@,
            r.spec_request().spec_query() == seq![(REPEAT_STATE_QUERY@, repeat_state.spec_name())],
            r.spec_request().spec_body() is None,
            r.spec_request().spec_response_handler() == ResponseHandler::PlayerControl,
    {
        let builder = BasePlayerControlRequestBuilder::new(HttpMethod::Put, API_PLAYER_REPEAT_ENDPOINT, None, self.clone());
        let r = builder.device_query(REPEAT_STATE_QUERY, owned(repeat_state.as_str()));
        r
    }

    /// Set the shuffle state of the playback.
    fn shuffle(&self, shuffle: bool) -> (r: PlayerControlRequestBuilder<Self>)
        ensures
            r.spec_request().spec_method() == HttpMethod::Put,
            r.spec_request().spec_base_url() == API_PLAYER_SHUFFLE_ENDPOINT@,
            r.spec_request().spec_query() == seq![(SHUFFLE_QUERY@, if shuffle { "true"@ } else { "false"@ })],
            r.spec_request().spec_body() is None,
            r.spec_request().spec_response_handler() == ResponseHandler::PlayerControl,
    {
        proof {
            reveal_strlit("true");
            reveal_strlit("false");
        }
        let builder = BasePlayerControlRequestBuilder::new(HttpMethod::Put, API_PLAYER_SHUFFLE_ENDPOINT, None, self.clone());
        builder.device_query(SHUFFLE_QUERY, owned(if shuffle { "true" } else { "false" }))
    }

    /// Set the volume of the playback, as a percentage.
    fn volume(&self, volume_percent: u8) -> (r: PlayerControlRequestBuilder<Self>)
        ensures
            r.spec_request().spec_method() == HttpMethod::Put,
            r.spec_request().spec_base_url() == API_PLAYER_VOLUME_ENDPOINT@,
            r.spec_request().spec_query() == seq![(VOLUME_PERCENT_QUERY@, spec_decimal_text(volume_percent as nat))],
            r.spec_request().spec_body() is None,
            r.spec_request().spec_response_handler() == ResponseHandler::PlayerControl,
    {
        let builder = BasePlayerControlRequestBuilder::new(HttpMethod::Put, API_PLAYER_VOLUME_ENDPOINT, None, self.clone());
        builder.device_query(VOLUME_PERCENT_QUERY, decimal_text(volume_percent as u64))
    }

    /// Skip to the next item in the user's queue.
    fn next(&self) -> (r: PlayerControlRequestBuilder<Self>)
        ensures
            is_new_request(r.spec_request(), HttpMethod::Post, API_PLAYER_NEXT_ENDPOINT@, None, ResponseHandler::PlayerControl),
    {
        BasePlayerControlRequestBuilder::new(HttpMethod::Post, API_PLAYER_NEXT_ENDPOINT, None, self.clone())
    }

    /// Skip to the previous item in the user's queue.
    fn previous(&self) -> (r: PlayerControlRequestBuilder<Self>)
        ensures
            is_new_request(
                r.spec_request(),
                HttpMethod::Post,
                API_PLAYER_PREVIOUS_ENDPOINT@,
                None,
                ResponseHandler::PlayerControl,
            ),
    {
        BasePlayerControlRequestBuilder::new(HttpMethod::Post, API_PLAYER_PREVIOUS_ENDPOINT, None, self.clone())
    }

    /// Seek to the given position, in milliseconds, in the current playing item.
    fn seek(&self, position: u64) -> (r: PlayerControlRequestBuilder<Self>)
        ensures
            r.spec_request().spec_method() == HttpMethod::Put,
            r.spec_request().spec_base_url() == API_PLAYER_SEEK_ENDPOINT@,
            r.spec_request().spec_query() == seq![(SEEK_POSITION_QUERY@, spec_decimal_text(position as nat))],
            r.spec_request().spec_body() is None,
            r.spec_request().spec_response_handler() == ResponseHandler::PlayerControl,
    {
        let builder = BasePlayerControlRequestBuilder::new(HttpMethod::Put, API_PLAYER_SEEK_ENDPOINT, None, self.clone());
        builder.device_query(SEEK_POSITION_QUERY, decimal_text(position))
    }

    /// Add an item to the end of the user's queue.
    fn add_to_queue<'a>(&'a self, item: PlayableItem<'a>) -> (r: PlayerControlRequestBuilder<Self>)
        ensures
            r.spec_request().spec_method() == HttpMethod::Post,
            r.spec_request().spec_base_url() == API_PLAYER_QUEUE_ENDPOINT@,
            r.spec_request().spec_query() == seq![(QUEUE_URI_QUERY@, spec_uri_of(item.item_type(), item.bare_id()))],
            r.spec_request().spec_body() is None,
            r.spec_request().spec_response_handler() == ResponseHandler::PlayerControl,
    {
        let builder = BasePlayerControlRequestBuilder::new(HttpMethod::Post, API_PLAYER_QUEUE_ENDPOINT, None, self.clone());
        builder.device_query(QUEUE_URI_QUERY, cow_to_string(&item.as_uri()))
    }
}

impl<TClient, TBody> BasePlayerControlRequestBuilder<TClient, TBody> {
    /// Sets a query parameter of a new command.
    fn device_query(self, key: &'static str, value: String) -> (r: Self)
        requires
            self.spec_request().spec_query().len() == 0,
        ensures
            r.spec_request().spec_query() == seq![(key@, value@)],
            r.spec_request().spec_body() == self.spec_request().spec_body(),
            r.spec_request().spec_method() == self.spec_request().spec_method(),
            r.spec_request().spec_base_url() == self.spec_request().spec_base_url(),
            r.spec_request().spec_response_handler() == self.spec_request().spec_response_handler(),
            r.spec_request().spec_react_to_rate_limit() == self.spec_request().spec_react_to_rate_limit(),
            r.spec_request().spec_auto_refresh_access_token() == self.spec_request().spec_auto_refresh_access_token(),
    {
        let ghost q = self.spec_request().spec_query();
        let r = BasePlayerControlRequestBuilder(self.0.append_query(key, value));
        proof {
            assert(!(exists|i: int| 0 <= i < q.len() && #[trigger] q[i].0 == key@));
            assert(q.push((key@, value@)) =~= seq![(key@, value@)]);
        }
        r
    }
}

} // verus!
