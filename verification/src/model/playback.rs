//! Playback state: devices, the currently playing item and its context.

use std::borrow::Cow;
use std::time::Duration;

use vstd::prelude::*;

use super::id::spec_parse_url_or_uri;
use super::id::IdFromKnownKind;
use super::id::IdTrait;
use super::id::PlayableContext;
use super::track::is_non_full_track_reason;
use super::track::FullTrack;
use super::track::TrackObject;
use crate::error::ConversionError;
use crate::error::IdError;
use super::ExternalUrls;
use super::ItemType;

verus! {

/// A device in an user's account that may be used for playback.
#[derive(Debug, Clone)]
pub struct Device {
    name: String,
    id: String,
    volume_percent: u8,
    is_active: bool,
    is_private_session: bool,
    is_restricted: bool,
    device_type: DeviceType,
}

/// What a [Device] holds.
pub ghost struct DeviceView {
    pub name: Seq<char>,
    pub id: Seq<char>,
    pub volume_percent: u8,
    pub is_active: bool,
    pub is_private_session: bool,
    pub is_restricted: bool,
    pub device_type: DeviceType,
}

impl View for Device {
    type V = DeviceView;

    closed spec fn view(&self) -> DeviceView {
        DeviceView {
            name: self.name@,
            id: self.id@,
            volume_percent: self.volume_percent,
            is_active: self.is_active,
            is_private_session: self.is_private_session,
            is_restricted: self.is_restricted,
            device_type: self.device_type,
        }
    }
}

/// A device's type.
#[derive(Debug, Clone, Copy, PartialEq, Eq, Structural)]
pub enum DeviceType {
    Computer,
    Tablet,
    Smartphone,
    Speaker,
    TV,
    AVR,
    STB,
    AudioDongle,
    GameConsole,
    CastVideo,
    CastAudio,
    Automobile,
    Unknown,
}

/// Current playback state. Contains information about which device is playing, what the repeat and shuffle states are
/// and which item is currently playing.
#[derive(Debug, Clone, PartialEq, Eq)]
pub struct PlaybackState {
    device: Device,
    repeat_state: RepeatState,
    shuffle_state: bool,
    currently_playing: CurrentlyPlayingItem,
}

/// Currently playing item.
#[derive(Debug, Clone, PartialEq, Eq)]
pub struct CurrentlyPlayingItem {
    timestamp: u64,
    is_playing: bool,
    actions: Actions,
    public_playing_track: Option<PublicPlayingItem>,
}

/// A public playing item.
///
/// Public refers to the playing item and its context being publicly available through the API. The item is not
/// considered public when, but not limited to:
/// - The user has enabled a private session.
/// - The playing context is private, e.g. a private playlist.
#[derive(Debug, Clone, PartialEq, Eq)]
pub struct PublicPlayingItem {
    context: Option<Context>,
    progress: Duration,
    item: PlayingType,
}

/// The context of the current playback (i.e. album, artist, playlist or show).
#[derive(Debug, Clone, PartialEq, Eq)]
pub struct Context {
    context_type: ItemType,
    external_urls: ExternalUrls,
    uri: PlayableContext<'static>,
}

/// What actions can be taken on the current playing item.
#[derive(Debug, Clone, Copy, PartialEq, Eq, Structural)]
pub struct Actions {
    /// Disallowed actions on the current playing item.
    pub disallows: Disallows,
}

/// Disallowed actions on the current playing item.
#[derive(Debug, Default, Clone, Copy, PartialEq, Eq, Structural)]
pub struct Disallows {
    pub interrupting_playback: bool,
    pub pausing: bool,
    pub resuming: bool,
    pub seeking: bool,
    pub skipping_next: bool,
    pub skipping_prev: bool,
    pub toggling_repeat_context: bool,
    pub toggling_shuffle: bool,
    pub toggling_repeat_track: bool,
    pub transferring_playback: bool,
}

/// The kind of item that is playing.
#[derive(Debug, Clone, PartialEq, Eq)]
#[non_exhaustive]
pub enum PlayingType {
    Track(FullTrack),
}

/// Possible item repeat states.
#[derive(Debug, Clone, Copy, PartialEq, Eq, Structural)]
pub enum RepeatState {
    Off,
    Track,
    Context,
}

impl Device {
    /// A device as Spotify describes it.
    pub fn new(
        name: String,
        id: String,
        volume_percent: u8,
        is_active: bool,
        is_private_session: bool,
        is_restricted: bool,
        device_type: DeviceType,
    ) -> (r: Self)
        ensures
            r@ == (DeviceView {
                name: name@,
                id: id@,
                volume_percent,
                is_active,
                is_private_session,
                is_restricted,
                device_type,
            }),
    {
        Device { name, id, volume_percent, is_active, is_private_session, is_restricted, device_type }
    }

    /// The name of the device.
    pub fn name(&self) -> (r: &str)
        ensures
            r@ == self@.name,
    {
        self.name.as_str()
    }

    /// The device ID.
    pub fn id(&self) -> (r: &str)
        ensures
            r@ == self@.id,
    {
        self.id.as_str()
    }

    /// The current volume as a percentage, as Spotify reports it.
    pub fn volume_percent(&self) -> (r: u8)
        ensures
            r == self@.volume_percent,
    {
        self.volume_percent
    }

    /// If this device is the currently active device.
    pub fn is_active(&self) -> (r: bool)
        ensures
            r == self@.is_active,
    {
        self.is_active
    }

    /// If this device is currently in a private session.
    pub fn is_private_session(&self) -> (r: bool)
        ensures
            r == self@.is_private_session,
    {
        self.is_private_session
    }

    /// Whether controlling this device is restricted. If this is `true`, no Web API commands will be accepted by this
    /// device.
    pub fn is_restricted(&self) -> (r: bool)
        ensures
            r == self@.is_restricted,
    {
        self.is_restricted
    }

    /// The type of the device.
    pub fn device_type(&self) -> (r: DeviceType)
        ensures
            r == self@.device_type,
    {
        self.device_type
    }
}

/// Two devices are equal when their IDs are.
impl PartialEq for Device {
    fn eq(&self, other: &Self) -> (r: bool) {
        super::id::str_eq(self.id.as_str(), other.id.as_str())
    }
}

impl vstd::std_specs::cmp::PartialEqSpecImpl for Device {
    open spec fn obeys_eq_spec() -> bool {
        true
    }

    open spec fn eq_spec(&self, other: &Self) -> bool {
        self@.id == other@.id
    }
}

impl Eq for Device {}

impl PlaybackState {
    /// The device currently playing.
    pub closed spec fn spec_device(&self) -> Device {
        self.device
    }

    /// The current playback's repeat state.
    pub closed spec fn spec_repeat_state(&self) -> RepeatState {
        self.repeat_state
    }

    /// The current playback's shuffle state.
    pub closed spec fn spec_shuffle_state(&self) -> bool {
        self.shuffle_state
    }

    /// The currently playing item.
    pub closed spec fn spec_currently_playing_item(&self) -> CurrentlyPlayingItem {
        self.currently_playing
    }

    /// A playback state as Spotify describes it.
    pub fn new(
        device: Device,
        repeat_state: RepeatState,
        shuffle_state: bool,
        currently_playing: CurrentlyPlayingItem,
    ) -> (r: Self)
        ensures
            r.spec_device() == device,
            r.spec_repeat_state() == repeat_state,
            r.spec_shuffle_state() == shuffle_state,
            r.spec_currently_playing_item() == currently_playing,
    {
        PlaybackState { device, repeat_state, shuffle_state, currently_playing }
    }

    /// The device currently playing.
    pub fn device(&self) -> (r: &Device)
        ensures
            *r == self.spec_device(),
    {
        &self.device
    }

    /// The device currently playing. Take ownership of the `Device` object.
    pub fn take_device(self) -> (r: Device)
        ensures
            r == self.spec_device(),
    {
        self.device
    }

    /// The current playback's repeat state.
    pub fn repeat_state(&self) -> (r: RepeatState)
        ensures
            r == self.spec_repeat_state(),
    {
        self.repeat_state
    }

    /// The current playback's shuffle state.
    pub fn shuffle_state(&self) -> (r: bool)
        ensures
            r == self.spec_shuffle_state(),
    {
        self.shuffle_state
    }

    /// The currently playing item.
    pub fn currently_playing_item(&self) -> (r: &CurrentlyPlayingItem)
        ensures
            *r == self.spec_currently_playing_item(),
    {
        &self.currently_playing
    }

    /// The currently playing item. Take ownership of the value.
    pub fn take_currently_playing_item(self) -> (r: CurrentlyPlayingItem)
        ensures
            r == self.spec_currently_playing_item(),
    {
        self.currently_playing
    }
}

impl CurrentlyPlayingItem {
    /// The item's timestamp.
    pub closed spec fn spec_timestamp(&self) -> u64 {
        self.timestamp
    }

    /// Whether or not the item is playing.
    pub closed spec fn spec_is_playing(&self) -> bool {
        self.is_playing
    }

    /// The actions that may be taken on the item.
    pub closed spec fn spec_actions(&self) -> Actions {
        self.actions
    }

    /// The currently playing public item.
    pub closed spec fn spec_public_playing_item(&self) -> Option<PublicPlayingItem> {
        self.public_playing_track
    }

    /// A currently playing item as Spotify describes it.
    pub fn new(
        timestamp: u64,
        is_playing: bool,
        actions: Actions,
        public_playing_item: Option<PublicPlayingItem>,
    ) -> (r: Self)
        ensures
            r.spec_timestamp() == timestamp,
            r.spec_is_playing() == is_playing,
            r.spec_actions() == actions,
            r.spec_public_playing_item() == public_playing_item,
    {
        CurrentlyPlayingItem { timestamp, is_playing, actions, public_playing_track: public_playing_item }
    }

    /// The item's timestamp.
    pub fn timestamp(&self) -> (r: u64)
        ensures
            r == self.spec_timestamp(),
    {
        self.timestamp
    }

    /// Whether or not the item is playing.
    pub fn is_playing(&self) -> (r: bool)
        ensures
            r == self.spec_is_playing(),
    {
        self.is_playing
    }

    /// The actions that may be taken on the item.
    pub fn actions(&self) -> (r: Actions)
        ensures
            r == self.spec_actions(),
    {
        self.actions
    }

    /// The currently playing public item.
    pub fn public_playing_item(&self) -> (r: Option<&PublicPlayingItem>)
        ensures
            match (r, self.spec_public_playing_item()) {
                (Some(item), Some(expected)) => *item == expected,
                (None, None) => true,
                _ => false,
            },
    {
        self.public_playing_track.as_ref()
    }

    /// The currently playing public item. Take ownership of the value.
    pub fn take_public_playing_item(self) -> (r: Option<PublicPlayingItem>)
        ensures
            r == self.spec_public_playing_item(),
    {
        self.public_playing_track
    }
}

impl PublicPlayingItem {
    /// The item's playback context, if it is publicly available.
    pub closed spec fn spec_context(&self) -> Option<Context> {
        self.context
    }

    /// The item's playback progress.
    pub closed spec fn spec_progress(&self) -> Duration {
        self.progress
    }

    /// The playing item.
    pub closed spec fn spec_item(&self) -> PlayingType {
        self.item
    }

    /// A public playing item as Spotify describes it.
    pub fn new(context: Option<Context>, progress: Duration, item: PlayingType) -> (r: Self)
        ensures
            r.spec_context() == context,
            r.spec_progress() == progress,
            r.spec_item() == item,
    {
        PublicPlayingItem { context, progress, item }
    }

    /// The item's playback context (i.e. album, artist, playlist or show); `None` where the context is not publicly
    /// available.
    pub fn context(&self) -> (r: Option<&Context>)
        ensures
            match (r, self.spec_context()) {
                (Some(c), Some(expected)) => *c == expected,
                (None, None) => true,
                _ => false,
            },
    {
        self.context.as_ref()
    }

    /// The item's playback progress.
    pub fn progress(&self) -> (r: Duration)
        ensures
            r == self.spec_progress(),
    {
        self.progress.clone()
    }

    /// The playing item.
    pub fn item(&self) -> (r: &PlayingType)
        ensures
            *r == self.spec_item(),
    {
        &self.item
    }

    /// The playing item. Take ownership of the item.
    pub fn take_item(self) -> (r: PlayingType)
        ensures
            r == self.spec_item(),
    {
        self.item
    }
}

/// Whether Spotify says the playing item is a track.
pub open spec fn is_track_type(currently_playing_type: Option<String>) -> bool {
    match currently_playing_type {
        Some(t) => t@ == "track"@,
        None => false,
    }
}

/// The public playing item of a currently playing response, from its parts: there is one when Spotify gives the
/// progress and a track as the playing item; its context is kept where Spotify gives one. A track object that is not a
/// full track is an error.
pub fn public_playing_item_of(
    context: Option<Context>,
    progress: Option<Duration>,
    currently_playing_type: Option<String>,
    item: Option<TrackObject>,
) -> (r: Result<Option<PublicPlayingItem>, ConversionError>)
    ensures
        !(progress is Some && item is Some && is_track_type(currently_playing_type)) ==> r == Ok::<
            Option<PublicPlayingItem>,
            ConversionError,
        >(None),
        progress is Some && item is Some && is_track_type(currently_playing_type) ==> match FullTrack::from_object(
            item->0,
        ) {
            Some(track) => r matches Ok(Some(p)) && p.spec_context() == context && p.spec_progress() == progress->0
                && p.spec_item() == PlayingType::Track(track),
            None => r matches Err(e) && is_non_full_track_reason(e.reason()),
        },
{
    let is_track = match &currently_playing_type {
        Some(t) => {
            proof {
                reveal_strlit("track");
            }
            super::id::str_eq(t.as_str(), "track")
        },
        None => false,
    };
    if !is_track {
        return Ok(None);
    }
    match (progress, item) {
        (Some(progress), Some(obj)) => match FullTrack::try_from(obj) {
            Ok(track) => Ok(Some(PublicPlayingItem { context, progress, item: PlayingType::Track(track) })),
            Err(e) => Err(e),
        },
        _ => Ok(None),
    }
}

impl RepeatState {
    /// The repeat state's name as Spotify writes it.
    pub open spec fn spec_name(self) -> Seq<char> {
        match self {
            RepeatState::Off => seq!['o', 'f', 'f'],
            RepeatState::Track => seq!['t', 'r', 'a', 'c', 'k'],
            RepeatState::Context => seq!['c', 'o', 'n', 't', 'e', 'x', 't'],
        }
    }

    /// The repeat state Spotify names `name`: `off`, `track` or `context`; `None` for any other name.
    pub fn from_name(name: &str) -> (r: Option<RepeatState>)
        ensures
            match r {
                Some(state) => state.spec_name() == name@,
                None => forall|state: RepeatState| #[trigger] state.spec_name() != name@,
            },
    {
        proof {
            reveal_strlit("off");
            reveal_strlit("track");
            reveal_strlit("context");
        }
        if super::id::str_eq(name, "off") {
            Some(RepeatState::Off)
        } else if super::id::str_eq(name, "track") {
            Some(RepeatState::Track)
        } else if super::id::str_eq(name, "context") {
            Some(RepeatState::Context)
        } else {
            proof {
                assert forall|state: RepeatState| #[trigger] state.spec_name() != name@ by {
                    match state {
                        RepeatState::Off => assert("off"@ =~= seq!['o', 'f', 'f']),
                        RepeatState::Track => assert("track"@ =~= seq!['t', 'r', 'a', 'c', 'k']),
                        RepeatState::Context => assert("context"@ =~= seq!['c', 'o', 'n', 't', 'e', 'x', 't']),
                    }
                }
            }
            None
        }
    }

    /// The repeat state's name as Spotify writes it, e.g. `off`.
    pub fn as_str(self) -> (r: &'static str)
        ensures
            r@ == self.spec_name(),
    {
        match self {
            RepeatState::Off => {
                proof {
                    reveal_strlit("off");
                }
                "off"
            },
            RepeatState::Track => {
                proof {
                    reveal_strlit("track");
                }
                "track"
            },
            RepeatState::Context => {
                proof {
                    reveal_strlit("context");
                }
                "context"
            },
        }
    }
}

impl Context {
    /// The type of the context.
    pub closed spec fn spec_context_type(&self) -> ItemType {
        self.context_type
    }

    /// The external URLs for the context.
    pub closed spec fn spec_external_urls(&self) -> ExternalUrls {
        self.external_urls
    }

    /// The context's Spotify ID.
    pub closed spec fn spec_uri(&self) -> PlayableContext<'static> {
        self.uri
    }

    /// A playback context as Spotify describes it.
    pub fn new(context_type: ItemType, external_urls: ExternalUrls, uri: PlayableContext<'static>) -> (r: Self)
        ensures
            r.spec_context_type() == context_type,
            r.spec_external_urls() == external_urls,
            r.spec_uri() == uri,
    {
        Context { context_type, external_urls, uri }
    }

    /// A playback context whose Spotify ID is read from the URI or URL Spotify gives for it; an error where that string
    /// is not a URI or URL of an album, an artist, a playlist or a show.
    pub fn from_uri(context_type: ItemType, external_urls: ExternalUrls, uri: String) -> (r: Result<Self, IdError>)
        ensures
            match r {
                Ok(c) => c.spec_context_type() == context_type && c.spec_external_urls() == external_urls
                    && PlayableContext::parsed_from(
                    Ok(c.spec_uri()),
                    Cow::<'static, str>::Owned(uri),
                    spec_parse_url_or_uri(uri@),
                ),
                Err(e) => PlayableContext::parsed_from(
                    Err(e),
                    Cow::<'static, str>::Owned(uri),
                    spec_parse_url_or_uri(uri@),
                ),
            },
    {
        match PlayableContext::from_url_or_uri(Cow::Owned(uri)) {
            Ok(id) => Ok(Context { context_type, external_urls, uri: id }),
            Err(e) => Err(e),
        }
    }

    /// The external URLs for the context.
    pub fn external_urls(&self) -> (r: &ExternalUrls)
        ensures
            *r == self.spec_external_urls(),
    {
        &self.external_urls
    }

    /// The context's Spotify ID, borrowing from the context.
    pub fn id(&self) -> (r: PlayableContext<'_>)
        ensures
            r.item_type() == self.spec_uri().item_type(),
            r.text() == self.spec_uri().text(),
            r.kind() == self.spec_uri().kind(),
            r.borrows(),
    {
        self.uri.as_borrowed()
    }
}


/// Each repeat state's name is the name Spotify uses for it: `off`, `track` and `context`.
pub proof fn law_repeat_state_names()
    ensures
        RepeatState::Off.spec_name() == "off"@,
        RepeatState::Track.spec_name() == "track"@,
        RepeatState::Context.spec_name() == "context"@,
{
    reveal_strlit("off");
    reveal_strlit("track");
    reveal_strlit("context");
}

} // verus!
