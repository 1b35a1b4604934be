use std::borrow::Cow;
use std::collections::HashSet;
use std::str::FromStr;
use std::time::Duration;

use ferrispot::client::object::TracksResponse;
use ferrispot::error::ConversionError;
use ferrispot::model::album::AlbumObject;
use ferrispot::model::album::AlbumTracks;
use ferrispot::model::album::AlbumType;
use ferrispot::model::album::CommonAlbumFields;
use ferrispot::model::album::CommonAlbumInformation;
use ferrispot::model::album::LocalAlbum;
use ferrispot::model::album::NonLocalAlbumFields;
use ferrispot::model::album::NonLocalAlbumInformation;
use ferrispot::model::album::PartialAlbum;
use ferrispot::model::artist::Artist;
use ferrispot::model::artist::ArtistObject;
use ferrispot::model::artist::CommonArtistFields;
use ferrispot::model::artist::CommonArtistInformation;
use ferrispot::model::artist::FullArtist;
use ferrispot::model::artist::FullArtistFields;
use ferrispot::model::artist::FullArtistInformation;
use ferrispot::model::artist::LocalArtist;
use ferrispot::model::artist::NonLocalArtistFields;
use ferrispot::model::artist::NonLocalArtistInformation;
use ferrispot::model::artist::PartialArtist;
use ferrispot::model::id::Id;
use ferrispot::model::id::IdFromBare;
use ferrispot::model::id::IdFromKnownKind;
use ferrispot::model::id::IdTrait;
use ferrispot::model::id::PlayableContext;
use ferrispot::model::id::UserId;
use ferrispot::model::object_type::TypeAlbum;
use ferrispot::model::object_type::TypeArtist;
use ferrispot::model::object_type::TypeTrack;
use ferrispot::model::object_type::TypeUser;
use ferrispot::model::page::Page;
use ferrispot::model::page::PageObject;
use ferrispot::model::playback::Actions;
use ferrispot::model::playback::Context;
use ferrispot::model::playback::CurrentlyPlayingItem;
use ferrispot::model::playback::Device;
use ferrispot::model::playback::DeviceType;
use ferrispot::model::playback::Disallows;
use ferrispot::model::playback::PlaybackState;
use ferrispot::model::playback::PlayingType;
use ferrispot::model::playback::public_playing_item_of;
use ferrispot::model::playback::PublicPlayingItem;
use ferrispot::model::playback::RepeatState;
use ferrispot::model::search::SearchResults;
use ferrispot::model::search::SearchResultsObject;
use ferrispot::model::search::ToTypesString;
use ferrispot::model::track::CommonTrackFields;
use ferrispot::model::track::CommonTrackInformation;
use ferrispot::model::track::FullTrack;
use ferrispot::model::track::FullTrackFields;
use ferrispot::model::track::FullTrackInformation;
use ferrispot::model::track::NonLocalTrackFields;
use ferrispot::model::track::NonLocalTrackInformation;
use ferrispot::model::track::PartialTrack;
use ferrispot::model::track::Track;
use ferrispot::model::track::TrackObject;
use ferrispot::model::user::CommonUserFields;
use ferrispot::model::user::CommonUserInformation;
use ferrispot::model::user::CurrentUser;
use ferrispot::model::user::CurrentUserFields;
use ferrispot::model::user::CurrentUserInformation;
use ferrispot::model::user::ExplicitContent;
use ferrispot::model::user::Followers;
use ferrispot::model::user::PrivateUser;
use ferrispot::model::user::PrivateUserFields;
use ferrispot::model::user::PrivateUserInformation;
use ferrispot::model::user::PublicUser;
use ferrispot::model::user::User;
use ferrispot::model::user::UserObject;
use ferrispot::model::CountryCode;
use ferrispot::model::ExternalIds;
use ferrispot::model::ExternalUrls;
use ferrispot::model::Image;
use ferrispot::model::ItemType;
use ferrispot::model::Restrictions;
use ferrispot::model::DatePrecision;
use ferrispot::scope::Scope;
use ferrispot::scope::ToScopesString;
use ferrispot::util::MaybeSplitOnce;

fn urls(url: &str) -> ExternalUrls {
    ExternalUrls { spotify: Some(url.to_owned()) }
}

fn artist_object(name: &str, id: Option<&str>, full: bool) -> ArtistObject {
    ArtistObject {
        common: CommonArtistFields { name: name.to_owned(), external_urls: urls("https://a"), item_type: TypeArtist },
        non_local: id.map(|id| NonLocalArtistFields { id: Id::from_bare(Cow::Owned(id.to_owned())).unwrap() }),
        full: if full {
            Some(FullArtistFields { genres: vec!["rock".to_owned()], images: Vec::new(), popularity: 50 })
        } else {
            None
        },
    }
}

fn partial_artist(name: &str, id: &str) -> PartialArtist {
    PartialArtist::try_from(artist_object(name, Some(id), false)).unwrap()
}

fn album_common(name: &str) -> CommonAlbumFields {
    CommonAlbumFields {
        name: name.to_owned(),
        artists: vec![partial_artist("Artist", "6pNgnvzBa6Bthsv8SrZJYl")],
        images: vec![Image { url: "https://i".to_owned(), dimensions: None }],
        external_urls: urls("https://album"),
        item_type: TypeAlbum,
        available_markets: HashSet::from([CountryCode::from_code("FI").unwrap()]),
        restrictions: Restrictions::default(),
    }
}

fn album_object(name: &str, id: Option<&str>) -> AlbumObject {
    AlbumObject {
        common: album_common(name),
        non_local: id.map(|id| NonLocalAlbumFields {
            album_type: AlbumType::Single,
            id: Id::from_bare(Cow::Owned(id.to_owned())).unwrap(),
            release_date: "2020".to_owned(),
            release_date_precision: DatePrecision::Year,
        }),
        full: None,
    }
}

fn track_object(name: &str, id: Option<&str>, full: bool) -> TrackObject {
    TrackObject {
        common: CommonTrackFields {
            name: name.to_owned(),
            artists: vec![partial_artist("Artist", "6pNgnvzBa6Bthsv8SrZJYl")],
            track_number: 3,
            disc_number: 1,
            duration: Duration::from_millis(200_000),
            explicit: false,
            preview_url: None,
            is_local: id.is_none(),
            external_urls: urls("https://track"),
            item_type: TypeTrack,
            available_markets: HashSet::new(),
            is_playable: Some(true),
            linked_from: None,
            restrictions: Restrictions::default(),
        },
        non_local: id.map(|id| NonLocalTrackFields { id: Id::from_bare(Cow::Owned(id.to_owned())).unwrap() }),
        full: if full {
            Some(FullTrackFields {
                album: PartialAlbum::try_from(album_object("Album", Some("0tDsHtvN9YNuZjlqHvDY2P"))).unwrap(),
                external_ids: ExternalIds::default(),
                popularity: 70,
            })
        } else {
            None
        },
    }
}

fn user_object(id: &str, email: Option<&str>, private: bool) -> UserObject {
    UserObject {
        common: CommonUserFields {
            display_name: Some("User".to_owned()),
            external_urls: ExternalUrls::default(),
            followers: Followers { total: 5 },
            id: Id::<UserId>::from_uri(Cow::Owned(format!("spotify:user:{id}"))).unwrap(),
            images: Vec::new(),
            item_type: TypeUser,
        },
        current: email.map(|e| CurrentUserFields { email: e.to_owned() }),
        private: if private {
            Some(PrivateUserFields {
                country: CountryCode::from_code("FI").unwrap(),
                explicit_content: ExplicitContent { filter_enabled: true, filter_locked: false },
                product: "premium".to_owned(),
            })
        } else {
            None
        },
    }
}

#[test]
fn artist_object_converts_by_its_fields() {
    let full = Artist::try_from(artist_object("A", Some("6pNgnvzBa6Bthsv8SrZJYl"), true)).unwrap();
    let full = match full {
        Artist::Full(full) => *full,
        _ => panic!("expected a full artist"),
    };
    assert_eq!(full.name(), "A");
    assert_eq!(full.genres(), &["rock".to_owned()][..]);
    assert_eq!(full.popularity(), 50);
    assert_eq!(full.id().as_str(), "6pNgnvzBa6Bthsv8SrZJYl");
    assert_eq!(full.external_urls(), &urls("https://a"));

    assert!(matches!(Artist::try_from(artist_object("A", Some("6pNgnvzBa6Bthsv8SrZJYl"), false)), Ok(Artist::Partial(_))));
    assert!(matches!(Artist::try_from(artist_object("A", None, false)), Ok(Artist::Local(_))));
    assert!(Artist::try_from(artist_object("A", None, true)).is_err());

    let partial = PartialArtist::try_from(Artist::from(full.clone())).unwrap();
    assert_eq!(partial.id().as_str(), "6pNgnvzBa6Bthsv8SrZJYl");
    let error = FullArtist::try_from(Artist::from(partial)).unwrap_err();
    assert_eq!(error.to_string(), "object conversion failed: attempt to convert partial artist into full artist");
    let back = FullArtist::try_from(ArtistObject::from(full.clone())).unwrap();
    assert_eq!(back, full);
    let local = LocalArtist::from(Artist::from(full));
    assert_eq!(local.name(), "A");
}

#[test]
fn artist_conversion_errors() {
    let error = PartialArtist::try_from(artist_object("A", None, false)).unwrap_err();
    assert_eq!(
        error.to_string(),
        "object conversion failed: attempt to convert local artist object into partial artist (non-local artist fields is None)"
    );
    let error: ConversionError = FullArtist::try_from(artist_object("A", None, false)).unwrap_err();
    assert!(error.to_string().starts_with("object conversion failed: attempt to convert non-full artist object"));
}

#[test]
fn artists_are_equal_by_id() {
    let a = partial_artist("One name", "6pNgnvzBa6Bthsv8SrZJYl");
    let b = partial_artist("Other name", "6pNgnvzBa6Bthsv8SrZJYl");
    let c = partial_artist("One name", "0tDsHtvN9YNuZjlqHvDY2P");
    assert!(a == b);
    assert!(a != c);
    let local_a = LocalArtist::from(artist_object("L", None, false));
    let local_b = LocalArtist::from(artist_object("L", None, false));
    let local_c = LocalArtist::from(artist_object("M", None, false));
    assert!(local_a == local_b);
    assert!(local_a != local_c);
    assert!(local_a == LocalArtist::from(artist_object("L", Some("6pNgnvzBa6Bthsv8SrZJYl"), false)));
}

#[test]
fn albums_are_equal_by_id_or_by_all_fields() {
    let a = PartialAlbum::try_from(album_object("A", Some("0tDsHtvN9YNuZjlqHvDY2P"))).unwrap();
    let b = PartialAlbum::try_from(album_object("B", Some("0tDsHtvN9YNuZjlqHvDY2P"))).unwrap();
    assert!(a == b);
    assert_eq!(a.album_type(), AlbumType::Single);
    assert_eq!(a.release_date(), "2020");
    assert_eq!(a.name(), "A");
    assert_eq!(a.available_markets().len(), 1);
    let local_a = LocalAlbum::from(album_object("A", None));
    let local_b = LocalAlbum::from(album_object("A", None));
    let local_c = LocalAlbum::from(album_object("C", None));
    assert!(local_a == local_b);
    assert!(local_a != local_c);
    assert!(a == local_a);
    assert!(b != local_a);
}

#[test]
fn tracks_convert_and_report_their_fields() {
    let track = Track::try_from(track_object("T", Some("2pDPOMX0kWA7kcPBcDCQBu"), true)).unwrap();
    let full = FullTrack::try_from(track.clone()).unwrap();
    assert_eq!(full.name(), "T");
    assert_eq!(full.id(), "2pDPOMX0kWA7kcPBcDCQBu");
    assert_eq!(full.popularity(), 70);
    assert_eq!(full.album().name(), "Album");
    assert_eq!(full.duration(), Duration::from_millis(200_000));
    assert_eq!(full.track_number(), 3);
    assert_eq!(full.is_playable(), Some(true));
    assert_eq!(full.preview_url(), None);
    assert!(full.linked_from().is_none());
    let partial = PartialTrack::try_from(track).unwrap();
    assert_eq!(partial.id(), "2pDPOMX0kWA7kcPBcDCQBu");
    assert!(FullTrack::try_from(Track::from(partial)).is_err());
    assert!(PartialTrack::try_from(track_object("L", None, false)).is_err());
}

#[test]
fn tracks_response_keeps_full_tracks_and_skips_missing() {
    let response = TracksResponse::new(vec![
        Some(track_object("A", Some("2pDPOMX0kWA7kcPBcDCQBu"), true)),
        None,
        Some(track_object("B", Some("0tDsHtvN9YNuZjlqHvDY2P"), true)),
    ]);
    let tracks = response.full_tracks().unwrap();
    assert_eq!(tracks.len(), 2);
    assert_eq!(tracks[1].name(), "B");
    let response = TracksResponse::new(vec![Some(track_object("A", Some("2pDPOMX0kWA7kcPBcDCQBu"), false))]);
    let error = response.full_tracks().unwrap_err();
    let message = error.to_string();
    assert!(message.starts_with(
        "object conversion failed: attempt to convert non-full track object into full track (non-local track fields is "
    ));
    assert!(message.contains(", full track fields is "));
    assert!(message.ends_with(')'));
}

#[test]
fn album_track_page_keeps_partial_tracks() {
    let page = PageObject::new(
        vec![
            track_object("A", Some("2pDPOMX0kWA7kcPBcDCQBu"), false),
            track_object("Local", None, false),
            track_object("B", Some("0tDsHtvN9YNuZjlqHvDY2P"), false),
        ],
        Some("https://next".to_owned()),
        20,
        0,
        3,
    );
    let items = Page::new(AlbumTracks { page }).take_items();
    assert_eq!(items.len(), 2);
    assert_eq!(items[0].name(), "A");
    assert_eq!(items[1].name(), "B");
}

#[test]
fn search_results_offer_only_pages_with_items() {
    let tracks = PageObject::new(vec![track_object("A", Some("2pDPOMX0kWA7kcPBcDCQBu"), true)], None, 20, 0, 1);
    let results = SearchResults::try_from(SearchResultsObject { tracks: Some(tracks), artists: None, albums: None }).unwrap();
    let page = results.tracks().unwrap();
    let items = page.take_items();
    assert_eq!(items.len(), 1);
    assert_eq!(items[0].name(), "A");

    let partial_only = PageObject::new(vec![track_object("A", Some("2pDPOMX0kWA7kcPBcDCQBu"), false)], None, 20, 0, 1);
    let results =
        SearchResults::try_from(SearchResultsObject { tracks: Some(partial_only), artists: None, albums: None }).unwrap();
    assert!(results.tracks().is_none());
    let results = SearchResults::try_from(SearchResultsObject { tracks: None, artists: None, albums: None }).unwrap();
    assert!(results.artists().is_none());
}

#[test]
fn users_convert_and_compare_by_id() {
    let private = PrivateUser::try_from(user_object("1111111111111111111111", Some("a@b.c"), true)).unwrap();
    assert_eq!(private.email(), "a@b.c");
    assert_eq!(private.product(), "premium");
    assert_eq!(private.country().to_string(), "FI");
    assert_eq!(private.followers(), Followers { total: 5 });
    assert_eq!(private.display_name(), Some("User"));
    assert!(private.explicit_content().filter_enabled);
    let current = CurrentUser::try_from(User::from(private.clone())).unwrap();
    assert!(current == private);
    let public = PublicUser::from(User::from(current));
    assert!(public == private);
    assert!(public != PublicUser::from(user_object("2222222222222222222222", None, false)));
    assert!(matches!(User::try_from(user_object("1111111111111111111111", None, false)), Ok(User::Public(_))));
    assert!(matches!(User::try_from(user_object("1111111111111111111111", Some("e"), false)), Ok(User::Current(_))));
    assert!(User::try_from(user_object("1111111111111111111111", None, true)).is_err());
    assert_eq!(
        CurrentUser::try_from(user_object("1111111111111111111111", None, false)).unwrap_err().to_string(),
        "object conversion failed: attempt to convert public user object into current user"
    );
}

#[test]
fn playback_state_getters() {
    let device = Device::new("Phone".to_owned(), "d1".to_owned(), 30, true, false, false, DeviceType::Smartphone);
    let same = Device::new("Other".to_owned(), "d1".to_owned(), 90, false, true, true, DeviceType::Computer);
    assert!(device == same);
    assert_eq!(device.name(), "Phone");
    assert_eq!(device.volume_percent(), 30);
    assert_eq!(device.device_type(), DeviceType::Smartphone);

    let track = FullTrack::try_from(track_object("T", Some("2pDPOMX0kWA7kcPBcDCQBu"), true)).unwrap();
    let context_id = PlayableContext::from_uri(Cow::Owned("spotify:album:0tDsHtvN9YNuZjlqHvDY2P".to_owned())).unwrap();
    let context = Context::new(ItemType::Album, ExternalUrls::default(), context_id);
    assert_eq!(context.id().as_str(), "0tDsHtvN9YNuZjlqHvDY2P");
    let item = PublicPlayingItem::new(Some(context), Duration::from_secs(5), PlayingType::Track(track));
    let actions = Actions { disallows: Disallows { pausing: true, ..Disallows::default() } };
    let playing = CurrentlyPlayingItem::new(1000, true, actions, Some(item));
    let state = PlaybackState::new(device, RepeatState::Track, true, playing);
    assert_eq!(state.repeat_state(), RepeatState::Track);
    assert!(state.shuffle_state());
    assert_eq!(state.device().id(), "d1");
    let playing = state.take_currently_playing_item();
    assert_eq!(playing.timestamp(), 1000);
    assert!(playing.actions().disallows.pausing);
    let item = playing.take_public_playing_item().unwrap();
    assert_eq!(item.context().unwrap().id().as_str(), "0tDsHtvN9YNuZjlqHvDY2P");
    assert_eq!(item.progress(), Duration::from_secs(5));
    assert!(matches!(item.take_item(), PlayingType::Track(t) if t.name() == "T"));
    assert_eq!(RepeatState::Off.as_str(), "off");
    assert_eq!(RepeatState::from_name("context"), Some(RepeatState::Context));
    assert_eq!(RepeatState::from_name(RepeatState::Track.as_str()), Some(RepeatState::Track));
    assert_eq!(RepeatState::from_name("shuffle"), None);
    assert_eq!(RepeatState::Context.as_str(), "context");
}

#[test]
fn public_playing_item_keeps_the_item_without_a_context() {
    let track = track_object("T", Some("2pDPOMX0kWA7kcPBcDCQBu"), true);
    let item = public_playing_item_of(None, Some(Duration::from_millis(1500)), Some("track".to_owned()), Some(track))
        .unwrap()
        .unwrap();
    assert!(item.context().is_none());
    assert_eq!(item.progress(), Duration::from_millis(1500));

    let context = Context::from_uri(
        ItemType::Playlist,
        ExternalUrls::default(),
        "https://open.spotify.com/playlist/37i9dQZF1DXcBWIGoYBM5M?si=x".to_owned(),
    )
    .unwrap();
    assert_eq!(context.id().as_str(), "37i9dQZF1DXcBWIGoYBM5M");
    let track = track_object("T", Some("2pDPOMX0kWA7kcPBcDCQBu"), true);
    let item = public_playing_item_of(Some(context), Some(Duration::ZERO), Some("track".to_owned()), Some(track))
        .unwrap()
        .unwrap();
    assert_eq!(item.context().unwrap().id().as_str(), "37i9dQZF1DXcBWIGoYBM5M");

    let track = track_object("T", Some("2pDPOMX0kWA7kcPBcDCQBu"), true);
    assert!(public_playing_item_of(None, Some(Duration::ZERO), Some("episode".to_owned()), Some(track))
        .unwrap()
        .is_none());
    assert!(public_playing_item_of(None, None, Some("track".to_owned()), None).unwrap().is_none());
    let partial = track_object("T", Some("2pDPOMX0kWA7kcPBcDCQBu"), false);
    assert!(public_playing_item_of(None, Some(Duration::ZERO), Some("track".to_owned()), Some(partial)).is_err());
    assert!(Context::from_uri(ItemType::Track, ExternalUrls::default(), "spotify:track:2pDPOMX0kWA7kcPBcDCQBu".to_owned())
        .is_err());
}

#[test]
fn item_types_round_trip_through_their_names() {
    for t in [ItemType::Album, ItemType::Artist, ItemType::Playlist, ItemType::Track, ItemType::Show, ItemType::Episode,
        ItemType::Collection, ItemType::User]
    {
        assert_eq!(ItemType::from_str(t.as_str()).unwrap(), t);
    }
    assert!(ItemType::from_str("song").is_err());
}

#[test]
fn types_and_scopes_strings() {
    assert_eq!(vec![ItemType::Track, ItemType::Artist].to_types_string(), "track,artist");
    assert_eq!([ItemType::Show].to_types_string(), "show");
    assert_eq!(Vec::<ItemType>::new().to_types_string(), "");
    assert_eq!(
        [Scope::UserReadEmail, Scope::UserReadPrivate].to_scopes_string(),
        "user-read-email user-read-private"
    );
    assert_eq!(Scope::Streaming.as_str(), "streaming");
}

#[test]
fn country_codes_are_two_capitals() {
    assert_eq!(CountryCode::from_code("FI").unwrap().to_string(), "FI");
    assert!(CountryCode::from_code("fi").is_none());
    assert!(CountryCode::from_code("FIN").is_none());
}

#[test]
fn maybe_split_once_splits_at_the_first_separator() {
    assert_eq!("a?b?c".maybe_split_once('?'), ("a", Some("b?c")));
    assert_eq!("abc".maybe_split_once('?'), ("abc", None));
}

#[test]
fn ids_reformat_into_the_other_forms() {
    let id = Id::<ferrispot::model::id::TrackId>::from_url(Cow::Borrowed(
        "https://open.spotify.com/track/2pDPOMX0kWA7kcPBcDCQBu?si=AAAA",
    ))
    .unwrap();
    assert_eq!(id.as_uri(), "spotify:track:2pDPOMX0kWA7kcPBcDCQBu");
    assert_eq!(id.as_url(), "https://open.spotify.com/track/2pDPOMX0kWA7kcPBcDCQBu?si=AAAA");
    let bare = Id::<ferrispot::model::id::TrackId>::from_bare(Cow::Borrowed("2pDPOMX0kWA7kcPBcDCQBu")).unwrap();
    assert_eq!(bare.as_url(), "https://open.spotify.com/track/2pDPOMX0kWA7kcPBcDCQBu");
    let owned = bare.as_owned();
    assert_eq!(owned, bare);
    assert!(Id::<UserId>::from_uri(Cow::Borrowed("spotify:user:2222222222222222222222")).is_ok());
}
