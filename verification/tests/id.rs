use std::borrow::Cow;

use ferrispot::error::IdError;
use ferrispot::model::id::AlbumId;
use ferrispot::model::id::ArtistId;
use ferrispot::model::id::Id;
use ferrispot::model::id::IdFromBare;
use ferrispot::model::id::IdFromKnownKind;
use ferrispot::model::id::IdTrait;
use ferrispot::model::id::PlayableContext;
use ferrispot::model::id::PlayableItem;
use ferrispot::model::id::PlaylistId;
use ferrispot::model::id::SpotifyId;
use ferrispot::model::id::TrackId;
use ferrispot::model::ItemType;

/// The string a JSON string literal holds.
fn decode(json: &str) -> String {
    serde_json::from_str(json).unwrap()
}

#[test]
fn track_id_from_uri() {
    let id_string = "spotify:track:2pDPOMX0kWA7kcPBcDCQBu";
    let id = Id::<TrackId>::from_uri(id_string.into()).unwrap();

    assert_eq!(id.as_str(), "2pDPOMX0kWA7kcPBcDCQBu");
}

#[test]
fn track_id_from_url() {
    let id_string = "https://open.spotify.com/track/2pDPOMX0kWA7kcPBcDCQBu";
    let id = Id::<TrackId>::from_url(id_string.into()).unwrap();

    assert_eq!(id.as_str(), "2pDPOMX0kWA7kcPBcDCQBu");
}

#[test]
fn track_id_from_url_with_query() {
    let id_string = "https://open.spotify.com/track/2pDPOMX0kWA7kcPBcDCQBu?si=AAAAAAAAAA";
    let id = Id::<TrackId>::from_url(id_string.into()).unwrap();

    assert_eq!(id.as_str(), "2pDPOMX0kWA7kcPBcDCQBu");
}

#[test]
fn track_id_from_bare() {
    let id_string = "2pDPOMX0kWA7kcPBcDCQBu";
    let id = Id::<TrackId>::from_bare(id_string.into()).unwrap();

    assert_eq!(id.as_str(), "2pDPOMX0kWA7kcPBcDCQBu");
}

#[test]
fn album_id_from_uri() {
    let id_string = "spotify:album:0tDsHtvN9YNuZjlqHvDY2P";
    let id = Id::<AlbumId>::from_uri(id_string.into()).unwrap();

    assert_eq!(id.as_str(), "0tDsHtvN9YNuZjlqHvDY2P");
}

#[test]
fn album_id_from_url() {
    let id_string = "https://open.spotify.com/album/0tDsHtvN9YNuZjlqHvDY2P";
    let id = Id::<AlbumId>::from_url(id_string.into()).unwrap();

    assert_eq!(id.as_str(), "0tDsHtvN9YNuZjlqHvDY2P");
}

#[test]
fn album_id_from_bare() {
    let id_string = "0tDsHtvN9YNuZjlqHvDY2P";
    let id = Id::<AlbumId>::from_bare(id_string.into()).unwrap();

    assert_eq!(id.as_str(), "0tDsHtvN9YNuZjlqHvDY2P");
}

#[test]
fn artist_id_from_uri() {
    let id_string = "spotify:artist:6pNgnvzBa6Bthsv8SrZJYl";
    let id = Id::<ArtistId>::from_uri(id_string.into()).unwrap();

    assert_eq!(id.as_str(), "6pNgnvzBa6Bthsv8SrZJYl");
}

#[test]
fn artist_id_from_url() {
    let id_string = "https://open.spotify.com/artist/6pNgnvzBa6Bthsv8SrZJYl";
    let id = Id::<ArtistId>::from_url(id_string.into()).unwrap();

    assert_eq!(id.as_str(), "6pNgnvzBa6Bthsv8SrZJYl");
}

#[test]
fn artist_id_from_bare() {
    let id_string = "6pNgnvzBa6Bthsv8SrZJYl";
    let id = Id::<ArtistId>::from_bare(id_string.into()).unwrap();

    assert_eq!(id.as_str(), "6pNgnvzBa6Bthsv8SrZJYl");
}

#[test]
fn playlist_id_from_uri() {
    let id_string = "spotify:playlist:37i9dQZF1DWZipvLjDtZYe";
    let id = Id::<PlaylistId>::from_uri(id_string.into()).unwrap();

    assert_eq!(id.as_str(), "37i9dQZF1DWZipvLjDtZYe");
}

#[test]
fn playlist_id_from_url() {
    let id_string = "https://open.spotify.com/playlist/37i9dQZF1DWZipvLjDtZYe";
    let id = Id::<PlaylistId>::from_url(id_string.into()).unwrap();

    assert_eq!(id.as_str(), "37i9dQZF1DWZipvLjDtZYe");
}

#[test]
fn playlist_id_from_bare() {
    let id_string = "37i9dQZF1DWZipvLjDtZYe";
    let id = Id::<PlaylistId>::from_bare(id_string.into()).unwrap();

    assert_eq!(id.as_str(), "37i9dQZF1DWZipvLjDtZYe");
}

#[test]
fn playable_item_id_from_track_uri() {
    let id_string = "spotify:track:2pDPOMX0kWA7kcPBcDCQBu";
    let id = PlayableItem::from_uri(id_string.into()).unwrap();

    assert_eq!(id.as_str(), "2pDPOMX0kWA7kcPBcDCQBu");
}

#[test]
fn playable_item_id_from_track_url() {
    let id_string = "https://open.spotify.com/track/2pDPOMX0kWA7kcPBcDCQBu";
    let id = PlayableItem::from_url(id_string.into()).unwrap();

    assert_eq!(id.as_str(), "2pDPOMX0kWA7kcPBcDCQBu");
}

#[test]
fn playable_item_id_from_track_url_with_query() {
    let id_string = "https://open.spotify.com/track/2pDPOMX0kWA7kcPBcDCQBu?si=AAAAAAAAAA";
    let id = PlayableItem::from_url(id_string.into()).unwrap();

    assert_eq!(id.as_str(), "2pDPOMX0kWA7kcPBcDCQBu");
}

#[test]
fn playable_context_id_from_album_uri() {
    let id_string = "spotify:album:0tDsHtvN9YNuZjlqHvDY2P";
    let id = PlayableContext::from_uri(id_string.into()).unwrap();

    assert_eq!(id.as_str(), "0tDsHtvN9YNuZjlqHvDY2P");
}

#[test]
fn playable_context_id_from_album_url() {
    let id_string = "https://open.spotify.com/album/0tDsHtvN9YNuZjlqHvDY2P";
    let id = PlayableContext::from_url(id_string.into()).unwrap();

    assert_eq!(id.as_str(), "0tDsHtvN9YNuZjlqHvDY2P");
}

#[test]
fn playable_context_id_from_album_url_with_query() {
    let id_string = "https://open.spotify.com/album/0tDsHtvN9YNuZjlqHvDY2P?si=AAAAAAAAAA";
    let id = PlayableContext::from_url(id_string.into()).unwrap();

    assert_eq!(id.as_str(), "0tDsHtvN9YNuZjlqHvDY2P");
}

#[test]
fn spotify_id_from_track_uri() {
    let id_string = "spotify:track:2pDPOMX0kWA7kcPBcDCQBu";
    let id = SpotifyId::from_uri(id_string.into()).unwrap();

    assert_eq!(id.as_str(), "2pDPOMX0kWA7kcPBcDCQBu");
}

#[test]
fn spotify_id_from_track_url() {
    let id_string = "https://open.spotify.com/track/2pDPOMX0kWA7kcPBcDCQBu";
    let id = SpotifyId::from_url(id_string.into()).unwrap();

    assert_eq!(id.as_str(), "2pDPOMX0kWA7kcPBcDCQBu");
}

#[test]
fn spotify_id_from_track_url_with_query() {
    let id_string = "https://open.spotify.com/track/2pDPOMX0kWA7kcPBcDCQBu?si=AAAAAAAAAA";
    let id = SpotifyId::from_url(id_string.into()).unwrap();

    assert_eq!(id.as_str(), "2pDPOMX0kWA7kcPBcDCQBu");
}

#[test]
fn spotify_id_from_album_uri() {
    let id_string = "spotify:album:0tDsHtvN9YNuZjlqHvDY2P";
    let id = SpotifyId::from_uri(id_string.into()).unwrap();

    assert_eq!(id.as_str(), "0tDsHtvN9YNuZjlqHvDY2P");
}

#[test]
fn spotify_id_from_album_url() {
    let id_string = "https://open.spotify.com/album/0tDsHtvN9YNuZjlqHvDY2P";
    let id = SpotifyId::from_url(id_string.into()).unwrap();

    assert_eq!(id.as_str(), "0tDsHtvN9YNuZjlqHvDY2P");
}

#[test]
fn spotify_id_from_track_uri_and_url() {
    let url_string = "https://open.spotify.com/track/2pDPOMX0kWA7kcPBcDCQBu";
    let uri_string = "spotify:track:2pDPOMX0kWA7kcPBcDCQBu";

    let url_id = SpotifyId::from_url_or_uri(url_string.into()).unwrap();
    let uri_id = SpotifyId::from_url_or_uri(uri_string.into()).unwrap();

    assert_eq!(url_id.as_str(), "2pDPOMX0kWA7kcPBcDCQBu");
    assert_eq!(uri_id.as_str(), "2pDPOMX0kWA7kcPBcDCQBu");
}

#[test]
fn wrong_url_prefix() {
    let id_string = "https://google.com/track/2pDPOMX0kWA7kcPBcDCQBu";
    let id = Id::<TrackId>::from_url(id_string.into());

    assert!(matches!(id, Err(IdError::MalformedString(_))))
}

#[test]
fn wrong_uri_prefix() {
    let id_string = "wrong:track:2pDPOMX0kWA7kcPBcDCQBu";
    let id = Id::<TrackId>::from_uri(id_string.into());

    assert!(matches!(id, Err(IdError::MalformedString(_))))
}

#[test]
fn wrong_id_type_in_url() {
    let id_string = "https://open.spotify.com/track/2pDPOMX0kWA7kcPBcDCQBu";
    let id = Id::<ArtistId>::from_url(id_string.into());

    assert!(matches!(id, Err(IdError::WrongItemType(ItemType::Track))))
}

#[test]
fn wrong_id_type_in_uri() {
    let id_string = "spotify:track:2pDPOMX0kWA7kcPBcDCQBu";
    let id = Id::<ArtistId>::from_uri(id_string.into());

    assert!(matches!(id, Err(IdError::WrongItemType(ItemType::Track))))
}

#[test]
fn unknown_id_type_in_uri() {
    let id_string = "spotify:wrong:2pDPOMX0kWA7kcPBcDCQBu";
    let id = Id::<TrackId>::from_uri(id_string.into());

    assert!(matches!(id, Err(IdError::InvalidItemType(_))))
}

#[test]
fn unknown_id_type_in_url() {
    let id_string = "https://open.spotify.com/wrong/2pDPOMX0kWA7kcPBcDCQBu";
    let id = Id::<TrackId>::from_url(id_string.into());

    assert!(matches!(id, Err(IdError::InvalidItemType(_))))
}

#[test]
fn invalid_id_too_short() {
    let id_string = "_";
    let id = Id::<TrackId>::from_bare(id_string.into());

    assert!(matches!(id, Err(IdError::InvalidId(_))))
}

#[test]
fn invalid_id_too_long() {
    let id_string = "2pDPOMX0kWA7kcPBcDCQBu_";
    let id = Id::<TrackId>::from_bare(id_string.into());

    assert!(matches!(id, Err(IdError::InvalidId(_))))
}

#[test]
fn invalid_id_illegal_characters() {
    let id_string = "2pDPOMX0kWA7kcPBcDCQB_";
    let id = Id::<TrackId>::from_bare(id_string.into());

    assert!(matches!(id, Err(IdError::InvalidId(_))))
}

#[test]
fn invalid_id_in_url() {
    let id_string = "https://open.spotify.com/track/_";
    let id = Id::<TrackId>::from_url(id_string.into());

    assert!(matches!(id, Err(IdError::InvalidId(_))))
}

#[test]
fn invalid_id_in_uri() {
    let id_string = "spotify:track:_";
    let id = Id::<TrackId>::from_uri(id_string.into());

    assert!(matches!(id, Err(IdError::InvalidId(_))))
}

#[test]
fn uri_from_uri_borrows() {
    let id_string = "spotify:track:2pDPOMX0kWA7kcPBcDCQBu";
    let id = Id::<TrackId>::from_uri(id_string.into()).unwrap();

    let uri = id.as_uri();
    assert!(matches!(uri, Cow::Borrowed("spotify:track:2pDPOMX0kWA7kcPBcDCQBu")));
}

#[test]
fn url_from_url_borrows() {
    let id_string = "https://open.spotify.com/track/2pDPOMX0kWA7kcPBcDCQBu";
    let id = Id::<TrackId>::from_url(id_string.into()).unwrap();

    let url = id.as_url();
    assert!(matches!(
        url,
        Cow::Borrowed("https://open.spotify.com/track/2pDPOMX0kWA7kcPBcDCQBu")
    ));
}

#[test]
fn uri_from_url_allocates() {
    let id_string = "https://open.spotify.com/track/2pDPOMX0kWA7kcPBcDCQBu";
    let id = Id::<TrackId>::from_url(id_string.into()).unwrap();

    let uri = id.as_uri();
    assert!(matches!(uri, Cow::Owned(_)));
}

#[test]
fn url_from_uri_allocates() {
    let id_string = "spotify:track:2pDPOMX0kWA7kcPBcDCQBu";
    let id = Id::<TrackId>::from_uri(id_string.into()).unwrap();

    let url = id.as_url();
    assert!(matches!(url, Cow::Owned(_)));
}

#[test]
fn uri_from_bare_allocates() {
    let id_string = "2pDPOMX0kWA7kcPBcDCQBu";
    let id = Id::<TrackId>::from_bare(id_string.into()).unwrap();

    let uri = id.as_uri();
    assert!(matches!(uri, Cow::Owned(_)));
}

#[test]
fn url_from_bare_allocates() {
    let id_string = "2pDPOMX0kWA7kcPBcDCQBu";
    let id = Id::<TrackId>::from_bare(id_string.into()).unwrap();

    let url = id.as_url();
    assert!(matches!(url, Cow::Owned(_)));
}

#[test]
fn cloned_id_still_borrows() {
    let id_string = "spotify:track:2pDPOMX0kWA7kcPBcDCQBu";
    let id = Id::<TrackId>::from_uri(id_string.into()).unwrap();

    let url = id.as_uri();
    assert!(matches!(url, Cow::Borrowed(_)));

    let cloned = id.clone();
    let url = cloned.as_uri();
    assert!(matches!(url, Cow::Borrowed(_)));
}

#[test]
fn deserialize_id_from_uri() {
    let json = "\"spotify:track:2pDPOMX0kWA7kcPBcDCQBu\"";
    let id: Id<TrackId> = Id::from_url_uri_or_bare(Cow::Owned(decode(json))).unwrap();

    assert_eq!(id.as_str(), "2pDPOMX0kWA7kcPBcDCQBu");
}

#[test]
fn deserialize_id_from_url() {
    let json = "\"https://open.spotify.com/track/2pDPOMX0kWA7kcPBcDCQBu\"";
    let id: Id<TrackId> = Id::from_url_uri_or_bare(Cow::Owned(decode(json))).unwrap();

    assert_eq!(id.as_str(), "2pDPOMX0kWA7kcPBcDCQBu");
}

#[test]
fn deserialize_id_from_bare() {
    let json = "\"2pDPOMX0kWA7kcPBcDCQBu\"";
    let id: Id<TrackId> = Id::from_url_uri_or_bare(Cow::Owned(decode(json))).unwrap();

    assert_eq!(id.as_str(), "2pDPOMX0kWA7kcPBcDCQBu");
}

#[test]
fn deserialize_playable_item_from_uri() {
    let json = "\"spotify:track:2pDPOMX0kWA7kcPBcDCQBu\"";
    let id = PlayableItem::from_url_or_uri(Cow::Owned(decode(json))).unwrap();

    assert!(matches!(id, PlayableItem::Track(_)));
    assert_eq!(id.as_str(), "2pDPOMX0kWA7kcPBcDCQBu");
}

#[test]
fn deserialize_playable_item_from_url() {
    let json = "\"https://open.spotify.com/track/2pDPOMX0kWA7kcPBcDCQBu\"";
    let id = PlayableItem::from_url_or_uri(Cow::Owned(decode(json))).unwrap();

    assert!(matches!(id, PlayableItem::Track(_)));
    assert_eq!(id.as_str(), "2pDPOMX0kWA7kcPBcDCQBu");
}

#[test]
fn cannot_deserialize_playable_item_from_bare() {
    let json = "\"2pDPOMX0kWA7kcPBcDCQBu\"";
    let result = PlayableItem::from_url_or_uri(Cow::Owned(decode(json)));

    assert!(result.is_err());
}

#[test]
fn deserialize_playable_context_from_uri() {
    let json = "\"spotify:album:0tDsHtvN9YNuZjlqHvDY2P\"";
    let id = PlayableContext::from_url_or_uri(Cow::Owned(decode(json))).unwrap();

    assert!(matches!(id, PlayableContext::Album(_)));
    assert_eq!(id.as_str(), "0tDsHtvN9YNuZjlqHvDY2P");
}

#[test]
fn deserialize_playable_context_from_url() {
    let json = "\"https://open.spotify.com/album/0tDsHtvN9YNuZjlqHvDY2P\"";
    let id = PlayableContext::from_url_or_uri(Cow::Owned(decode(json))).unwrap();

    assert!(matches!(id, PlayableContext::Album(_)));
    assert_eq!(id.as_str(), "0tDsHtvN9YNuZjlqHvDY2P");
}

#[test]
fn cannot_deserialize_playable_context_from_bare() {
    let json = "\"0tDsHtvN9YNuZjlqHvDY2P\"";
    let result = PlayableContext::from_url_or_uri(Cow::Owned(decode(json)));

    assert!(result.is_err());
}

#[test]
fn deserialize_spotify_id_from_uri() {
    let json = "\"spotify:album:0tDsHtvN9YNuZjlqHvDY2P\"";
    let id = SpotifyId::from_url_or_uri(Cow::Owned(decode(json))).unwrap();

    assert!(matches!(id, SpotifyId::Context(PlayableContext::Album(_))));
    assert_eq!(id.as_str(), "0tDsHtvN9YNuZjlqHvDY2P");
}

#[test]
fn deserialize_spotify_id_from_url() {
    let json = "\"https://open.spotify.com/album/0tDsHtvN9YNuZjlqHvDY2P\"";
    let id = SpotifyId::from_url_or_uri(Cow::Owned(decode(json))).unwrap();

    assert!(matches!(id, SpotifyId::Context(PlayableContext::Album(_))));
    assert_eq!(id.as_str(), "0tDsHtvN9YNuZjlqHvDY2P");
}

#[test]
fn cannot_deserialize_spotify_id_from_bare() {
    let json = "\"0tDsHtvN9YNuZjlqHvDY2P\"";
    let result = SpotifyId::from_url_or_uri(Cow::Owned(decode(json)));

    assert!(result.is_err());
}
