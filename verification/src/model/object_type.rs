//! The object type names Spotify writes in the `type` field of its objects.

use vstd::prelude::*;

verus! {

pub const TYPE_ALBUM: &'static str = "album";

pub const TYPE_TRACK: &'static str = "track";

pub const TYPE_ARTIST: &'static str = "artist";

pub const TYPE_USER: &'static str = "user";

/// A marker type for one of Spotify's object types.
pub trait ObjectType {
    /// The name Spotify writes in the `type` field of objects of this type.
    const OBJECT_TYPE: &'static str;
}

/// The object type of albums.
#[derive(Debug, Default, Clone, Copy, PartialEq, Eq, Structural)]
pub struct TypeAlbum;

/// The object type of tracks.
#[derive(Debug, Default, Clone, Copy, PartialEq, Eq, Structural)]
pub struct TypeTrack;

/// The object type of artists.
#[derive(Debug, Default, Clone, Copy, PartialEq, Eq, Structural)]
pub struct TypeArtist;

/// The object type of users.
#[derive(Debug, Default, Clone, Copy, PartialEq, Eq, Structural)]
pub struct TypeUser;

impl ObjectType for TypeAlbum {
    const OBJECT_TYPE: &'static str = TYPE_ALBUM;
}

impl ObjectType for TypeTrack {
    const OBJECT_TYPE: &'static str = TYPE_TRACK;
}

impl ObjectType for TypeArtist {
    const OBJECT_TYPE: &'static str = TYPE_ARTIST;
}

impl ObjectType for TypeUser {
    const OBJECT_TYPE: &'static str = TYPE_USER;
}

} // verus!
