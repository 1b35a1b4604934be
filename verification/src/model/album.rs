//! Everything related to albums.
//!
//! Contains the three different kinds of albums; [FullAlbum], [PartialAlbum] and [LocalAlbum].
//!
//! - [FullAlbum]: may contain all possible information about an album. Generally retrieved from the album- and
//!   albums-endpoints.
//! - [PartialAlbum]: contains most information about an album. Generally retrieved as part of a response to, for
//!   example, an artist listing.
//! - [LocalAlbum]: contains only the basic information about an album. Only retrieved through a playlist that contains
//!   local tracks.
//!
//! Additionally, there is the [Album] enum that encompasses all three kinds of albums.
//!
//! # Album equality
//!
//! Two albums are considered equal when their Spotify IDs are the same. However, since [LocalAlbum] doesn't have a
//! Spotify ID, it resorts to comparing all available fields.

use std::borrow::Cow;
use std::collections::HashSet;

use vstd::prelude::*;
use vstd::std_specs::convert::FromSpecImpl;
use vstd::std_specs::convert::TryFromSpecImpl;

use super::artist::NonLocalArtistInformation;
use super::artist::PartialArtist;
use super::debug_text;
use super::id::AlbumId;
use super::id::Id;
use super::id::IdTrait;
use super::object_type::TypeAlbum;
use super::page::PageObject;
use super::track::PartialTrack;
use super::track::TrackObject;
use super::Copyright;
use super::CountryCode;
use super::DatePrecision;
use super::ExternalIds;
use super::ExternalUrls;
use super::Image;
use super::Restrictions;
use crate::error::ConversionError;

verus! {

/// Access to the fields every album has.
pub(crate) trait CommonFields {
    spec fn spec_common_fields(&self) -> CommonAlbumFields;

    fn common_fields(&self) -> (r: &CommonAlbumFields)
        ensures
            *r == self.spec_common_fields(),
    ;
}

/// Access to the fields only full albums have.
pub(crate) trait FullFields {
    spec fn spec_full_fields(&self) -> FullAlbumFields;

    fn full_fields(&self) -> (r: &FullAlbumFields)
        ensures
            *r == self.spec_full_fields(),
    ;
}

/// Access to the fields only non-local albums have.
pub(crate) trait NonLocalFields {
    spec fn spec_non_local_fields(&self) -> NonLocalAlbumFields;

    fn non_local_fields(&self) -> (r: &NonLocalAlbumFields)
        ensures
            *r == self.spec_non_local_fields(),
    ;
}

/// This struct covers all the possible album responses from Spotify's API. It converts into an [Album], depending on
/// which fields are set.
#[derive(Debug, Clone, PartialEq, Eq)]
pub struct AlbumObject {
    /// Fields available in every album
    pub common: CommonAlbumFields,
    /// Fields only in non-local albums
    pub non_local: Option<NonLocalAlbumFields>,
    /// Fields only in full albums
    pub full: Option<FullAlbumFields>,
}

/// The fields every album has.
#[derive(Debug, PartialEq, Eq)]
pub struct CommonAlbumFields {
    pub name: String,
    pub artists: Vec<PartialArtist>,
    pub images: Vec<Image>,
    pub external_urls: ExternalUrls,
    pub item_type: TypeAlbum,
    pub available_markets: HashSet<CountryCode>,
    pub restrictions: Restrictions,
}

/// Cloning the common fields clones each field.
impl Clone for CommonAlbumFields {
    fn clone(&self) -> (r: Self) {
        CommonAlbumFields {
            name: self.name.clone(),
            artists: self.artists.clone(),
            images: self.images.clone(),
            external_urls: self.external_urls.clone(),
            item_type: self.item_type,
            available_markets: super::clone_markets(&self.available_markets),
            restrictions: self.restrictions.clone(),
        }
    }
}

/// The fields only full albums have.
#[derive(Debug, Clone, PartialEq, Eq)]
pub struct FullAlbumFields {
    pub copyrights: Vec<Copyright>,
    pub external_ids: ExternalIds,
    pub genres: Vec<String>,
    pub label: String,
    pub popularity: u32,
    pub tracks: AlbumTracks,
}

/// The fields only non-local albums have.
#[derive(Debug, Clone, PartialEq, Eq)]
pub struct NonLocalAlbumFields {
    pub album_type: AlbumType,
    pub id: Id<'static, AlbumId>,
    pub release_date: String,
    pub release_date_precision: DatePrecision,
}

/// A page of tracks in an album.
///
/// This object is retrieved only through the [tracks](FullAlbumInformation::tracks)-function.
#[derive(Debug, Clone, PartialEq, Eq)]
pub struct AlbumTracks {
    pub page: PageObject<TrackObject>,
}

/// Functions for retrieving information that is common to every album type.
pub trait CommonAlbumInformation: crate::private::Sealed {
    /// The album's name.
    spec fn spec_name(&self) -> Seq<char>;

    /// The artists of the album.
    spec fn spec_artists(&self) -> Seq<PartialArtist>;

    /// The images for the album.
    spec fn spec_images(&self) -> Seq<Image>;

    /// The external URLs for the album.
    spec fn spec_external_urls(&self) -> ExternalUrls;

    /// The countries the album is available in.
    spec fn spec_available_markets(&self) -> Set<CountryCode>;

    /// The restrictions on the album.
    spec fn spec_restrictions(&self) -> Restrictions;

    /// The album's name.
    fn name(&self) -> (r: &str)
        ensures
            r@ == self.spec_name(),
    ;

    /// The artists of the album.
    fn artists(&self) -> (r: &[PartialArtist])
        ensures
            r@ == self.spec_artists(),
    ;

    /// The images for the album.
    fn images(&self) -> (r: &[Image])
        ensures
            r@ == self.spec_images(),
    ;

    /// The external URLs for the album.
    fn external_urls(&self) -> (r: &ExternalUrls)
        ensures
            *r == self.spec_external_urls(),
    ;

    /// The countries the album is available in.
    fn available_markets(&self) -> (r: &HashSet<CountryCode>)
        ensures
            r@ == self.spec_available_markets(),
    ;

    /// The restrictions on the album.
    fn restrictions(&self) -> (r: &Restrictions)
        ensures
            *r == self.spec_restrictions(),
    ;
}

/// Functions for retrieving information only in full albums.
pub trait FullAlbumInformation: crate::private::Sealed {
    /// The page of tracks in the album.
    spec fn spec_tracks(&self) -> AlbumTracks;

    /// The album's copyrights.
    spec fn spec_copyrights(&self) -> Seq<Copyright>;

    /// The external IDs for the album.
    spec fn spec_external_ids(&self) -> ExternalIds;

    /// The album's genres.
    spec fn spec_genres(&self) -> Seq<String>;

    /// The album's label.
    spec fn spec_label(&self) -> Seq<char>;

    /// The album's popularity.
    spec fn spec_popularity(&self) -> u32;

    /// The tracks in the album.
    fn tracks(&self) -> (r: &AlbumTracks)
        ensures
            *r == self.spec_tracks(),
    ;

    /// The album's copyrights.
    fn copyrights(&self) -> (r: &[Copyright])
        ensures
            r@ == self.spec_copyrights(),
    ;

    /// The external IDs for the album.
    fn external_ids(&self) -> (r: &ExternalIds)
        ensures
            *r == self.spec_external_ids(),
    ;

    /// The album's genres.
    fn genres(&self) -> (r: &[String])
        ensures
            r@ == self.spec_genres(),
    ;

    /// The album's label.
    fn label(&self) -> (r: &str)
        ensures
            r@ == self.spec_label(),
    ;

    /// The album's popularity.
    fn popularity(&self) -> (r: u32)
        ensures
            r == self.spec_popularity(),
    ;
}

/// Functions for retrieving information that is available in non-local albums.
pub trait NonLocalAlbumInformation: crate::private::Sealed {
    /// The album's type.
    spec fn spec_album_type(&self) -> AlbumType;

    /// The album's Spotify ID.
    spec fn spec_id(&self) -> Id<'static, AlbumId>;

    /// The album's release date.
    spec fn spec_release_date(&self) -> Seq<char>;

    /// The album's release date's precision.
    spec fn spec_release_date_precision(&self) -> DatePrecision;

    /// The album's type.
    fn album_type(&self) -> (r: AlbumType)
        ensures
            r == self.spec_album_type(),
    ;

    /// The album's Spotify ID, borrowing from the album.
    fn id(&self) -> (r: Id<'_, AlbumId>)
        ensures
            r.text() == self.spec_id().text(),
            r.kind() == self.spec_id().kind(),
            r.borrows(),
    ;

    /// The album's release date.
    fn release_date(&self) -> (r: &str)
        ensures
            r@ == self.spec_release_date(),
    ;

    /// The album's release date's precision.
    fn release_date_precision(&self) -> (r: DatePrecision)
        ensures
            r == self.spec_release_date_precision(),
    ;
}

impl<T> CommonAlbumInformation for T where T: CommonFields + crate::private::Sealed {
    closed spec fn spec_name(&self) -> Seq<char> {
        self.spec_common_fields().name@
    }

    closed spec fn spec_artists(&self) -> Seq<PartialArtist> {
        self.spec_common_fields().artists@
    }

    closed spec fn spec_images(&self) -> Seq<Image> {
        self.spec_common_fields().images@
    }

    closed spec fn spec_external_urls(&self) -> ExternalUrls {
        self.spec_common_fields().external_urls
    }

    closed spec fn spec_available_markets(&self) -> Set<CountryCode> {
        self.spec_common_fields().available_markets@
    }

    closed spec fn spec_restrictions(&self) -> Restrictions {
        self.spec_common_fields().restrictions
    }

    fn name(&self) -> (r: &str) {
        self.common_fields().name.as_str()
    }

    fn artists(&self) -> (r: &[PartialArtist]) {
        self.common_fields().artists.as_slice()
    }

    fn images(&self) -> (r: &[Image]) {
        self.common_fields().images.as_slice()
    }

    fn external_urls(&self) -> (r: &ExternalUrls) {
        &self.common_fields().external_urls
    }

    fn available_markets(&self) -> (r: &HashSet<CountryCode>) {
        &self.common_fields().available_markets
    }

    fn restrictions(&self) -> (r: &Restrictions) {
        &self.common_fields().restrictions
    }
}

impl<T> FullAlbumInformation for T where T: FullFields + crate::private::Sealed {
    closed spec fn spec_tracks(&self) -> AlbumTracks {
        self.spec_full_fields().tracks
    }

    closed spec fn spec_copyrights(&self) -> Seq<Copyright> {
        self.spec_full_fields().copyrights@
    }

    closed spec fn spec_external_ids(&self) -> ExternalIds {
        self.spec_full_fields().external_ids
    }

    closed spec fn spec_genres(&self) -> Seq<String> {
        self.spec_full_fields().genres@
    }

    closed spec fn spec_label(&self) -> Seq<char> {
        self.spec_full_fields().label@
    }

    closed spec fn spec_popularity(&self) -> u32 {
        self.spec_full_fields().popularity
    }

    fn tracks(&self) -> (r: &AlbumTracks) {
        &self.full_fields().tracks
    }

    fn copyrights(&self) -> (r: &[Copyright]) {
        self.full_fields().copyrights.as_slice()
    }

    fn external_ids(&self) -> (r: &ExternalIds) {
        &self.full_fields().external_ids
    }

    fn genres(&self) -> (r: &[String]) {
        self.full_fields().genres.as_slice()
    }

    fn label(&self) -> (r: &str) {
        self.full_fields().label.as_str()
    }

    fn popularity(&self) -> (r: u32) {
        self.full_fields().popularity
    }
}

impl<T> NonLocalAlbumInformation for T where T: NonLocalFields + crate::private::Sealed {
    closed spec fn spec_album_type(&self) -> AlbumType {
        self.spec_non_local_fields().album_type
    }

    closed spec fn spec_id(&self) -> Id<'static, AlbumId> {
        self.spec_non_local_fields().id
    }

    closed spec fn spec_release_date(&self) -> Seq<char> {
        self.spec_non_local_fields().release_date@
    }

    closed spec fn spec_release_date_precision(&self) -> DatePrecision {
        self.spec_non_local_fields().release_date_precision
    }

    fn album_type(&self) -> (r: AlbumType) {
        self.non_local_fields().album_type
    }

    fn id(&self) -> (r: Id<'_, AlbumId>) {
        self.non_local_fields().id.as_borrowed()
    }

    fn release_date(&self) -> (r: &str) {
        self.non_local_fields().release_date.as_str()
    }

    fn release_date_precision(&self) -> (r: DatePrecision) {
        self.non_local_fields().release_date_precision
    }
}

/// An enum that encompasses all album types.
#[derive(Debug, Clone, PartialEq, Eq)]
pub enum Album {
    Full(Box<FullAlbum>),
    Partial(Box<PartialAlbum>),
    Local(Box<LocalAlbum>),
}

/// A full album. Contains [full information](self::FullAlbumInformation), in addition to all
/// [common](self::CommonAlbumInformation) and [non-local](self::NonLocalAlbumInformation) information about an album.
#[derive(Debug, Clone)]
pub struct FullAlbum {
    common: CommonAlbumFields,
    non_local: NonLocalAlbumFields,
    full: FullAlbumFields,
}

/// A partial album. Contains all [common](self::CommonAlbumInformation) and [non-local](self::NonLocalAlbumInformation)
/// information about an album.
#[derive(Debug, Clone)]
pub struct PartialAlbum {
    common: CommonAlbumFields,
    non_local: NonLocalAlbumFields,
}

/// A local album. Contains only the information [common to every album](self::CommonAlbumInformation).
#[derive(Debug, Clone)]
pub struct LocalAlbum {
    common: CommonAlbumFields,
}

/// An album's type.
#[derive(Debug, Clone, Copy, PartialEq, Eq, Structural)]
pub enum AlbumType {
    Album,
    Single,
    Compilation,
}

impl AlbumObject {
    /// Whether the object holds the fields of a full album.
    pub fn is_full(&self) -> (r: bool)
        ensures
            r == FullAlbum::from_object(*self) is Some,
    {
        self.non_local.is_some() && self.full.is_some()
    }

    /// The fields every album has.
    pub closed spec fn spec_common(&self) -> CommonAlbumFields {
        self.common
    }

    /// The fields only non-local albums have, if set.
    pub closed spec fn spec_non_local(&self) -> Option<NonLocalAlbumFields> {
        self.non_local
    }

    /// The fields only full albums have, if set.
    pub closed spec fn spec_full(&self) -> Option<FullAlbumFields> {
        self.full
    }
}

impl FullAlbum {
    /// The full album that converting `obj` gives, if `obj` holds the fields of a full album.
    pub closed spec fn from_object(obj: AlbumObject) -> Option<FullAlbum> {
        match (obj.non_local, obj.full) {
            (Some(non_local), Some(full)) => Some(FullAlbum { common: obj.common, non_local, full }),
            _ => None,
        }
    }

    /// The fields every album has.
    pub closed spec fn spec_common(&self) -> CommonAlbumFields {
        self.common
    }

    /// The fields only non-local albums have.
    pub closed spec fn spec_non_local(&self) -> NonLocalAlbumFields {
        self.non_local
    }

    /// The fields only full albums have.
    pub closed spec fn spec_full(&self) -> FullAlbumFields {
        self.full
    }
}

impl PartialAlbum {
    /// The fields every album has.
    pub closed spec fn spec_common(&self) -> CommonAlbumFields {
        self.common
    }

    /// The fields only non-local albums have.
    pub closed spec fn spec_non_local(&self) -> NonLocalAlbumFields {
        self.non_local
    }
}

impl LocalAlbum {
    /// The fields every album has.
    pub closed spec fn spec_common(&self) -> CommonAlbumFields {
        self.common
    }
}

impl crate::private::Sealed for FullAlbum {}

impl crate::private::Sealed for PartialAlbum {}

impl crate::private::Sealed for LocalAlbum {}

impl crate::private::Sealed for AlbumTracks {}

impl CommonFields for FullAlbum {
    closed spec fn spec_common_fields(&self) -> CommonAlbumFields {
        self.common
    }

    fn common_fields(&self) -> (r: &CommonAlbumFields) {
        &self.common
    }
}

impl CommonFields for PartialAlbum {
    closed spec fn spec_common_fields(&self) -> CommonAlbumFields {
        self.common
    }

    fn common_fields(&self) -> (r: &CommonAlbumFields) {
        &self.common
    }
}

impl CommonFields for LocalAlbum {
    closed spec fn spec_common_fields(&self) -> CommonAlbumFields {
        self.common
    }

    fn common_fields(&self) -> (r: &CommonAlbumFields) {
        &self.common
    }
}

impl NonLocalFields for FullAlbum {
    closed spec fn spec_non_local_fields(&self) -> NonLocalAlbumFields {
        self.non_local
    }

    fn non_local_fields(&self) -> (r: &NonLocalAlbumFields) {
        &self.non_local
    }
}

impl NonLocalFields for PartialAlbum {
    closed spec fn spec_non_local_fields(&self) -> NonLocalAlbumFields {
        self.non_local
    }

    fn non_local_fields(&self) -> (r: &NonLocalAlbumFields) {
        &self.non_local
    }
}

impl FullFields for FullAlbum {
    closed spec fn spec_full_fields(&self) -> FullAlbumFields {
        self.full
    }

    fn full_fields(&self) -> (r: &FullAlbumFields) {
        &self.full
    }
}

impl AlbumTracks {
    /// The track objects on this page.
    pub closed spec fn spec_objects(&self) -> Seq<TrackObject> {
        self.page.spec_items()
    }
}

/// The page converts its track objects into partial tracks, leaving out those that are not partial tracks.
impl super::page::PageInformation<PartialTrack> for AlbumTracks {
    closed spec fn spec_items(&self) -> Seq<PartialTrack> {
        super::page::spec_filter_map(self.page.spec_items(), |o: TrackObject| PartialTrack::from_object(o))
    }

    closed spec fn spec_next(&self) -> Option<String> {
        self.page.spec_next()
    }

    fn take_items(self) -> (r: Vec<PartialTrack>) {
        let ghost objects = self.page.spec_items();
        let ghost f = |o: TrackObject| PartialTrack::from_object(o);
        let mut out: Vec<PartialTrack> = Vec::new();
        for obj in it: self.page.into_items().into_iter()
            invariant
                it.seq() == objects,
                forall|o: TrackObject| #[trigger] f(o) == PartialTrack::from_object(o),
                out@ == super::page::spec_filter_map(objects.take(it.index()), f),
        {
            let ghost k = it.index();
            let ghost o = obj;
            assert(o == objects[k]);
            let converted = PartialTrack::try_from(obj);
            proof {
                assert(objects.take(k + 1).drop_last() =~= objects.take(k));
                assert(objects.take(k + 1).last() == o);
                assert(f(o) == PartialTrack::from_object(o));
            }
            match converted {
                Ok(track) => out.push(track),
                Err(_) => {},
            }
        }
        proof {
            assert(objects.take(objects.len() as int) =~= objects);
            assert(f =~= |o: TrackObject| PartialTrack::from_object(o));
        }
        out
    }

    fn next(self) -> (r: Option<String>) {
        self.page.into_next()
    }
}

impl TryFrom<AlbumObject> for Album {
    type Error = ConversionError;

    fn try_from(obj: AlbumObject) -> (r: Result<Self, Self::Error>)
        ensures
            match (obj.spec_non_local(), obj.spec_full()) {
                (Some(non_local), Some(full)) => r matches Ok(Album::Full(t)) && t.spec_common() == obj.spec_common()
                    && t.spec_non_local() == non_local && t.spec_full() == full,
                (Some(non_local), None) => r matches Ok(Album::Partial(t)) && t.spec_common() == obj.spec_common()
                    && t.spec_non_local() == non_local,
                (None, None) => r matches Ok(Album::Local(t)) && t.spec_common() == obj.spec_common(),
                (None, Some(_)) => r is Err,
            },
    {
        match (obj.non_local, obj.full) {
            (Some(non_local), Some(full)) => Ok(Album::Full(Box::new(FullAlbum { common: obj.common, non_local, full }))),
            (Some(non_local), None) => Ok(Album::Partial(Box::new(PartialAlbum { common: obj.common, non_local }))),
            (None, None) => Ok(Album::Local(Box::new(LocalAlbum { common: obj.common }))),
            (non_local, full) => {
                let mut message = "impossible case trying to convert AlbumObject into Album: non-local album fields is ".to_owned();
                message.append(debug_text(&non_local).as_str());
                message.append(" while full album fields is ");
                message.append(debug_text(&full).as_str());
                Err(ConversionError::new(Cow::Owned(message)))
            },
        }
    }
}

/// The error's message holds the debug text of the fields, which is not modelled, so the generic conversion
/// specification is not claimed; the contract of `try_from` states the outcome.
impl TryFromSpecImpl<AlbumObject> for Album {
    open spec fn obeys_try_from_spec() -> bool {
        false
    }

    open spec fn try_from_spec(v: AlbumObject) -> Result<Self, Self::Error> {
        arbitrary()
    }
}

impl From<PartialAlbum> for Album {
    fn from(partial: PartialAlbum) -> (r: Self)
        ensures
            r == Album::Partial(Box::new(partial)),
    {
        Album::Partial(Box::new(partial))
    }
}

impl FromSpecImpl<PartialAlbum> for Album {
    open spec fn obeys_from_spec() -> bool {
        true
    }

    open spec fn from_spec(v: PartialAlbum) -> Self {
        Album::Partial(Box::new(v))
    }
}

impl From<FullAlbum> for Album {
    fn from(full: FullAlbum) -> (r: Self)
        ensures
            r == Album::Full(Box::new(full)),
    {
        Album::Full(Box::new(full))
    }
}

impl FromSpecImpl<FullAlbum> for Album {
    open spec fn obeys_from_spec() -> bool {
        true
    }

    open spec fn from_spec(v: FullAlbum) -> Self {
        Album::Full(Box::new(v))
    }
}

impl From<LocalAlbum> for Album {
    fn from(local: LocalAlbum) -> (r: Self)
        ensures
            r == Album::Local(Box::new(local)),
    {
        Album::Local(Box::new(local))
    }
}

impl FromSpecImpl<LocalAlbum> for Album {
    open spec fn obeys_from_spec() -> bool {
        true
    }

    open spec fn from_spec(v: LocalAlbum) -> Self {
        Album::Local(Box::new(v))
    }
}

impl TryFrom<Album> for FullAlbum {
    type Error = ConversionError;

    fn try_from(album: Album) -> (r: Result<Self, Self::Error>)
        ensures
            match album {
                Album::Full(full) => r == Ok::<FullAlbum, ConversionError>(*full),
                Album::Partial(_) => r matches Err(e) && e.reason() == "attempt to convert partial album into full album"@,
                Album::Local(_) => r matches Err(e) && e.reason() == "attempt to convert local album into full album"@,
            },
    {
        match album {
            Album::Full(full) => Ok(*full),
            Album::Partial(_) => {
                proof {
                    reveal_strlit("attempt to convert partial album into full album");
                }
                Err(ConversionError::new(Cow::Borrowed("attempt to convert partial album into full album")))
            },
            Album::Local(_) => {
                proof {
                    reveal_strlit("attempt to convert local album into full album");
                }
                Err(ConversionError::new(Cow::Borrowed("attempt to convert local album into full album")))
            },
        }
    }
}

impl TryFromSpecImpl<Album> for FullAlbum {
    open spec fn obeys_try_from_spec() -> bool {
        true
    }

    closed spec fn try_from_spec(v: Album) -> Result<Self, Self::Error> {
        match v {
            Album::Full(full) => Ok(*full),
            Album::Partial(_) => Err(ConversionError(Cow::Borrowed("attempt to convert partial album into full album"))),
            Album::Local(_) => Err(ConversionError(Cow::Borrowed("attempt to convert local album into full album"))),
        }
    }
}

impl TryFrom<AlbumObject> for FullAlbum {
    type Error = ConversionError;

    fn try_from(obj: AlbumObject) -> (r: Result<Self, Self::Error>)
        ensures
            match (obj.spec_non_local(), obj.spec_full()) {
                (Some(non_local), Some(full)) => r matches Ok(t) && t.spec_common() == obj.spec_common()
                    && t.spec_non_local() == non_local && t.spec_full() == full,
                _ => r is Err,
            },
            FullAlbum::from_object(obj) == match r {
                Ok(x) => Some(x),
                Err(_) => None::<FullAlbum>,
            },
    {
        match (obj.non_local, obj.full) {
            (Some(non_local), Some(full)) => Ok(FullAlbum { common: obj.common, non_local, full }),
            (non_local, full) => {
                let mut message = "attempt to convert non-full album object into full album (non-local album fields is ".to_owned();
                message.append(debug_text(&non_local).as_str());
                message.append(", full album fields is ");
                message.append(debug_text(&full).as_str());
                message.append(")");
                Err(ConversionError::new(Cow::Owned(message)))
            },
        }
    }
}

/// The error's message holds the debug text of the fields, which is not modelled, so the generic conversion
/// specification is not claimed; the contract of `try_from` states the outcome.
impl TryFromSpecImpl<AlbumObject> for FullAlbum {
    open spec fn obeys_try_from_spec() -> bool {
        false
    }

    open spec fn try_from_spec(v: AlbumObject) -> Result<Self, Self::Error> {
        arbitrary()
    }
}

impl TryFrom<Album> for PartialAlbum {
    type Error = ConversionError;

    fn try_from(album: Album) -> (r: Result<Self, Self::Error>)
        ensures
            match album {
                Album::Full(full) => r matches Ok(t) && t.spec_common() == full.spec_common()
                    && t.spec_non_local() == full.spec_non_local(),
                Album::Partial(partial) => r == Ok::<PartialAlbum, ConversionError>(*partial),
                Album::Local(_) => r matches Err(e) && e.reason() == "attempt to convert local album into partial album"@,
            },
    {
        match album {
            Album::Full(full) => Ok(PartialAlbum { common: full.common, non_local: full.non_local }),
            Album::Partial(partial) => Ok(*partial),
            Album::Local(_) => {
                proof {
                    reveal_strlit("attempt to convert local album into partial album");
                }
                Err(ConversionError::new(Cow::Borrowed("attempt to convert local album into partial album")))
            },
        }
    }
}

impl TryFromSpecImpl<Album> for PartialAlbum {
    open spec fn obeys_try_from_spec() -> bool {
        true
    }

    closed spec fn try_from_spec(v: Album) -> Result<Self, Self::Error> {
        match v {
            Album::Full(full) => Ok(PartialAlbum { common: full.common, non_local: full.non_local }),
            Album::Partial(partial) => Ok(*partial),
            Album::Local(_) => Err(ConversionError(Cow::Borrowed("attempt to convert local album into partial album"))),
        }
    }
}

impl TryFrom<AlbumObject> for PartialAlbum {
    type Error = ConversionError;

    fn try_from(obj: AlbumObject) -> (r: Result<Self, Self::Error>)
        ensures
            match obj.spec_non_local() {
                Some(non_local) => r matches Ok(t) && t.spec_common() == obj.spec_common()
                    && t.spec_non_local() == non_local,
                None => r matches Err(e) && e.reason()
                    == "attempt to convert local album object into partial album (non-local album fields is None)"@,
            },
    {
        if let Some(non_local) = obj.non_local {
            Ok(PartialAlbum { common: obj.common, non_local })
        } else {
            proof {
                reveal_strlit("attempt to convert local album object into partial album (non-local album fields is None)");
            }
            Err(ConversionError::new(Cow::Borrowed(
                "attempt to convert local album object into partial album (non-local album fields is None)",
            )))
        }
    }
}

impl TryFromSpecImpl<AlbumObject> for PartialAlbum {
    open spec fn obeys_try_from_spec() -> bool {
        true
    }

    closed spec fn try_from_spec(v: AlbumObject) -> Result<Self, Self::Error> {
        match v.non_local {
            Some(non_local) => Ok(PartialAlbum { common: v.common, non_local }),
            None => Err(ConversionError(Cow::Borrowed(
                "attempt to convert local album object into partial album (non-local album fields is None)",
            ))),
        }
    }
}

impl From<Album> for LocalAlbum {
    fn from(album: Album) -> (r: Self)
        ensures
            r.spec_common() == match album {
                Album::Full(full) => full.spec_common(),
                Album::Partial(partial) => partial.spec_common(),
                Album::Local(local) => local.spec_common(),
            },
    {
        match album {
            Album::Full(full) => LocalAlbum { common: full.common },
            Album::Partial(partial) => LocalAlbum { common: partial.common },
            Album::Local(local) => *local,
        }
    }
}

impl FromSpecImpl<Album> for LocalAlbum {
    open spec fn obeys_from_spec() -> bool {
        true
    }

    closed spec fn from_spec(v: Album) -> Self {
        match v {
            Album::Full(full) => LocalAlbum { common: full.common },
            Album::Partial(partial) => LocalAlbum { common: partial.common },
            Album::Local(local) => *local,
        }
    }
}

impl From<AlbumObject> for LocalAlbum {
    fn from(obj: AlbumObject) -> (r: Self)
        ensures
            r.spec_common() == obj.spec_common(),
    {
        LocalAlbum { common: obj.common }
    }
}

impl FromSpecImpl<AlbumObject> for LocalAlbum {
    open spec fn obeys_from_spec() -> bool {
        true
    }

    closed spec fn from_spec(v: AlbumObject) -> Self {
        LocalAlbum { common: v.common }
    }
}

impl From<FullAlbum> for AlbumObject {
    fn from(value: FullAlbum) -> (r: Self)
        ensures
            r.spec_common() == value.spec_common(),
            r.spec_non_local() == Some(value.spec_non_local()),
            r.spec_full() == Some(value.spec_full()),
    {
        AlbumObject { common: value.common, non_local: Some(value.non_local), full: Some(value.full) }
    }
}

impl FromSpecImpl<FullAlbum> for AlbumObject {
    open spec fn obeys_from_spec() -> bool {
        true
    }

    closed spec fn from_spec(v: FullAlbum) -> Self {
        AlbumObject { common: v.common, non_local: Some(v.non_local), full: Some(v.full) }
    }
}

impl From<PartialAlbum> for AlbumObject {
    fn from(value: PartialAlbum) -> (r: Self)
        ensures
            r.spec_common() == value.spec_common(),
            r.spec_non_local() == Some(value.spec_non_local()),
            r.spec_full() is None,
    {
        AlbumObject { common: value.common, non_local: Some(value.non_local), full: None }
    }
}

impl FromSpecImpl<PartialAlbum> for AlbumObject {
    open spec fn obeys_from_spec() -> bool {
        true
    }

    closed spec fn from_spec(v: PartialAlbum) -> Self {
        AlbumObject { common: v.common, non_local: Some(v.non_local), full: None }
    }
}

impl From<LocalAlbum> for AlbumObject {
    fn from(value: LocalAlbum) -> (r: Self)
        ensures
            r.spec_common() == value.spec_common(),
            r.spec_non_local() is None,
            r.spec_full() is None,
    {
        AlbumObject { common: value.common, non_local: None, full: None }
    }
}

impl FromSpecImpl<LocalAlbum> for AlbumObject {
    open spec fn obeys_from_spec() -> bool {
        true
    }

    closed spec fn from_spec(v: LocalAlbum) -> Self {
        AlbumObject { common: v.common, non_local: None, full: None }
    }
}

/// Albums with Spotify IDs are equal when their IDs are.
impl PartialEq<FullAlbum> for FullAlbum {
    fn eq(&self, other: &FullAlbum) -> (r: bool) {
        self.id() == other.id()
    }
}

impl vstd::std_specs::cmp::PartialEqSpecImpl<FullAlbum> for FullAlbum {
    open spec fn obeys_eq_spec() -> bool {
        true
    }

    open spec fn eq_spec(&self, other: &FullAlbum) -> bool {
        self.spec_id().text() == other.spec_id().text() && self.spec_id().kind() == other.spec_id().kind()
    }
}

/// Albums with Spotify IDs are equal when their IDs are.
impl PartialEq<PartialAlbum> for PartialAlbum {
    fn eq(&self, other: &PartialAlbum) -> (r: bool) {
        self.id() == other.id()
    }
}

impl vstd::std_specs::cmp::PartialEqSpecImpl<PartialAlbum> for PartialAlbum {
    open spec fn obeys_eq_spec() -> bool {
        true
    }

    open spec fn eq_spec(&self, other: &PartialAlbum) -> bool {
        self.spec_id().text() == other.spec_id().text() && self.spec_id().kind() == other.spec_id().kind()
    }
}

/// Albums with Spotify IDs are equal when their IDs are.
impl PartialEq<PartialAlbum> for FullAlbum {
    fn eq(&self, other: &PartialAlbum) -> (r: bool) {
        self.id() == other.id()
    }
}

impl vstd::std_specs::cmp::PartialEqSpecImpl<PartialAlbum> for FullAlbum {
    open spec fn obeys_eq_spec() -> bool {
        true
    }

    open spec fn eq_spec(&self, other: &PartialAlbum) -> bool {
        self.spec_id().text() == other.spec_id().text() && self.spec_id().kind() == other.spec_id().kind()
    }
}

/// Albums with Spotify IDs are equal when their IDs are.
impl PartialEq<FullAlbum> for PartialAlbum {
    fn eq(&self, other: &FullAlbum) -> (r: bool) {
        self.id() == other.id()
    }
}

impl vstd::std_specs::cmp::PartialEqSpecImpl<FullAlbum> for PartialAlbum {
    open spec fn obeys_eq_spec() -> bool {
        true
    }

    open spec fn eq_spec(&self, other: &FullAlbum) -> bool {
        self.spec_id().text() == other.spec_id().text() && self.spec_id().kind() == other.spec_id().kind()
    }
}

impl Eq for FullAlbum {}

impl Eq for PartialAlbum {}

/// Two partial artists have the same Spotify ID.
pub open spec fn same_artist(x: PartialArtist, y: PartialArtist) -> bool {
    NonLocalArtistInformation::spec_id(&x).text() == NonLocalArtistInformation::spec_id(&y).text()
        && NonLocalArtistInformation::spec_id(&x).kind() == NonLocalArtistInformation::spec_id(&y).kind()
}

/// Two lists of partial artists are equal, artist by artist.
pub open spec fn same_artists(a: Seq<PartialArtist>, b: Seq<PartialArtist>) -> bool {
    a.len() == b.len() && forall|i: int| 0 <= i < a.len() ==> #[trigger] same_artist(a[i], b[i])
}

/// Whether two lists of partial artists are equal, artist by artist.
fn artists_eq(a: &Vec<PartialArtist>, b: &Vec<PartialArtist>) -> (r: bool)
    ensures
        r == same_artists(a@, b@),
{
    if a.len() != b.len() {
        return false;
    }
    let mut i: usize = 0;
    while i < a.len()
        invariant
            a@.len() == b@.len(),
            i <= a@.len(),
            forall|j: int| 0 <= j < i ==> #[trigger] same_artist(a@[j], b@[j]),
        decreases a@.len() - i,
    {
        if !(a[i] == b[i]) {
            assert(!same_artist(a@[i as int], b@[i as int]));
            return false;
        }
        i = i + 1;
    }
    true
}

impl CommonAlbumFields {
    /// Whether two sets of common fields hold the same values (the object type is always the same).
    pub closed spec fn same_fields(&self, other: &Self) -> bool {
        &&& self.name@ == other.name@
        &&& same_artists(self.artists@, other.artists@)
        &&& super::same_images(self.images@, other.images@)
        &&& super::spec_opt_str(self.external_urls.spotify) == super::spec_opt_str(other.external_urls.spotify)
        &&& self.available_markets@ == other.available_markets@
        &&& super::spec_opt_str(self.restrictions.reason) == super::spec_opt_str(other.restrictions.reason)
    }

    /// Whether two sets of common fields hold the same values.
    fn fields_eq(&self, other: &Self) -> (r: bool)
        ensures
            r == self.same_fields(other),
    {
        crate::model::id::str_eq(self.name.as_str(), other.name.as_str()) && artists_eq(&self.artists, &other.artists)
            && super::images_eq(&self.images, &other.images) && self.external_urls == other.external_urls
            && super::markets_eq(&self.available_markets, &other.available_markets) && self.restrictions
            == other.restrictions
    }
}

/// A local album has no Spotify ID, so it is equal to another album when all their common fields are.
impl PartialEq<LocalAlbum> for LocalAlbum {
    fn eq(&self, other: &LocalAlbum) -> (r: bool) {
        self.common.fields_eq(&other.common)
    }
}

impl vstd::std_specs::cmp::PartialEqSpecImpl<LocalAlbum> for LocalAlbum {
    open spec fn obeys_eq_spec() -> bool {
        true
    }

    open spec fn eq_spec(&self, other: &LocalAlbum) -> bool {
        self.spec_common().same_fields(&other.spec_common())
    }
}

/// A local album has no Spotify ID, so it is equal to another album when all their common fields are.
impl PartialEq<LocalAlbum> for FullAlbum {
    fn eq(&self, other: &LocalAlbum) -> (r: bool) {
        self.common.fields_eq(&other.common)
    }
}

impl vstd::std_specs::cmp::PartialEqSpecImpl<LocalAlbum> for FullAlbum {
    open spec fn obeys_eq_spec() -> bool {
        true
    }

    open spec fn eq_spec(&self, other: &LocalAlbum) -> bool {
        self.spec_common().same_fields(&other.spec_common())
    }
}

/// A local album has no Spotify ID, so it is equal to another album when all their common fields are.
impl PartialEq<LocalAlbum> for PartialAlbum {
    fn eq(&self, other: &LocalAlbum) -> (r: bool) {
        self.common.fields_eq(&other.common)
    }
}

impl vstd::std_specs::cmp::PartialEqSpecImpl<LocalAlbum> for PartialAlbum {
    open spec fn obeys_eq_spec() -> bool {
        true
    }

    open spec fn eq_spec(&self, other: &LocalAlbum) -> bool {
        self.spec_common().same_fields(&other.spec_common())
    }
}

/// A local album has no Spotify ID, so it is equal to another album when all their common fields are.
impl PartialEq<FullAlbum> for LocalAlbum {
    fn eq(&self, other: &FullAlbum) -> (r: bool) {
        self.common.fields_eq(&other.common)
    }
}

impl vstd::std_specs::cmp::PartialEqSpecImpl<FullAlbum> for LocalAlbum {
    open spec fn obeys_eq_spec() -> bool {
        true
    }

    open spec fn eq_spec(&self, other: &FullAlbum) -> bool {
        self.spec_common().same_fields(&other.spec_common())
    }
}

/// A local album has no Spotify ID, so it is equal to another album when all their common fields are.
impl PartialEq<PartialAlbum> for LocalAlbum {
    fn eq(&self, other: &PartialAlbum) -> (r: bool) {
        self.common.fields_eq(&other.common)
    }
}

impl vstd::std_specs::cmp::PartialEqSpecImpl<PartialAlbum> for LocalAlbum {
    open spec fn obeys_eq_spec() -> bool {
        true
    }

    open spec fn eq_spec(&self, other: &PartialAlbum) -> bool {
        self.spec_common().same_fields(&other.spec_common())
    }
}

impl Eq for LocalAlbum {}

/// Turning a full album into a album object and converting the object back gives the same album; an object converts into
/// a full album exactly when it holds both the non-local and the full fields.
pub proof fn law_full_album_object_round_trip(x: FullAlbum, obj: AlbumObject)
    ensures
        FullAlbum::from_object(AlbumObject {
            common: x.spec_common(),
            non_local: Some(x.spec_non_local()),
            full: Some(x.spec_full()),
        }) == Some(x),
        (FullAlbum::from_object(obj) is Some) == (obj.non_local is Some && obj.full is Some),
{
}


/// The items of a page of an album's tracks are its track objects that convert into PartialTrack values, in order: every item is the
/// conversion of one of the page's objects, there are never more items than objects, there is an item exactly when
/// some object converts, and when every object converts each one becomes the item at its own position.
pub proof fn law_album_tracks_page_items(page: AlbumTracks)
    ensures
        super::page::PageInformation::<PartialTrack>::spec_items(&page) == super::page::spec_filter_map(page.spec_objects(), |o: TrackObject| PartialTrack::from_object(o)),
        super::page::PageInformation::<PartialTrack>::spec_items(&page).len() <= page.spec_objects().len(),
        forall|j: int|
            #![trigger super::page::PageInformation::<PartialTrack>::spec_items(&page)[j]]
            0 <= j < super::page::PageInformation::<PartialTrack>::spec_items(&page).len() ==> exists|i: int|
                0 <= i < page.spec_objects().len() && PartialTrack::from_object(#[trigger] page.spec_objects()[i]) == Some(
                    super::page::PageInformation::<PartialTrack>::spec_items(&page)[j],
                ),
        (super::page::PageInformation::<PartialTrack>::spec_items(&page).len() > 0) == (exists|i: int|
            0 <= i < page.spec_objects().len() && (PartialTrack::from_object(#[trigger] page.spec_objects()[i])) is Some),
        (forall|i: int| 0 <= i < page.spec_objects().len() ==> (PartialTrack::from_object(#[trigger] page.spec_objects()[i])) is Some)
            ==> super::page::PageInformation::<PartialTrack>::spec_items(&page).len() == page.spec_objects().len() && forall|i: int|
            0 <= i < page.spec_objects().len() ==> PartialTrack::from_object(#[trigger] page.spec_objects()[i]) == Some(
                super::page::PageInformation::<PartialTrack>::spec_items(&page)[i],
            ),
{
    let objects = page.spec_objects();
    let f = |o: TrackObject| PartialTrack::from_object(o);
    super::page::lemma_filter_map_from_items(objects, f);
    super::page::lemma_filter_map_nonempty(objects, f);
    if exists|i: int| 0 <= i < objects.len() && (PartialTrack::from_object(#[trigger] objects[i])) is Some {
        let i = choose|i: int| 0 <= i < objects.len() && (PartialTrack::from_object(#[trigger] objects[i])) is Some;
        assert(f(objects[i]) is Some);
    }
    if exists|i: int| 0 <= i < objects.len() && (#[trigger] f(objects[i])) is Some {
        let i = choose|i: int| 0 <= i < objects.len() && (#[trigger] f(objects[i])) is Some;
        assert((PartialTrack::from_object(objects[i])) is Some);
    }
    if forall|i: int| 0 <= i < objects.len() ==> (#[trigger] f(objects[i])) is Some {
        super::page::lemma_filter_map_all(objects, f);
    }
}

} // verus!
