//! Everything related to tracks.
//!
//! Contains the three different kinds of tracks; [FullTrack], [PartialTrack] and [LocalTrack].
//!
//! - [FullTrack]: may contain all possible information about a track. Generally retrieved from the track- and
//!   tracks-endpoints.
//! - [PartialTrack]: contains most information about a track. Generally retrieved as part of a response to, for
//!   example, an album listing.
//! - [LocalTrack]: contains only the basic information about a track. Only retrieved through a playlist that contains
//!   local tracks.

use std::borrow::Cow;
use std::collections::HashSet;
use std::time::Duration;

use vstd::prelude::*;
use vstd::std_specs::convert::FromSpecImpl;
use vstd::std_specs::convert::TryFromSpecImpl;

use super::album::PartialAlbum;
use super::artist::PartialArtist;
use super::debug_text;
use super::id::Id;
use super::id::IdTrait;
use super::id::TrackId;
use super::object_type::TypeTrack;
use super::CountryCode;
use super::ExternalIds;
use super::ExternalUrls;
use super::Restrictions;
use crate::error::ConversionError;

verus! {

/// Access to the fields every track has.
pub(crate) trait CommonFields {
    spec fn spec_common_fields(&self) -> CommonTrackFields;

    fn common_fields(&self) -> (r: &CommonTrackFields)
        ensures
            *r == self.spec_common_fields(),
    ;
}

/// Access to the fields only full tracks have.
pub(crate) trait FullFields {
    spec fn spec_full_fields(&self) -> FullTrackFields;

    fn full_fields(&self) -> (r: &FullTrackFields)
        ensures
            *r == self.spec_full_fields(),
    ;
}

/// Access to the fields only non-local tracks have.
pub(crate) trait NonLocalFields {
    spec fn spec_non_local_fields(&self) -> NonLocalTrackFields;

    fn non_local_fields(&self) -> (r: &NonLocalTrackFields)
        ensures
            *r == self.spec_non_local_fields(),
    ;
}

/// Functions for retrieving information that is common to every track type.
pub trait CommonTrackInformation: crate::private::Sealed {
    /// The track's name.
    spec fn spec_name(&self) -> Seq<char>;

    /// The artists of the track.
    spec fn spec_artists(&self) -> Seq<PartialArtist>;

    /// The track's number in its corresponding disc.
    spec fn spec_track_number(&self) -> u32;

    /// The track's disc's number.
    spec fn spec_disc_number(&self) -> u32;

    /// The track's duration.
    spec fn spec_duration(&self) -> Duration;

    /// Whether or not the track is rated as explicit.
    spec fn spec_explicit(&self) -> bool;

    /// An URL to a 30 second preview of the track.
    spec fn spec_preview_url(&self) -> Option<Seq<char>>;

    /// The external URLs for the track.
    spec fn spec_external_urls(&self) -> ExternalUrls;

    /// The countries the track is available in.
    spec fn spec_available_markets(&self) -> Set<CountryCode>;

    /// Whether or not the track is playable.
    spec fn spec_is_playable(&self) -> Option<bool>;

    /// The original track this track is linked from.
    spec fn spec_linked_from(&self) -> Option<LinkedTrack>;

    /// The restrictions on the track.
    spec fn spec_restrictions(&self) -> Restrictions;

    /// The track's name.
    fn name(&self) -> (r: &str)
        ensures
            r@ == self.spec_name(),
    ;

    /// The artists of the track.
    fn artists(&self) -> (r: &[PartialArtist])
        ensures
            r@ == self.spec_artists(),
    ;

    /// The track's number in its corresponding disc.
    fn track_number(&self) -> (r: u32)
        ensures
            r == self.spec_track_number(),
    ;

    /// The track's disc's number.
    fn disc_number(&self) -> (r: u32)
        ensures
            r == self.spec_disc_number(),
    ;

    /// The track's duration.
    fn duration(&self) -> (r: Duration)
        ensures
            r == self.spec_duration(),
    ;

    /// Whether or not the track is rated as explicit.
    fn explicit(&self) -> (r: bool)
        ensures
            r == self.spec_explicit(),
    ;

    /// An URL to a 30 second preview of the track.
    fn preview_url(&self) -> (r: Option<&str>)
        ensures
            match (r, self.spec_preview_url()) {
                (Some(url), Some(expected)) => url@ == expected,
                (None, None) => true,
                _ => false,
            },
    ;

    /// The external URLs for the track.
    fn external_urls(&self) -> (r: &ExternalUrls)
        ensures
            *r == self.spec_external_urls(),
    ;

    /// The countries the track is available in.
    fn available_markets(&self) -> (r: &HashSet<CountryCode>)
        ensures
            r@ == self.spec_available_markets(),
    ;

    /// Whether or not the track is playable.
    fn is_playable(&self) -> (r: Option<bool>)
        ensures
            r == self.spec_is_playable(),
    ;

    /// When [track relinking](https://developer.spotify.com/documentation/general/guides/track-relinking-guide/) is
    /// applied, the original track this track is linked from.
    fn linked_from(&self) -> (r: Option<&LinkedTrack>)
        ensures
            match (r, self.spec_linked_from()) {
                (Some(linked), Some(expected)) => *linked == expected,
                (None, None) => true,
                _ => false,
            },
    ;

    /// The restrictions on the track.
    fn restrictions(&self) -> (r: &Restrictions)
        ensures
            *r == self.spec_restrictions(),
    ;
}

/// Functions for retrieving information only in full tracks.
pub trait FullTrackInformation: crate::private::Sealed {
    /// The album this track is in.
    spec fn spec_album(&self) -> PartialAlbum;

    /// The external IDs for the track.
    spec fn spec_external_ids(&self) -> ExternalIds;

    /// The track's popularity.
    spec fn spec_popularity(&self) -> u32;

    /// The album this track is in.
    fn album(&self) -> (r: &PartialAlbum)
        ensures
            *r == self.spec_album(),
    ;

    /// The external IDs for the track.
    fn external_ids(&self) -> (r: &ExternalIds)
        ensures
            *r == self.spec_external_ids(),
    ;

    /// The track's popularity.
    fn popularity(&self) -> (r: u32)
        ensures
            r == self.spec_popularity(),
    ;
}

/// Functions for retrieving information that is available in non-local tracks.
pub trait NonLocalTrackInformation: crate::private::Sealed {
    /// The track's Spotify ID.
    spec fn spec_id(&self) -> Id<'static, TrackId>;

    /// The track's bare Spotify ID.
    fn id(&self) -> (r: &str)
        ensures
            r@ == self.spec_id().bare_id(),
    ;
}

impl<T> CommonTrackInformation for T where T: CommonFields + crate::private::Sealed {
    closed spec fn spec_name(&self) -> Seq<char> {
        self.spec_common_fields().name@
    }

    closed spec fn spec_artists(&self) -> Seq<PartialArtist> {
        self.spec_common_fields().artists@
    }

    closed spec fn spec_track_number(&self) -> u32 {
        self.spec_common_fields().track_number
    }

    closed spec fn spec_disc_number(&self) -> u32 {
        self.spec_common_fields().disc_number
    }

    closed spec fn spec_duration(&self) -> Duration {
        self.spec_common_fields().duration
    }

    closed spec fn spec_explicit(&self) -> bool {
        self.spec_common_fields().explicit
    }

    closed spec fn spec_preview_url(&self) -> Option<Seq<char>> {
        super::spec_opt_str(self.spec_common_fields().preview_url)
    }

    closed spec fn spec_external_urls(&self) -> ExternalUrls {
        self.spec_common_fields().external_urls
    }

    closed spec fn spec_available_markets(&self) -> Set<CountryCode> {
        self.spec_common_fields().available_markets@
    }

    closed spec fn spec_is_playable(&self) -> Option<bool> {
        self.spec_common_fields().is_playable
    }

    closed spec fn spec_linked_from(&self) -> Option<LinkedTrack> {
        self.spec_common_fields().linked_from
    }

    closed spec fn spec_restrictions(&self) -> Restrictions {
        self.spec_common_fields().restrictions
    }

    fn name(&self) -> (r: &str) {
        self.common_fields().name.as_str()
    }

    fn artists(&self) -> (r: &[PartialArtist]) {
        self.common_fields().artists.as_slice()
    }

    fn track_number(&self) -> (r: u32) {
        self.common_fields().track_number
    }

    fn disc_number(&self) -> (r: u32) {
        self.common_fields().disc_number
    }

    fn duration(&self) -> (r: Duration) {
        self.common_fields().duration.clone()
    }

    fn explicit(&self) -> (r: bool) {
        self.common_fields().explicit
    }

    fn preview_url(&self) -> (r: Option<&str>) {
        match &self.common_fields().preview_url {
            Some(url) => Some(url.as_str()),
            None => None,
        }
    }

    fn external_urls(&self) -> (r: &ExternalUrls) {
        &self.common_fields().external_urls
    }

    fn available_markets(&self) -> (r: &HashSet<CountryCode>) {
        &self.common_fields().available_markets
    }

    fn is_playable(&self) -> (r: Option<bool>) {
        self.common_fields().is_playable
    }

    fn linked_from(&self) -> (r: Option<&LinkedTrack>) {
        self.common_fields().linked_from.as_ref()
    }

    fn restrictions(&self) -> (r: &Restrictions) {
        &self.common_fields().restrictions
    }
}

impl<T> FullTrackInformation for T where T: FullFields + crate::private::Sealed {
    closed spec fn spec_album(&self) -> PartialAlbum {
        self.spec_full_fields().album
    }

    closed spec fn spec_external_ids(&self) -> ExternalIds {
        self.spec_full_fields().external_ids
    }

    closed spec fn spec_popularity(&self) -> u32 {
        self.spec_full_fields().popularity
    }

    fn album(&self) -> (r: &PartialAlbum) {
        &self.full_fields().album
    }

    fn external_ids(&self) -> (r: &ExternalIds) {
        &self.full_fields().external_ids
    }

    fn popularity(&self) -> (r: u32) {
        self.full_fields().popularity
    }
}

impl<T> NonLocalTrackInformation for T where T: NonLocalFields + crate::private::Sealed {
    closed spec fn spec_id(&self) -> Id<'static, TrackId> {
        self.spec_non_local_fields().id
    }

    fn id(&self) -> (r: &str) {
        self.non_local_fields().id.as_str()
    }
}

/// An enum that encompasses all track types.
#[derive(Debug, Clone, PartialEq, Eq)]
pub enum Track {
    Full(Box<FullTrack>),
    Partial(Box<PartialTrack>),
    Local(Box<LocalTrack>),
}

/// This struct covers all the possible track responses from Spotify's API. It converts into a [Track], depending on
/// which fields are set.
#[derive(Debug, Clone, PartialEq, Eq)]
pub struct TrackObject {
    /// Fields available in every track
    pub common: CommonTrackFields,
    /// Fields only in non-local tracks
    pub non_local: Option<NonLocalTrackFields>,
    /// Fields only in full tracks
    pub full: Option<FullTrackFields>,
}

/// The fields every track has.
#[derive(Debug, PartialEq, Eq)]
pub struct CommonTrackFields {
    pub name: String,
    pub artists: Vec<PartialArtist>,
    pub track_number: u32,
    pub disc_number: u32,
    pub duration: Duration,
    pub explicit: bool,
    pub preview_url: Option<String>,
    pub is_local: bool,
    pub external_urls: ExternalUrls,
    pub item_type: TypeTrack,
    pub available_markets: HashSet<CountryCode>,
    pub is_playable: Option<bool>,
    pub linked_from: Option<LinkedTrack>,
    pub restrictions: Restrictions,
}

/// The fields only full tracks have.
#[derive(Debug, Clone, PartialEq, Eq)]
pub struct FullTrackFields {
    pub album: PartialAlbum,
    pub external_ids: ExternalIds,
    pub popularity: u32,
}

/// The fields only non-local tracks have.
#[derive(Debug, Clone, PartialEq, Eq)]
pub struct NonLocalTrackFields {
    pub id: Id<'static, TrackId>,
}

/// A full track. Contains [full information](self::FullTrackInformation), in addition to all
/// [common](self::CommonTrackInformation) and [non-local](self::NonLocalTrackInformation) information about a track.
#[derive(Debug, Clone, PartialEq, Eq)]
pub struct FullTrack {
    common: CommonTrackFields,
    non_local: NonLocalTrackFields,
    full: FullTrackFields,
}

/// A partial track. Contains all [common](self::CommonTrackInformation) and [non-local](self::NonLocalTrackInformation)
/// information about a track.
#[derive(Debug, Clone, PartialEq, Eq)]
pub struct PartialTrack {
    common: CommonTrackFields,
    non_local: NonLocalTrackFields,
}

/// A local track. Contains only the information [common to every track](self::CommonTrackInformation).
#[derive(Debug, Clone, PartialEq, Eq)]
pub struct LocalTrack {
    common: CommonTrackFields,
}

/// Contains information about a linked track when
/// [track relinking](https://developer.spotify.com/documentation/general/guides/track-relinking-guide/) is applied
#[derive(Debug, Clone, PartialEq, Eq)]
pub struct LinkedTrack {
    pub external_urls: ExternalUrls,
    pub id: Id<'static, TrackId>,
}

/// Cloning the common fields clones each field.
impl Clone for CommonTrackFields {
    fn clone(&self) -> (r: Self) {
        CommonTrackFields {
            name: self.name.clone(),
            artists: self.artists.clone(),
            track_number: self.track_number,
            disc_number: self.disc_number,
            duration: self.duration.clone(),
            explicit: self.explicit,
            preview_url: self.preview_url.clone(),
            is_local: self.is_local,
            external_urls: self.external_urls.clone(),
            item_type: self.item_type,
            available_markets: super::clone_markets(&self.available_markets),
            is_playable: self.is_playable,
            linked_from: self.linked_from.clone(),
            restrictions: self.restrictions.clone(),
        }
    }
}

impl TrackObject {
    /// Whether the object holds the fields of a full track.
    pub fn is_full(&self) -> (r: bool)
        ensures
            r == FullTrack::from_object(*self) is Some,
    {
        self.non_local.is_some() && self.full.is_some()
    }

    /// The fields every track has.
    pub closed spec fn spec_common(&self) -> CommonTrackFields {
        self.common
    }

    /// The fields only non-local tracks have, if set.
    pub closed spec fn spec_non_local(&self) -> Option<NonLocalTrackFields> {
        self.non_local
    }

    /// The fields only full tracks have, if set.
    pub closed spec fn spec_full(&self) -> Option<FullTrackFields> {
        self.full
    }
}

impl FullTrack {
    /// The fields every track has.
    pub closed spec fn spec_common(&self) -> CommonTrackFields {
        self.common
    }

    /// The fields only non-local tracks have.
    pub closed spec fn spec_non_local(&self) -> NonLocalTrackFields {
        self.non_local
    }

    /// The fields only full tracks have.
    pub closed spec fn spec_full(&self) -> FullTrackFields {
        self.full
    }
}

impl PartialTrack {
    /// The fields every track has.
    pub closed spec fn spec_common(&self) -> CommonTrackFields {
        self.common
    }

    /// The fields only non-local tracks have.
    pub closed spec fn spec_non_local(&self) -> NonLocalTrackFields {
        self.non_local
    }

    /// The partial track that converting `obj` gives, if `obj` holds the fields of a non-local track.
    pub closed spec fn from_object(obj: TrackObject) -> Option<PartialTrack> {
        match obj.non_local {
            Some(non_local) => Some(PartialTrack { common: obj.common, non_local }),
            None => None,
        }
    }
}

impl FullTrack {
    /// The full track that converting `obj` gives, if `obj` holds the fields of a full track.
    pub closed spec fn from_object(obj: TrackObject) -> Option<FullTrack> {
        match (obj.non_local, obj.full) {
            (Some(non_local), Some(full)) => Some(FullTrack { common: obj.common, non_local, full }),
            _ => None,
        }
    }
}

impl LocalTrack {
    /// The fields every track has.
    pub closed spec fn spec_common(&self) -> CommonTrackFields {
        self.common
    }
}

impl crate::private::Sealed for FullTrack {}

impl crate::private::Sealed for PartialTrack {}

impl crate::private::Sealed for LocalTrack {}

impl CommonFields for FullTrack {
    closed spec fn spec_common_fields(&self) -> CommonTrackFields {
        self.common
    }

    fn common_fields(&self) -> (r: &CommonTrackFields) {
        &self.common
    }
}

impl CommonFields for PartialTrack {
    closed spec fn spec_common_fields(&self) -> CommonTrackFields {
        self.common
    }

    fn common_fields(&self) -> (r: &CommonTrackFields) {
        &self.common
    }
}

impl CommonFields for LocalTrack {
    closed spec fn spec_common_fields(&self) -> CommonTrackFields {
        self.common
    }

    fn common_fields(&self) -> (r: &CommonTrackFields) {
        &self.common
    }
}

impl NonLocalFields for FullTrack {
    closed spec fn spec_non_local_fields(&self) -> NonLocalTrackFields {
        self.non_local
    }

    fn non_local_fields(&self) -> (r: &NonLocalTrackFields) {
        &self.non_local
    }
}

impl NonLocalFields for PartialTrack {
    closed spec fn spec_non_local_fields(&self) -> NonLocalTrackFields {
        self.non_local
    }

    fn non_local_fields(&self) -> (r: &NonLocalTrackFields) {
        &self.non_local
    }
}

impl FullFields for FullTrack {
    closed spec fn spec_full_fields(&self) -> FullTrackFields {
        self.full
    }

    fn full_fields(&self) -> (r: &FullTrackFields) {
        &self.full
    }
}

impl TryFrom<TrackObject> for Track {
    type Error = ConversionError;

    fn try_from(obj: TrackObject) -> (r: Result<Self, Self::Error>)
        ensures
            match (obj.spec_non_local(), obj.spec_full()) {
                (Some(non_local), Some(full)) => r matches Ok(Track::Full(t)) && t.spec_common() == obj.spec_common()
                    && t.spec_non_local() == non_local && t.spec_full() == full,
                (Some(non_local), None) => r matches Ok(Track::Partial(t)) && t.spec_common() == obj.spec_common()
                    && t.spec_non_local() == non_local,
                (None, None) => r matches Ok(Track::Local(t)) && t.spec_common() == obj.spec_common(),
                (None, Some(_)) => r is Err,
            },
    {
        match (obj.non_local, obj.full) {
            (Some(non_local), Some(full)) => Ok(Track::Full(Box::new(FullTrack { common: obj.common, non_local, full }))),
            (Some(non_local), None) => Ok(Track::Partial(Box::new(PartialTrack { common: obj.common, non_local }))),
            (None, None) => Ok(Track::Local(Box::new(LocalTrack { common: obj.common }))),
            (non_local, full) => {
                let mut message = "impossible case trying to convert TrackObject into Track: non-local track fields is ".to_owned();
                message.append(debug_text(&non_local).as_str());
                message.append(" while full track fields is ");
                message.append(debug_text(&full).as_str());
                Err(ConversionError::new(Cow::Owned(message)))
            },
        }
    }
}

/// The error's message holds the debug text of the fields, which is not modelled, so the generic conversion
/// specification is not claimed; the contract of `try_from` states the outcome.
impl TryFromSpecImpl<TrackObject> for Track {
    open spec fn obeys_try_from_spec() -> bool {
        false
    }

    open spec fn try_from_spec(v: TrackObject) -> Result<Self, Self::Error> {
        arbitrary()
    }
}

impl From<PartialTrack> for Track {
    fn from(partial: PartialTrack) -> (r: Self)
        ensures
            r == Track::Partial(Box::new(partial)),
    {
        Track::Partial(Box::new(partial))
    }
}

impl FromSpecImpl<PartialTrack> for Track {
    open spec fn obeys_from_spec() -> bool {
        true
    }

    open spec fn from_spec(v: PartialTrack) -> Self {
        Track::Partial(Box::new(v))
    }
}

impl From<FullTrack> for Track {
    fn from(full: FullTrack) -> (r: Self)
        ensures
            r == Track::Full(Box::new(full)),
    {
        Track::Full(Box::new(full))
    }
}

impl FromSpecImpl<FullTrack> for Track {
    open spec fn obeys_from_spec() -> bool {
        true
    }

    open spec fn from_spec(v: FullTrack) -> Self {
        Track::Full(Box::new(v))
    }
}

impl From<LocalTrack> for Track {
    fn from(local: LocalTrack) -> (r: Self)
        ensures
            r == Track::Local(Box::new(local)),
    {
        Track::Local(Box::new(local))
    }
}

impl FromSpecImpl<LocalTrack> for Track {
    open spec fn obeys_from_spec() -> bool {
        true
    }

    open spec fn from_spec(v: LocalTrack) -> Self {
        Track::Local(Box::new(v))
    }
}

impl TryFrom<Track> for FullTrack {
    type Error = ConversionError;

    fn try_from(track: Track) -> (r: Result<Self, Self::Error>)
        ensures
            match track {
                Track::Full(full) => r == Ok::<FullTrack, ConversionError>(*full),
                Track::Partial(_) => r matches Err(e) && e.reason() == "attempt to convert partial track into full track"@,
                Track::Local(_) => r matches Err(e) && e.reason() == "attempt to convert local track into full track"@,
            },
    {
        match track {
            Track::Full(full) => Ok(*full),
            Track::Partial(_) => {
                proof {
                    reveal_strlit("attempt to convert partial track into full track");
                }
                Err(ConversionError::new(Cow::Borrowed("attempt to convert partial track into full track")))
            },
            Track::Local(_) => {
                proof {
                    reveal_strlit("attempt to convert local track into full track");
                }
                Err(ConversionError::new(Cow::Borrowed("attempt to convert local track into full track")))
            },
        }
    }
}

impl TryFromSpecImpl<Track> for FullTrack {
    open spec fn obeys_try_from_spec() -> bool {
        true
    }

    closed spec fn try_from_spec(v: Track) -> Result<Self, Self::Error> {
        match v {
            Track::Full(full) => Ok(*full),
            Track::Partial(_) => Err(ConversionError(Cow::Borrowed("attempt to convert partial track into full track"))),
            Track::Local(_) => Err(ConversionError(Cow::Borrowed("attempt to convert local track into full track"))),
        }
    }
}

/// The reason a track object that is not a full track fails to convert: the debug representations of its non-local
/// and full fields, in a fixed frame.
pub open spec fn non_full_track_reason(non_local_text: Seq<char>, full_text: Seq<char>) -> Seq<char> {
    "attempt to convert non-full track object into full track (non-local track fields is "@ + non_local_text
        + ", full track fields is "@ + full_text + ")"@
}

/// A reason of that frame, for some debug representations. These representations are not named: the full fields
/// hold a set of markets, whose debug representation lists them in an order that depends on each process's hasher.
pub open spec fn is_non_full_track_reason(reason: Seq<char>) -> bool {
    exists|a: Seq<char>, b: Seq<char>| reason == #[trigger] non_full_track_reason(a, b)
}

impl TryFrom<TrackObject> for FullTrack {
    type Error = ConversionError;

    fn try_from(obj: TrackObject) -> (r: Result<Self, Self::Error>)
        ensures
            r matches Err(e) ==> is_non_full_track_reason(e.reason()),
            match (obj.spec_non_local(), obj.spec_full()) {
                (Some(non_local), Some(full)) => r matches Ok(t) && t.spec_common() == obj.spec_common()
                    && t.spec_non_local() == non_local && t.spec_full() == full,
                _ => r is Err,
            },
            FullTrack::from_object(obj) == match r {
                Ok(t) => Some(t),
                Err(_) => None::<FullTrack>,
            },
    {
        match (obj.non_local, obj.full) {
            (Some(non_local), Some(full)) => Ok(FullTrack { common: obj.common, non_local, full }),
            (non_local, full) => {
                let mut message = "attempt to convert non-full track object into full track (non-local track fields is ".to_owned();
                let non_local_text = debug_text(&non_local);
                message.append(non_local_text.as_str());
                message.append(", full track fields is ");
                let full_text = debug_text(&full);
                message.append(full_text.as_str());
                message.append(")");
                proof {
                    reveal_strlit("attempt to convert non-full track object into full track (non-local track fields is ");
                    reveal_strlit(", full track fields is ");
                    reveal_strlit(")");
                    assert(message@ =~= non_full_track_reason(non_local_text@, full_text@));
                }
                Err(ConversionError::new(Cow::Owned(message)))
            },
        }
    }
}

/// The error's message holds the debug text of the fields, which is not modelled, so the generic conversion
/// specification is not claimed; the contract of `try_from` states the outcome.
impl TryFromSpecImpl<TrackObject> for FullTrack {
    open spec fn obeys_try_from_spec() -> bool {
        false
    }

    open spec fn try_from_spec(v: TrackObject) -> Result<Self, Self::Error> {
        arbitrary()
    }
}

impl TryFrom<Track> for PartialTrack {
    type Error = ConversionError;

    fn try_from(track: Track) -> (r: Result<Self, Self::Error>)
        ensures
            match track {
                Track::Full(full) => r matches Ok(t) && t.spec_common() == full.spec_common()
                    && t.spec_non_local() == full.spec_non_local(),
                Track::Partial(partial) => r == Ok::<PartialTrack, ConversionError>(*partial),
                Track::Local(_) => r matches Err(e) && e.reason() == "attempt to convert local track into partial track"@,
            },
    {
        match track {
            Track::Full(full) => Ok(PartialTrack { common: full.common, non_local: full.non_local }),
            Track::Partial(partial) => Ok(*partial),
            Track::Local(_) => {
                proof {
                    reveal_strlit("attempt to convert local track into partial track");
                }
                Err(ConversionError::new(Cow::Borrowed("attempt to convert local track into partial track")))
            },
        }
    }
}

impl TryFromSpecImpl<Track> for PartialTrack {
    open spec fn obeys_try_from_spec() -> bool {
        true
    }

    closed spec fn try_from_spec(v: Track) -> Result<Self, Self::Error> {
        match v {
            Track::Full(full) => Ok(PartialTrack { common: full.common, non_local: full.non_local }),
            Track::Partial(partial) => Ok(*partial),
            Track::Local(_) => Err(ConversionError(Cow::Borrowed("attempt to convert local track into partial track"))),
        }
    }
}

impl TryFrom<TrackObject> for PartialTrack {
    type Error = ConversionError;

    fn try_from(obj: TrackObject) -> (r: Result<Self, Self::Error>)
        ensures
            match obj.spec_non_local() {
                Some(non_local) => r matches Ok(t) && t.spec_common() == obj.spec_common()
                    && t.spec_non_local() == non_local,
                None => r matches Err(e) && e.reason()
                    == "attempt to convert local track object into partial track (non-local track fields is None)"@,
            },
            PartialTrack::from_object(obj) == match r {
                Ok(t) => Some(t),
                Err(_) => None::<PartialTrack>,
            },
    {
        if let Some(non_local) = obj.non_local {
            Ok(PartialTrack { common: obj.common, non_local })
        } else {
            proof {
                reveal_strlit("attempt to convert local track object into partial track (non-local track fields is None)");
            }
            Err(ConversionError::new(Cow::Borrowed(
                "attempt to convert local track object into partial track (non-local track fields is None)",
            )))
        }
    }
}

impl TryFromSpecImpl<TrackObject> for PartialTrack {
    open spec fn obeys_try_from_spec() -> bool {
        true
    }

    closed spec fn try_from_spec(v: TrackObject) -> Result<Self, Self::Error> {
        match v.non_local {
            Some(non_local) => Ok(PartialTrack { common: v.common, non_local }),
            None => Err(ConversionError(Cow::Borrowed(
                "attempt to convert local track object into partial track (non-local track fields is None)",
            ))),
        }
    }
}

impl From<Track> for LocalTrack {
    fn from(track: Track) -> (r: Self)
        ensures
            r.spec_common() == match track {
                Track::Full(full) => full.spec_common(),
                Track::Partial(partial) => partial.spec_common(),
                Track::Local(local) => local.spec_common(),
            },
    {
        match track {
            Track::Full(full) => LocalTrack { common: full.common },
            Track::Partial(partial) => LocalTrack { common: partial.common },
            Track::Local(local) => *local,
        }
    }
}

impl FromSpecImpl<Track> for LocalTrack {
    open spec fn obeys_from_spec() -> bool {
        true
    }

    closed spec fn from_spec(v: Track) -> Self {
        match v {
            Track::Full(full) => LocalTrack { common: full.common },
            Track::Partial(partial) => LocalTrack { common: partial.common },
            Track::Local(local) => *local,
        }
    }
}

impl From<TrackObject> for LocalTrack {
    fn from(obj: TrackObject) -> (r: Self)
        ensures
            r.spec_common() == obj.spec_common(),
    {
        LocalTrack { common: obj.common }
    }
}

impl FromSpecImpl<TrackObject> for LocalTrack {
    open spec fn obeys_from_spec() -> bool {
        true
    }

    closed spec fn from_spec(v: TrackObject) -> Self {
        LocalTrack { common: v.common }
    }
}

impl From<FullTrack> for TrackObject {
    fn from(value: FullTrack) -> (r: Self)
        ensures
            r.spec_common() == value.spec_common(),
            r.spec_non_local() == Some(value.spec_non_local()),
            r.spec_full() == Some(value.spec_full()),
    {
        TrackObject { common: value.common, non_local: Some(value.non_local), full: Some(value.full) }
    }
}

impl FromSpecImpl<FullTrack> for TrackObject {
    open spec fn obeys_from_spec() -> bool {
        true
    }

    closed spec fn from_spec(v: FullTrack) -> Self {
        TrackObject { common: v.common, non_local: Some(v.non_local), full: Some(v.full) }
    }
}

impl From<PartialTrack> for TrackObject {
    fn from(value: PartialTrack) -> (r: Self)
        ensures
            r.spec_common() == value.spec_common(),
            r.spec_non_local() == Some(value.spec_non_local()),
            r.spec_full() is None,
    {
        TrackObject { common: value.common, non_local: Some(value.non_local), full: None }
    }
}

impl FromSpecImpl<PartialTrack> for TrackObject {
    open spec fn obeys_from_spec() -> bool {
        true
    }

    closed spec fn from_spec(v: PartialTrack) -> Self {
        TrackObject { common: v.common, non_local: Some(v.non_local), full: None }
    }
}

impl From<LocalTrack> for TrackObject {
    fn from(value: LocalTrack) -> (r: Self)
        ensures
            r.spec_common() == value.spec_common(),
            r.spec_non_local() is None,
            r.spec_full() is None,
    {
        TrackObject { common: value.common, non_local: None, full: None }
    }
}

impl FromSpecImpl<LocalTrack> for TrackObject {
    open spec fn obeys_from_spec() -> bool {
        true
    }

    closed spec fn from_spec(v: LocalTrack) -> Self {
        TrackObject { common: v.common, non_local: None, full: None }
    }
}

/// Turning a full track into a track object and converting the object back gives the same track; an object converts into
/// a full track exactly when it holds both the non-local and the full fields.
pub proof fn law_full_track_object_round_trip(x: FullTrack, obj: TrackObject)
    ensures
        FullTrack::from_object(TrackObject {
            common: x.spec_common(),
            non_local: Some(x.spec_non_local()),
            full: Some(x.spec_full()),
        }) == Some(x),
        (FullTrack::from_object(obj) is Some) == (obj.non_local is Some && obj.full is Some),
{
}

} // verus!
