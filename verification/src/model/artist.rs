//! Everything related to artists.
//!
//! Contains the three different kinds of artists; [FullArtist], [PartialArtist] and [LocalArtist].
//!
//! - [FullArtist]: may contain all possible information about an artist. Generally retrieved from the artist- and
//!   artists-endpoints.
//! - [PartialArtist]: contains most information about an artist. Generally retrieved as part of a response to, for
//!   example, a track listing.
//! - [LocalArtist]: contains only the basic information about an artist. Only retrieved through a playlist that
//!   contains local tracks.
//!
//! Additionally, there is the [Artist] enum that encompasses all three kinds of artists.
//!
//! # Artist equality
//!
//! Two artists are considered equal when their Spotify IDs are the same.

use vstd::prelude::*;

use super::id::ArtistId;
use super::id::Id;
use super::id::IdTrait;
use super::object_type::TypeArtist;
use super::ExternalUrls;
use super::Image;
use crate::error::ConversionError;
use super::debug_text;
use std::borrow::Cow;
use vstd::std_specs::convert::FromSpecImpl;
use vstd::std_specs::convert::TryFromSpecImpl;

verus! {

/// This struct covers all the possible artist responses from Spotify's API. It converts into an [Artist], depending on
/// which fields are set.
#[derive(Debug, Clone, PartialEq, Eq)]
pub struct ArtistObject {
    /// Fields available in every artist
    pub common: CommonArtistFields,
    /// Fields only in non-local artist
    pub non_local: Option<NonLocalArtistFields>,
    /// Fields only in full artist
    pub full: Option<FullArtistFields>,
}

/// The fields every artist has.
#[derive(Debug, Clone)]
pub struct CommonArtistFields {
    pub name: String,
    pub external_urls: ExternalUrls,
    pub item_type: TypeArtist,
}

/// The fields only full artists have.
#[derive(Debug, Clone, PartialEq, Eq)]
pub struct FullArtistFields {
    pub genres: Vec<String>,
    pub images: Vec<Image>,
    pub popularity: u32,
}

/// The fields only non-local artists have.
#[derive(Debug, Clone, PartialEq, Eq)]
pub struct NonLocalArtistFields {
    pub id: Id<'static, ArtistId>,
}

/// Functions for retrieving information that is common to every artist type.
pub trait CommonArtistInformation: crate::private::Sealed {
    /// The artist's name.
    spec fn spec_name(&self) -> Seq<char>;

    /// The external URLs for the artist.
    spec fn spec_external_urls(&self) -> ExternalUrls;

    /// The artist's name.
    fn name(&self) -> (r: &str)
        ensures
            r@ == self.spec_name(),
    ;

    /// The external URLs for the artist.
    fn external_urls(&self) -> (r: &ExternalUrls)
        ensures
            *r == self.spec_external_urls(),
    ;
}

/// Functions for retrieving information only in full artists.
pub trait FullArtistInformation: crate::private::Sealed {
    /// Genres the artist is associated with.
    spec fn spec_genres(&self) -> Seq<String>;

    /// Images for the artist.
    spec fn spec_images(&self) -> Seq<Image>;

    /// The artist's popularity.
    spec fn spec_popularity(&self) -> u32;

    /// Genres the artist is associated with.
    fn genres(&self) -> (r: &[String])
        ensures
            r@ == self.spec_genres(),
    ;

    /// Images for the artist.
    fn images(&self) -> (r: &[Image])
        ensures
            r@ == self.spec_images(),
    ;

    /// The artist's popularity.
    fn popularity(&self) -> (r: u32)
        ensures
            r == self.spec_popularity(),
    ;
}

/// Functions for retrieving information that is available in non-local artists.
pub trait NonLocalArtistInformation: crate::private::Sealed {
    /// The artist's Spotify ID.
    spec fn spec_id(&self) -> Id<'static, ArtistId>;

    /// The artist's Spotify ID, borrowing from the artist.
    fn id(&self) -> (r: Id<'_, ArtistId>)
        ensures
            r.text() == self.spec_id().text(),
            r.kind() == self.spec_id().kind(),
            r.borrows(),
    ;
}

/// An enum that encompasses all artist types.
#[derive(Debug, Clone, PartialEq, Eq)]
pub enum Artist {
    Full(Box<FullArtist>),
    Partial(Box<PartialArtist>),
    Local(Box<LocalArtist>),
}

/// A full artist. Contains [full information](self::FullArtistInformation), in addition to all
/// [common](self::CommonArtistInformation) and [non-local](self::NonLocalArtistInformation) information about an
/// artist.
#[derive(Debug, Clone, Eq)]
pub struct FullArtist {
    common: CommonArtistFields,
    non_local: NonLocalArtistFields,
    full: FullArtistFields,
}

/// A partial artist. Contains all [common](self::CommonArtistInformation) and
/// [non-local](self::NonLocalArtistInformation) information about an artist.
#[derive(Debug, Clone, Eq)]
pub struct PartialArtist {
    common: CommonArtistFields,
    non_local: NonLocalArtistFields,
}

/// A local artist. Contains only the information [common to every artist](self::CommonArtistInformation).
#[derive(Debug, Clone, Eq)]
pub struct LocalArtist {
    common: CommonArtistFields,
}

impl ArtistObject {
    /// Whether the object holds the fields of a full artist.
    pub fn is_full(&self) -> (r: bool)
        ensures
            r == FullArtist::from_object(*self) is Some,
    {
        self.non_local.is_some() && self.full.is_some()
    }

    /// The fields every artist has.
    pub closed spec fn spec_common(&self) -> CommonArtistFields {
        self.common
    }

    /// The fields only non-local artists have, if set.
    pub closed spec fn spec_non_local(&self) -> Option<NonLocalArtistFields> {
        self.non_local
    }

    /// The fields only full artists have, if set.
    pub closed spec fn spec_full(&self) -> Option<FullArtistFields> {
        self.full
    }
}

impl FullArtist {
    /// The full artist that converting `obj` gives, if `obj` holds the fields of a full artist.
    pub closed spec fn from_object(obj: ArtistObject) -> Option<FullArtist> {
        match (obj.non_local, obj.full) {
            (Some(non_local), Some(full)) => Some(FullArtist { common: obj.common, non_local, full }),
            _ => None,
        }
    }

    /// The fields every artist has.
    pub closed spec fn spec_common(&self) -> CommonArtistFields {
        self.common
    }

    /// The fields only non-local artists have.
    pub closed spec fn spec_non_local(&self) -> NonLocalArtistFields {
        self.non_local
    }

    /// The fields only full artists have.
    pub closed spec fn spec_full(&self) -> FullArtistFields {
        self.full
    }
}

impl PartialArtist {
    /// The fields every artist has.
    pub closed spec fn spec_common(&self) -> CommonArtistFields {
        self.common
    }

    /// The fields only non-local artists have.
    pub closed spec fn spec_non_local(&self) -> NonLocalArtistFields {
        self.non_local
    }
}

impl LocalArtist {
    /// The fields every artist has.
    pub closed spec fn spec_common(&self) -> CommonArtistFields {
        self.common
    }
}

impl CommonArtistFields {
    /// Whether two sets of common fields hold the same name and external URLs (the object type is always the same).
    pub closed spec fn same_fields(&self, other: &Self) -> bool {
        self.name@ == other.name@ && super::spec_opt_str(self.external_urls.spotify) == super::spec_opt_str(
            other.external_urls.spotify,
        )
    }
}

/// Two sets of common artist fields are equal when all their fields are.
impl PartialEq for CommonArtistFields {
    fn eq(&self, other: &Self) -> (r: bool) {
        self.name == other.name && self.external_urls == other.external_urls && self.item_type == other.item_type
    }
}

impl vstd::std_specs::cmp::PartialEqSpecImpl for CommonArtistFields {
    open spec fn obeys_eq_spec() -> bool {
        true
    }

    open spec fn eq_spec(&self, other: &Self) -> bool {
        self.same_fields(other)
    }
}

impl Eq for CommonArtistFields {}

impl crate::private::Sealed for FullArtist {}

impl crate::private::Sealed for PartialArtist {}

impl crate::private::Sealed for LocalArtist {}

impl CommonArtistInformation for FullArtist {
    closed spec fn spec_name(&self) -> Seq<char> {
        self.common.name@
    }

    closed spec fn spec_external_urls(&self) -> ExternalUrls {
        self.common.external_urls
    }

    fn name(&self) -> (r: &str) {
        self.common.name.as_str()
    }

    fn external_urls(&self) -> (r: &ExternalUrls) {
        &self.common.external_urls
    }
}

impl FullArtistInformation for FullArtist {
    closed spec fn spec_genres(&self) -> Seq<String> {
        self.full.genres@
    }

    closed spec fn spec_images(&self) -> Seq<Image> {
        self.full.images@
    }

    closed spec fn spec_popularity(&self) -> u32 {
        self.full.popularity
    }

    fn genres(&self) -> (r: &[String]) {
        self.full.genres.as_slice()
    }

    fn images(&self) -> (r: &[Image]) {
        self.full.images.as_slice()
    }

    fn popularity(&self) -> (r: u32) {
        self.full.popularity
    }
}

impl NonLocalArtistInformation for FullArtist {
    closed spec fn spec_id(&self) -> Id<'static, ArtistId> {
        self.non_local.id
    }

    fn id(&self) -> (r: Id<'_, ArtistId>) {
        self.non_local.id.as_borrowed()
    }
}

impl CommonArtistInformation for PartialArtist {
    closed spec fn spec_name(&self) -> Seq<char> {
        self.common.name@
    }

    closed spec fn spec_external_urls(&self) -> ExternalUrls {
        self.common.external_urls
    }

    fn name(&self) -> (r: &str) {
        self.common.name.as_str()
    }

    fn external_urls(&self) -> (r: &ExternalUrls) {
        &self.common.external_urls
    }
}

impl NonLocalArtistInformation for PartialArtist {
    closed spec fn spec_id(&self) -> Id<'static, ArtistId> {
        self.non_local.id
    }

    fn id(&self) -> (r: Id<'_, ArtistId>) {
        self.non_local.id.as_borrowed()
    }
}

impl CommonArtistInformation for LocalArtist {
    closed spec fn spec_name(&self) -> Seq<char> {
        self.common.name@
    }

    closed spec fn spec_external_urls(&self) -> ExternalUrls {
        self.common.external_urls
    }

    fn name(&self) -> (r: &str) {
        self.common.name.as_str()
    }

    fn external_urls(&self) -> (r: &ExternalUrls) {
        &self.common.external_urls
    }
}


/// Artists with Spotify IDs are equal when their IDs are.
impl PartialEq<FullArtist> for FullArtist {
    fn eq(&self, other: &FullArtist) -> (r: bool) {
        self.id() == other.id()
    }
}

impl vstd::std_specs::cmp::PartialEqSpecImpl<FullArtist> for FullArtist {
    open spec fn obeys_eq_spec() -> bool {
        true
    }

    open spec fn eq_spec(&self, other: &FullArtist) -> bool {
        self.spec_id().text() == other.spec_id().text() && self.spec_id().kind() == other.spec_id().kind()
    }
}

/// Artists with Spotify IDs are equal when their IDs are.
impl PartialEq<PartialArtist> for PartialArtist {
    fn eq(&self, other: &PartialArtist) -> (r: bool) {
        self.id() == other.id()
    }
}

impl vstd::std_specs::cmp::PartialEqSpecImpl<PartialArtist> for PartialArtist {
    open spec fn obeys_eq_spec() -> bool {
        true
    }

    open spec fn eq_spec(&self, other: &PartialArtist) -> bool {
        self.spec_id().text() == other.spec_id().text() && self.spec_id().kind() == other.spec_id().kind()
    }
}

/// Artists with Spotify IDs are equal when their IDs are.
impl PartialEq<PartialArtist> for FullArtist {
    fn eq(&self, other: &PartialArtist) -> (r: bool) {
        self.id() == other.id()
    }
}

impl vstd::std_specs::cmp::PartialEqSpecImpl<PartialArtist> for FullArtist {
    open spec fn obeys_eq_spec() -> bool {
        true
    }

    open spec fn eq_spec(&self, other: &PartialArtist) -> bool {
        self.spec_id().text() == other.spec_id().text() && self.spec_id().kind() == other.spec_id().kind()
    }
}

/// Artists with Spotify IDs are equal when their IDs are.
impl PartialEq<FullArtist> for PartialArtist {
    fn eq(&self, other: &FullArtist) -> (r: bool) {
        self.id() == other.id()
    }
}

impl vstd::std_specs::cmp::PartialEqSpecImpl<FullArtist> for PartialArtist {
    open spec fn obeys_eq_spec() -> bool {
        true
    }

    open spec fn eq_spec(&self, other: &FullArtist) -> bool {
        self.spec_id().text() == other.spec_id().text() && self.spec_id().kind() == other.spec_id().kind()
    }
}

/// A local artist has no Spotify ID, so it is equal to another artist when their common fields are.
impl PartialEq<LocalArtist> for FullArtist {
    fn eq(&self, other: &LocalArtist) -> (r: bool) {
        self.common == other.common
    }
}

impl vstd::std_specs::cmp::PartialEqSpecImpl<LocalArtist> for FullArtist {
    open spec fn obeys_eq_spec() -> bool {
        true
    }

    open spec fn eq_spec(&self, other: &LocalArtist) -> bool {
        self.spec_common().same_fields(&other.spec_common())
    }
}

/// A local artist has no Spotify ID, so it is equal to another artist when their common fields are.
impl PartialEq<LocalArtist> for PartialArtist {
    fn eq(&self, other: &LocalArtist) -> (r: bool) {
        self.common == other.common
    }
}

impl vstd::std_specs::cmp::PartialEqSpecImpl<LocalArtist> for PartialArtist {
    open spec fn obeys_eq_spec() -> bool {
        true
    }

    open spec fn eq_spec(&self, other: &LocalArtist) -> bool {
        self.spec_common().same_fields(&other.spec_common())
    }
}

/// A local artist has no Spotify ID, so it is equal to another artist when their common fields are.
impl PartialEq<FullArtist> for LocalArtist {
    fn eq(&self, other: &FullArtist) -> (r: bool) {
        self.common == other.common
    }
}

impl vstd::std_specs::cmp::PartialEqSpecImpl<FullArtist> for LocalArtist {
    open spec fn obeys_eq_spec() -> bool {
        true
    }

    open spec fn eq_spec(&self, other: &FullArtist) -> bool {
        self.spec_common().same_fields(&other.spec_common())
    }
}

/// A local artist has no Spotify ID, so it is equal to another artist when their common fields are.
impl PartialEq<PartialArtist> for LocalArtist {
    fn eq(&self, other: &PartialArtist) -> (r: bool) {
        self.common == other.common
    }
}

impl vstd::std_specs::cmp::PartialEqSpecImpl<PartialArtist> for LocalArtist {
    open spec fn obeys_eq_spec() -> bool {
        true
    }

    open spec fn eq_spec(&self, other: &PartialArtist) -> bool {
        self.spec_common().same_fields(&other.spec_common())
    }
}

/// A local artist has no Spotify ID, so it is equal to another artist when their common fields are.
impl PartialEq<LocalArtist> for LocalArtist {
    fn eq(&self, other: &LocalArtist) -> (r: bool) {
        self.common == other.common
    }
}

impl vstd::std_specs::cmp::PartialEqSpecImpl<LocalArtist> for LocalArtist {
    open spec fn obeys_eq_spec() -> bool {
        true
    }

    open spec fn eq_spec(&self, other: &LocalArtist) -> bool {
        self.spec_common().same_fields(&other.spec_common())
    }
}

impl TryFrom<ArtistObject> for Artist {
    type Error = ConversionError;

    fn try_from(obj: ArtistObject) -> (r: Result<Self, Self::Error>)
        ensures
            match (obj.spec_non_local(), obj.spec_full()) {
                (Some(non_local), Some(full)) => r matches Ok(Artist::Full(a)) && a.spec_common() == obj.spec_common()
                    && a.spec_non_local() == non_local && a.spec_full() == full,
                (Some(non_local), None) => r matches Ok(Artist::Partial(a)) && a.spec_common() == obj.spec_common()
                    && a.spec_non_local() == non_local,
                (None, None) => r matches Ok(Artist::Local(a)) && a.spec_common() == obj.spec_common(),
                (None, Some(_)) => r is Err,
            },
    {
        match (obj.non_local, obj.full) {
            (Some(non_local), Some(full)) => Ok(Artist::Full(Box::new(FullArtist { common: obj.common, non_local, full }))),
            (Some(non_local), None) => Ok(Artist::Partial(Box::new(PartialArtist { common: obj.common, non_local }))),
            (None, None) => Ok(Artist::Local(Box::new(LocalArtist { common: obj.common }))),
            (non_local, full) => {
                let mut message = String::from_str(
                    "impossible case trying to convert ArtistObject into Artist: non-local artist fields is ",
                );
                message.append(debug_text(&non_local).as_str());
                message.append(" while full artist fields is ");
                message.append(debug_text(&full).as_str());
                Err(ConversionError::new(Cow::Owned(message)))
            },
        }
    }
}

impl From<PartialArtist> for Artist {
    fn from(partial: PartialArtist) -> (r: Self)
        ensures
            r == Artist::Partial(Box::new(partial)),
    {
        Artist::Partial(Box::new(partial))
    }
}

impl From<FullArtist> for Artist {
    fn from(full: FullArtist) -> (r: Self)
        ensures
            r == Artist::Full(Box::new(full)),
    {
        Artist::Full(Box::new(full))
    }
}

impl From<LocalArtist> for Artist {
    fn from(local: LocalArtist) -> (r: Self)
        ensures
            r == Artist::Local(Box::new(local)),
    {
        Artist::Local(Box::new(local))
    }
}

impl TryFrom<Artist> for FullArtist {
    type Error = ConversionError;

    fn try_from(artist: Artist) -> (r: Result<Self, Self::Error>)
        ensures
            match artist {
                Artist::Full(full) => r == Ok::<FullArtist, ConversionError>(*full),
                Artist::Partial(_) => r matches Err(e)
                    && e.reason() == "attempt to convert partial artist into full artist"@,
                Artist::Local(_) => r matches Err(e) && e.reason() == "attempt to convert local artist into full artist"@,
            },
    {
        match artist {
            Artist::Full(full) => Ok(*full),
            Artist::Partial(_) => {
                proof {
                    reveal_strlit("attempt to convert partial artist into full artist");
                }
                Err(ConversionError::new(Cow::Borrowed("attempt to convert partial artist into full artist")))
            },
            Artist::Local(_) => {
                proof {
                    reveal_strlit("attempt to convert local artist into full artist");
                }
                Err(ConversionError::new(Cow::Borrowed("attempt to convert local artist into full artist")))
            },
        }
    }
}

impl TryFrom<ArtistObject> for FullArtist {
    type Error = ConversionError;

    fn try_from(obj: ArtistObject) -> (r: Result<Self, Self::Error>)
        ensures
            match (obj.spec_non_local(), obj.spec_full()) {
                (Some(non_local), Some(full)) => r matches Ok(a) && a.spec_common() == obj.spec_common()
                    && a.spec_non_local() == non_local && a.spec_full() == full,
                _ => r is Err,
            },
            FullArtist::from_object(obj) == match r {
                Ok(x) => Some(x),
                Err(_) => None::<FullArtist>,
            },
    {
        match (obj.non_local, obj.full) {
            (Some(non_local), Some(full)) => Ok(FullArtist { common: obj.common, non_local, full }),
            (non_local, full) => {
                let mut message = String::from_str(
                    "attempt to convert non-full artist object into full artist (non-local artist fields is ",
                );
                message.append(debug_text(&non_local).as_str());
                message.append(", full artist fields is ");
                message.append(debug_text(&full).as_str());
                message.append(")");
                Err(ConversionError::new(Cow::Owned(message)))
            },
        }
    }
}

impl TryFrom<Artist> for PartialArtist {
    type Error = ConversionError;

    fn try_from(artist: Artist) -> (r: Result<Self, Self::Error>)
        ensures
            match artist {
                Artist::Full(full) => r matches Ok(a) && a.spec_common() == full.spec_common()
                    && a.spec_non_local() == full.spec_non_local(),
                Artist::Partial(partial) => r == Ok::<PartialArtist, ConversionError>(*partial),
                Artist::Local(_) => r matches Err(e)
                    && e.reason() == "attempt to convert local artist into partial artist"@,
            },
    {
        match artist {
            Artist::Full(full) => Ok(PartialArtist { common: full.common, non_local: full.non_local }),
            Artist::Partial(partial) => Ok(*partial),
            Artist::Local(_) => {
                proof {
                    reveal_strlit("attempt to convert local artist into partial artist");
                }
                Err(ConversionError::new(Cow::Borrowed("attempt to convert local artist into partial artist")))
            },
        }
    }
}

impl TryFrom<ArtistObject> for PartialArtist {
    type Error = ConversionError;

    fn try_from(obj: ArtistObject) -> (r: Result<Self, Self::Error>)
        ensures
            match obj.spec_non_local() {
                Some(non_local) => r matches Ok(a) && a.spec_common() == obj.spec_common()
                    && a.spec_non_local() == non_local,
                None => r matches Err(e) && e.reason()
                    == "attempt to convert local artist object into partial artist (non-local artist fields is None)"@,
            },
    {
        if let Some(non_local) = obj.non_local {
            Ok(PartialArtist { common: obj.common, non_local })
        } else {
            proof {
                reveal_strlit("attempt to convert local artist object into partial artist (non-local artist fields is None)");
            }
            Err(ConversionError::new(Cow::Borrowed(
                "attempt to convert local artist object into partial artist (non-local artist fields is None)",
            )))
        }
    }
}

impl From<Artist> for LocalArtist {
    fn from(artist: Artist) -> (r: Self)
        ensures
            r.spec_common() == match artist {
                Artist::Full(full) => full.spec_common(),
                Artist::Partial(partial) => partial.spec_common(),
                Artist::Local(local) => local.spec_common(),
            },
    {
        match artist {
            Artist::Full(full) => LocalArtist { common: full.common },
            Artist::Partial(partial) => LocalArtist { common: partial.common },
            Artist::Local(local) => *local,
        }
    }
}

impl From<ArtistObject> for LocalArtist {
    fn from(obj: ArtistObject) -> (r: Self)
        ensures
            r.spec_common() == obj.spec_common(),
    {
        LocalArtist { common: obj.common }
    }
}

impl From<FullArtist> for ArtistObject {
    fn from(value: FullArtist) -> (r: Self)
        ensures
            r.spec_common() == value.spec_common(),
            r.spec_non_local() == Some(value.spec_non_local()),
            r.spec_full() == Some(value.spec_full()),
    {
        ArtistObject { common: value.common, non_local: Some(value.non_local), full: Some(value.full) }
    }
}

impl From<PartialArtist> for ArtistObject {
    fn from(value: PartialArtist) -> (r: Self)
        ensures
            r.spec_common() == value.spec_common(),
            r.spec_non_local() == Some(value.spec_non_local()),
            r.spec_full() is None,
    {
        ArtistObject { common: value.common, non_local: Some(value.non_local), full: None }
    }
}

impl From<LocalArtist> for ArtistObject {
    fn from(value: LocalArtist) -> (r: Self)
        ensures
            r.spec_common() == value.spec_common(),
            r.spec_non_local() is None,
            r.spec_full() is None,
    {
        ArtistObject { common: value.common, non_local: None, full: None }
    }
}

/// The error's message holds the debug text of the fields, which is not modelled, so the generic conversion
/// specification is not claimed; the contract of `try_from` states the outcome.
impl TryFromSpecImpl<ArtistObject> for Artist {
    open spec fn obeys_try_from_spec() -> bool {
        false
    }

    open spec fn try_from_spec(v: ArtistObject) -> Result<Self, Self::Error> {
        arbitrary()
    }
}

impl FromSpecImpl<PartialArtist> for Artist {
    open spec fn obeys_from_spec() -> bool {
        true
    }

    open spec fn from_spec(v: PartialArtist) -> Self {
        Artist::Partial(Box::new(v))
    }
}

impl FromSpecImpl<FullArtist> for Artist {
    open spec fn obeys_from_spec() -> bool {
        true
    }

    open spec fn from_spec(v: FullArtist) -> Self {
        Artist::Full(Box::new(v))
    }
}

impl FromSpecImpl<LocalArtist> for Artist {
    open spec fn obeys_from_spec() -> bool {
        true
    }

    open spec fn from_spec(v: LocalArtist) -> Self {
        Artist::Local(Box::new(v))
    }
}

impl TryFromSpecImpl<Artist> for FullArtist {
    open spec fn obeys_try_from_spec() -> bool {
        true
    }

    closed spec fn try_from_spec(v: Artist) -> Result<Self, Self::Error> {
        match v {
            Artist::Full(full) => Ok(*full),
            Artist::Partial(_) => Err(ConversionError(Cow::Borrowed("attempt to convert partial artist into full artist"))),
            Artist::Local(_) => Err(ConversionError(Cow::Borrowed("attempt to convert local artist into full artist"))),
        }
    }
}

/// The error's message holds the debug text of the fields, which is not modelled, so the generic conversion
/// specification is not claimed; the contract of `try_from` states the outcome.
impl TryFromSpecImpl<ArtistObject> for FullArtist {
    open spec fn obeys_try_from_spec() -> bool {
        false
    }

    open spec fn try_from_spec(v: ArtistObject) -> Result<Self, Self::Error> {
        arbitrary()
    }
}

impl TryFromSpecImpl<Artist> for PartialArtist {
    open spec fn obeys_try_from_spec() -> bool {
        true
    }

    closed spec fn try_from_spec(v: Artist) -> Result<Self, Self::Error> {
        match v {
            Artist::Full(full) => Ok(PartialArtist { common: full.common, non_local: full.non_local }),
            Artist::Partial(partial) => Ok(*partial),
            Artist::Local(_) => Err(ConversionError(Cow::Borrowed("attempt to convert local artist into partial artist"))),
        }
    }
}

impl TryFromSpecImpl<ArtistObject> for PartialArtist {
    open spec fn obeys_try_from_spec() -> bool {
        true
    }

    closed spec fn try_from_spec(v: ArtistObject) -> Result<Self, Self::Error> {
        match v.non_local {
            Some(non_local) => Ok(PartialArtist { common: v.common, non_local }),
            None => Err(ConversionError(Cow::Borrowed(
                "attempt to convert local artist object into partial artist (non-local artist fields is None)",
            ))),
        }
    }
}

impl FromSpecImpl<Artist> for LocalArtist {
    open spec fn obeys_from_spec() -> bool {
        true
    }

    closed spec fn from_spec(v: Artist) -> Self {
        match v {
            Artist::Full(full) => LocalArtist { common: full.common },
            Artist::Partial(partial) => LocalArtist { common: partial.common },
            Artist::Local(local) => *local,
        }
    }
}

impl FromSpecImpl<ArtistObject> for LocalArtist {
    open spec fn obeys_from_spec() -> bool {
        true
    }

    closed spec fn from_spec(v: ArtistObject) -> Self {
        LocalArtist { common: v.common }
    }
}

impl FromSpecImpl<FullArtist> for ArtistObject {
    open spec fn obeys_from_spec() -> bool {
        true
    }

    closed spec fn from_spec(v: FullArtist) -> Self {
        ArtistObject { common: v.common, non_local: Some(v.non_local), full: Some(v.full) }
    }
}

impl FromSpecImpl<PartialArtist> for ArtistObject {
    open spec fn obeys_from_spec() -> bool {
        true
    }

    closed spec fn from_spec(v: PartialArtist) -> Self {
        ArtistObject { common: v.common, non_local: Some(v.non_local), full: None }
    }
}

impl FromSpecImpl<LocalArtist> for ArtistObject {
    open spec fn obeys_from_spec() -> bool {
        true
    }

    closed spec fn from_spec(v: LocalArtist) -> Self {
        ArtistObject { common: v.common, non_local: None, full: None }
    }
}

/// Turning a full artist into a artist object and converting the object back gives the same artist; an object converts into
/// a full artist exactly when it holds both the non-local and the full fields.
pub proof fn law_full_artist_object_round_trip(x: FullArtist, obj: ArtistObject)
    ensures
        FullArtist::from_object(ArtistObject {
            common: x.spec_common(),
            non_local: Some(x.spec_non_local()),
            full: Some(x.spec_full()),
        }) == Some(x),
        (FullArtist::from_object(obj) is Some) == (obj.non_local is Some && obj.full is Some),
{
}

} // verus!
