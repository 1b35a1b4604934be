//! Contains objects that represent all Spotify IDs.
//!
//! # Working with IDs
//!
//! There are three different kinds of Spotify IDs that this module can handle:
//! - URIs: `spotify:track:2pDPOMX0kWA7kcPBcDCQBu`
//! - URLs: `https://open.spotify.com/track/2pDPOMX0kWA7kcPBcDCQBu`. The URL may contain any query parameters.
//! - Bare IDs: `2pDPOMX0kWA7kcPBcDCQBu`
//!
//! The IDs are split into two kinds: playable items and playable contexts. Playable items are individual items that can
//! be played; tracks or episodes. Playable contexts are collections of one or more playable items; artists, albums,
//! playlists or shows. The enums [PlayableItem] and [PlayableContext] represent the two kinds. These two kinds are
//! grouped into one common [SpotifyId] that encompasses all of them.
//!
//! The core [Id] is a type-safe wrapper for a single Spotify ID of a kind given by its type parameter, such as
//! [TrackId] or [AlbumId]. It keeps the string it was parsed from in a [Cow]: an ID parsed from a borrowed string
//! borrows it, and asking an ID parsed from an URI for its URI (or one parsed from an URL for its URL) hands back that
//! very string without allocating.

mod sealed;

use std::borrow::Cow;
use std::marker::PhantomData;

use vstd::prelude::*;

use super::law_item_type_name_round_trip;
use super::spec_parse_item_type;
use super::ItemType;
use crate::error::IdError;
use crate::error::IdErrorView;
use crate::util::chars_of;
use crate::util::find_char;
use crate::util::has_prefix;
use crate::util::is_first_index;
use crate::util::lemma_first_index_of_is;
use crate::util::lemma_first_index_of_none;
use crate::util::matches_at;
use crate::util::spec_first_index_of;
use crate::util::spec_maybe_split_once;
use crate::util::spec_split_once;
use crate::util::MaybeSplitOnce;
use std::str::FromStr;

verus! {

/// The length of every Spotify ID.
pub const ID_LENGTH: usize = 22;

const URL_PREFIX: &'static str = "https://open.spotify.com/";

const URI_PREFIX: &'static str = "spotify:";

/// The prefix of every Spotify URI.
pub open spec fn uri_prefix() -> Seq<char> {
    seq!['s', 'p', 'o', 't', 'i', 'f', 'y', ':']
}

/// The prefix of every Spotify URL.
pub open spec fn url_prefix() -> Seq<char> {
    seq![
        'h', 't', 't', 'p', 's', ':', '/', '/', 'o', 'p', 'e', 'n', '.', 's', 'p', 'o', 't', 'i', 'f', 'y', '.', 'c',
        'o', 'm', '/',
    ]
}

fn uri_prefix_str() -> (r: &'static str)
    ensures
        r@ == uri_prefix(),
{
    proof {
        reveal_strlit("spotify:");
    }
    URI_PREFIX
}

fn url_prefix_str() -> (r: &'static str)
    ensures
        r@ == url_prefix(),
{
    proof {
        reveal_strlit("https://open.spotify.com/");
    }
    URL_PREFIX
}

/// A character Spotify IDs are made of: an ASCII letter or digit.
pub open spec fn is_id_char(c: char) -> bool {
    ('a' <= c && c <= 'z') || ('A' <= c && c <= 'Z') || ('0' <= c && c <= '9')
}

/// `s` looks like a Spotify ID: a base-62 string of 22 characters, such as `3mXLyNsVeLelMakgpGUp1f`.
pub open spec fn spec_valid_id(s: Seq<char>) -> bool {
    s.len() == ID_LENGTH && forall|i: int| 0 <= i < s.len() ==> is_id_char(#[trigger] s[i])
}

/// The outcome of parsing a Spotify URI `spotify:<item type>:<ID>`: the item type and the index of the ID in `s`.
pub open spec fn spec_parse_uri(s: Seq<char>) -> Result<(ItemType, int), IdErrorView> {
    if !has_prefix(s, uri_prefix()) {
        Err(IdErrorView::MalformedString(s))
    } else {
        match spec_split_once(s.skip(uri_prefix().len() as int), ':') {
            None => Err(IdErrorView::MalformedString(s)),
            Some((item_type, id)) => match spec_parse_item_type(item_type) {
                None => Err(IdErrorView::InvalidItemType(item_type)),
                Some(t) => if spec_valid_id(id) {
                    Ok((t, s.len() - ID_LENGTH))
                } else {
                    Err(IdErrorView::InvalidId(id))
                },
            },
        }
    }
}

/// The outcome of parsing a Spotify URL `https://open.spotify.com/<item type>/<ID>`, possibly followed by a query
/// `?...`: the item type and the index of the ID in `s`.
pub open spec fn spec_parse_url(s: Seq<char>) -> Result<(ItemType, int), IdErrorView> {
    if !has_prefix(s, url_prefix()) {
        Err(IdErrorView::MalformedString(s))
    } else {
        match spec_split_once(s.skip(url_prefix().len() as int), '/') {
            None => Err(IdErrorView::MalformedString(s)),
            Some((item_type, id_with_query)) => {
                let id = spec_maybe_split_once(id_with_query, '?').0;
                match spec_parse_item_type(item_type) {
                    None => Err(IdErrorView::InvalidItemType(item_type)),
                    Some(t) => if spec_valid_id(id) {
                        Ok((t, (url_prefix().len() + item_type.len() + 1) as int))
                    } else {
                        Err(IdErrorView::InvalidId(id))
                    },
                }
            },
        }
    }
}

/// A successful parse that found an ID of item type `t` at index `i`.
pub open spec fn ok_at(t: ItemType, i: int) -> Result<(ItemType, int), IdErrorView> {
    Ok((t, i))
}

/// Specifies a kind of ID.
#[derive(Debug, Clone, Copy, PartialEq, Eq, Structural)]
pub enum IdKind {
    /// The ID is a Spotify URI. The field is the index of the ID in the original string.
    Uri(usize),
    /// The ID is a Spotify URL. The field is the index of the ID in the original string.
    Url(usize),
    /// The ID is a bare Spotify ID.
    Bare,
}

/// The outcome of parsing a Spotify URI, with the position of its ID as an [IdKind].
pub open spec fn spec_parse_uri_kind(s: Seq<char>) -> Result<(ItemType, IdKind), IdErrorView> {
    match spec_parse_uri(s) {
        Ok((t, i)) => Ok((t, IdKind::Uri(i as usize))),
        Err(e) => Err(e),
    }
}

/// The outcome of parsing a Spotify URL, with the position of its ID as an [IdKind].
pub open spec fn spec_parse_url_kind(s: Seq<char>) -> Result<(ItemType, IdKind), IdErrorView> {
    match spec_parse_url(s) {
        Ok((t, i)) => Ok((t, IdKind::Url(i as usize))),
        Err(e) => Err(e),
    }
}

/// The outcome of parsing either a Spotify URI or a Spotify URL, told apart by their prefixes.
pub open spec fn spec_parse_url_or_uri(s: Seq<char>) -> Result<(ItemType, IdKind), IdErrorView> {
    if has_prefix(s, uri_prefix()) {
        spec_parse_uri_kind(s)
    } else if has_prefix(s, url_prefix()) {
        spec_parse_url_kind(s)
    } else {
        Err(IdErrorView::MalformedString(s))
    }
}

/// The outcome of parsing a bare Spotify ID expected to be of item type `t`.
pub open spec fn spec_parse_bare(t: ItemType, s: Seq<char>) -> Result<(ItemType, IdKind), IdErrorView> {
    if spec_valid_id(s) {
        Ok((t, IdKind::Bare))
    } else {
        Err(IdErrorView::InvalidId(s))
    }
}

/// The outcome of parsing an URL or an URI, or else a bare Spotify ID expected to be of item type `t`.
pub open spec fn spec_parse_any(t: ItemType, s: Seq<char>) -> Result<(ItemType, IdKind), IdErrorView> {
    match spec_parse_url_or_uri(s) {
        Ok(p) => Ok(p),
        Err(_) => spec_parse_bare(t, s),
    }
}

/// `text` holds a Spotify ID of item type `t` in the form `kind` says.
pub open spec fn spec_well_formed_id(t: ItemType, text: Seq<char>, kind: IdKind) -> bool {
    match kind {
        IdKind::Uri(i) => spec_parse_uri(text) == ok_at(t, i as int),
        IdKind::Url(i) => spec_parse_url(text) == ok_at(t, i as int),
        IdKind::Bare => spec_valid_id(text),
    }
}

/// The bare ID held in `text`, an ID string of the form `kind`.
pub open spec fn spec_bare_of(text: Seq<char>, kind: IdKind) -> Seq<char> {
    match kind {
        IdKind::Uri(i) => text.skip(i as int),
        IdKind::Url(i) => text.subrange(i as int, i + ID_LENGTH),
        IdKind::Bare => text,
    }
}

/// The Spotify URI of the item of type `t` with the bare ID `bare`.
pub open spec fn spec_uri_of(t: ItemType, bare: Seq<char>) -> Seq<char> {
    uri_prefix() + t.spec_name() + seq![':'] + bare
}

/// The Spotify URL of the item of type `t` with the bare ID `bare`.
pub open spec fn spec_url_of(t: ItemType, bare: Seq<char>) -> Seq<char> {
    url_prefix() + t.spec_name() + seq!['/'] + bare
}

/// Where the ID starts in the canonical URI of an item of type `t`.
pub open spec fn uri_id_index(t: ItemType) -> int {
    (uri_prefix().len() + t.spec_name().len() + 1) as int
}

/// Where the ID starts in the canonical URL of an item of type `t`.
pub open spec fn url_id_index(t: ItemType) -> int {
    (url_prefix().len() + t.spec_name().len() + 1) as int
}

/// Item type names hold neither `:`, `/` nor `?`.
proof fn lemma_name_chars(t: ItemType)
    ensures
        forall|j: int|
            0 <= j < t.spec_name().len() ==> #[trigger] t.spec_name()[j] != ':' && t.spec_name()[j] != '/'
                && t.spec_name()[j] != '?',
{
}

/// A URI parses only when it is the canonical URI `spotify:<item type>:<ID>` of the item type and the valid ID it
/// holds; the ID starts where the parse says.
pub proof fn law_parsed_uri_is_canonical(s: Seq<char>, t: ItemType, i: int)
    requires
        spec_parse_uri(s) == ok_at(t, i),
    ensures
        i == s.len() - ID_LENGTH,
        i == uri_id_index(t),
        spec_valid_id(s.skip(i)),
        s == spec_uri_of(t, s.skip(i)),
{
    let tail = s.skip(8);
    let k = spec_first_index_of(tail, ':')->Some_0;
    assert(is_first_index(tail, ':', k));
    let ty = tail.take(k);
    let id = tail.skip(k + 1);
    law_item_type_name_round_trip(t, ty);
    assert(s.skip(i) =~= id);
    assert(s =~= spec_uri_of(t, s.skip(i))) by {
        assert(s.take(8) == uri_prefix());
        assert forall|j: int| 0 <= j < s.len() implies s[j] == spec_uri_of(t, id)[j] by {
            if j < 8 {
                assert(s.take(8)[j] == s[j]);
            } else if j < 8 + k {
                assert(ty[j - 8] == s[j]);
            } else if j == 8 + k {
                assert(tail[k] == s[j]);
            } else {
                assert(id[j - 9 - k] == s[j]);
            }
        }
    }
}

/// A URL parses only when it starts with the canonical URL `https://open.spotify.com/<item type>/<ID>` of the item
/// type and the valid ID it holds, and nothing or a query `?...` follows; the ID starts where the parse says.
pub proof fn law_parsed_url_is_canonical(s: Seq<char>, t: ItemType, i: int)
    requires
        spec_parse_url(s) == ok_at(t, i),
    ensures
        i == url_id_index(t),
        i + ID_LENGTH <= s.len(),
        spec_valid_id(s.subrange(i, i + ID_LENGTH)),
        s.take(i + ID_LENGTH) == spec_url_of(t, s.subrange(i, i + ID_LENGTH)),
        i + ID_LENGTH == s.len() || s[i + ID_LENGTH] == '?',
{
    let tail = s.skip(25);
    let k = spec_first_index_of(tail, '/')->Some_0;
    assert(is_first_index(tail, '/', k));
    let ty = tail.take(k);
    let rest = tail.skip(k + 1);
    let id = spec_maybe_split_once(rest, '?').0;
    law_item_type_name_round_trip(t, ty);
    if spec_first_index_of(rest, '?') is Some {
        let m = spec_first_index_of(rest, '?')->Some_0;
        assert(is_first_index(rest, '?', m));
        assert(id == rest.take(m));
        assert(rest[m] == s[i + ID_LENGTH]);
    }
    assert(s.subrange(i, i + ID_LENGTH) =~= id);
    let bare = s.subrange(i, i + ID_LENGTH);
    assert(s.take(i + ID_LENGTH) =~= spec_url_of(t, bare)) by {
        assert(s.take(25) == url_prefix());
        assert forall|j: int| 0 <= j < i + ID_LENGTH implies s.take(i + ID_LENGTH)[j] == spec_url_of(t, bare)[j] by {
            if j < 25 {
                assert(s.take(25)[j] == s[j]);
            } else if j < 25 + k {
                assert(ty[j - 25] == s[j]);
            } else if j == 25 + k {
                assert(tail[k] == s[j]);
            } else {
                assert(bare[j - i] == s[j]);
            }
        }
    }
}

/// Whether `id` looks like a valid Spotify ID: 22 ASCII letters and digits.
fn verify_valid_id(id: &str) -> (r: bool)
    ensures
        r == spec_valid_id(id@),
{
    let v = chars_of(id);
    if v.len() != ID_LENGTH {
        return false;
    }
    let mut i: usize = 0;
    while i < v.len()
        invariant
            v@ == id@,
            i <= v@.len(),
            forall|j: int| 0 <= j < i ==> is_id_char(#[trigger] v@[j]),
        decreases v@.len() - i,
    {
        let c = v[i];
        if !(('a' <= c && c <= 'z') || ('A' <= c && c <= 'Z') || ('0' <= c && c <= '9')) {
            assert(!is_id_char(v@[i as int]));
            return false;
        }
        i = i + 1;
    }
    true
}

/// Parses a Spotify URI into its item type and the index of its ID.
fn parse_item_type_and_id_from_uri(uri: &str) -> (r: Result<(ItemType, usize), IdError>)
    ensures
        match r {
            Ok((t, i)) => spec_parse_uri(uri@) == ok_at(t, i as int),
            Err(e) => spec_parse_uri(uri@) == Err::<(ItemType, int), IdErrorView>(e@),
        },
{
    let v = chars_of(uri);
    let prefix = uri_prefix_str();
    let plen = prefix.unicode_len();
    if !matches_at(&v, 0, prefix) {
        assert(!has_prefix(uri@, uri_prefix())) by {
            if has_prefix(uri@, uri_prefix()) {
                assert(uri@.subrange(0, 8) =~= uri@.take(8));
            }
        }
        return Err(IdError::MalformedString(uri.to_owned()));
    }
    assert(uri@.take(8) =~= uri@.subrange(0, 8));
    match find_char(&v, plen, ':') {
        None => Err(IdError::MalformedString(uri.to_owned())),
        Some(k) => {
            let ghost tail = uri@.skip(8);
            let item_type_str = uri.substring_char(plen, k);
            let id = uri.substring_char(k + 1, v.len());
            assert(item_type_str@ =~= tail.take(k - 8));
            assert(id@ =~= tail.skip(k - 8 + 1));
            match ItemType::from_str(item_type_str) {
                Err(e) => Err(e),
                Ok(t) => {
                    if verify_valid_id(id) {
                        Ok((t, v.len() - ID_LENGTH))
                    } else {
                        Err(IdError::InvalidId(id.to_owned()))
                    }
                },
            }
        },
    }
}

/// Parses a Spotify URL, possibly with a query, into its item type and the index of its ID.
fn parse_item_type_and_id_from_url(url: &str) -> (r: Result<(ItemType, usize), IdError>)
    ensures
        match r {
            Ok((t, i)) => spec_parse_url(url@) == ok_at(t, i as int),
            Err(e) => spec_parse_url(url@) == Err::<(ItemType, int), IdErrorView>(e@),
        },
{
    // a whole URL could look like: https://open.spotify.com/track/3mXLyNsVeLelMakgpGUp1f?si=AAAAAAAAAAAAAAAA
    let v = chars_of(url);
    let prefix = url_prefix_str();
    let plen = prefix.unicode_len();
    if !matches_at(&v, 0, prefix) {
        assert(!has_prefix(url@, url_prefix())) by {
            if has_prefix(url@, url_prefix()) {
                assert(url@.subrange(0, 25) =~= url@.take(25));
            }
        }
        return Err(IdError::MalformedString(url.to_owned()));
    }
    assert(url@.take(25) =~= url@.subrange(0, 25));
    match find_char(&v, plen, '/') {
        None => Err(IdError::MalformedString(url.to_owned())),
        Some(k) => {
            let ghost tail = url@.skip(25);
            let item_type_str = url.substring_char(plen, k);
            let id_with_possible_query = url.substring_char(k + 1, v.len());
            assert(item_type_str@ =~= tail.take(k - 25));
            assert(id_with_possible_query@ =~= tail.skip(k - 25 + 1));
            let (id, _) = id_with_possible_query.maybe_split_once('?');
            match ItemType::from_str(item_type_str) {
                Err(e) => Err(e),
                Ok(t) => {
                    if verify_valid_id(id) {
                        // the position of the ID in the string is the domain + the item type + /
                        Ok((t, k + 1))
                    } else {
                        Err(IdError::InvalidId(id.to_owned()))
                    }
                },
            }
        },
    }
}

/// Parses either a Spotify URI or a Spotify URL into its item type and the kind and position of its ID.
fn parse_item_type_and_kind_from_url_or_uri(url_or_uri: &str) -> (r: Result<(ItemType, IdKind), IdError>)
    ensures
        match r {
            Ok((t, k)) => spec_parse_url_or_uri(url_or_uri@) == Ok::<(ItemType, IdKind), IdErrorView>((t, k))
                && spec_well_formed_id(t, url_or_uri@, k),
            Err(e) => spec_parse_url_or_uri(url_or_uri@) == Err::<(ItemType, IdKind), IdErrorView>(e@),
        },
{
    let v = chars_of(url_or_uri);
    if starts_with(&v, uri_prefix_str()) {
        match parse_item_type_and_id_from_uri(url_or_uri) {
            Ok((item_type, id_index)) => Ok((item_type, IdKind::Uri(id_index))),
            Err(e) => Err(e),
        }
    } else if starts_with(&v, url_prefix_str()) {
        match parse_item_type_and_id_from_url(url_or_uri) {
            Ok((item_type, id_index)) => Ok((item_type, IdKind::Url(id_index))),
            Err(e) => Err(e),
        }
    } else {
        Err(IdError::MalformedString(url_or_uri.to_owned()))
    }
}

/// Whether `v` starts with the characters of `prefix`.
fn starts_with(v: &Vec<char>, prefix: &str) -> (r: bool)
    ensures
        r == has_prefix(v@, prefix@),
{
    let r = matches_at(v, 0, prefix);
    proof {
        if prefix@.len() <= v@.len() {
            assert(v@.take(prefix@.len() as int) =~= v@.subrange(0, prefix@.len() as int));
        }
    }
    r
}

/// Used to signify a type that describes a kind of Spotify ID.
pub trait ItemTypeId: sealed::Sealed {
    /// The Spotify catalog item type this type corresponds to.
    const ITEM_TYPE: ItemType;
}

/// Functions common to all ID types.
pub trait IdTrait<'a>: sealed::Sealed {
    /// This type that has the `'static` lifetime, which essentially means it owns its ID value.
    type Owned: 'static;

    /// This type that borrows from a value of this type.
    type Borrowed;

    /// Returns this ID as a bare Spotify ID.
    fn as_str(&'a self) -> &'a str;

    /// Returns this ID as a Spotify URI.
    ///
    /// The result borrows the original string when the ID was constructed from an URI; otherwise a new URI string is
    /// allocated.
    fn as_uri(&'a self) -> Cow<'a, str>;

    /// Returns this ID as a Spotify URL.
    ///
    /// The result borrows the original string when the ID was constructed from an URL; otherwise a new URL string is
    /// allocated.
    fn as_url(&'a self) -> Cow<'a, str>;

    /// Returns a new Id that clones the value from this Id and owns it.
    fn as_owned(&'a self) -> Self::Owned;

    /// Returns a new Id that borrows from this Id.
    fn as_borrowed(&'a self) -> Self::Borrowed;
}

/// Trait for parsing a string that contains a Spotify URL or URI into an ID type.
pub trait IdFromKnownKind<'a>: sealed::Sealed where Self: Sized {
    /// Parses a Spotify URI string into an ID.
    fn from_uri(uri: Cow<'a, str>) -> Result<Self, IdError>;

    /// Parses a Spotify URL into an ID.
    fn from_url(url: Cow<'a, str>) -> Result<Self, IdError>;

    /// Parses either a Spotify URL or Spotify URI into an ID.
    fn from_url_or_uri(url_or_uri: Cow<'a, str>) -> Result<Self, IdError>;
}

/// Trait for parsing a string that contains a bare Spotify ID into an ID type.
pub trait IdFromBare<'a>: sealed::Sealed where Self: Sized {
    /// Parses a bare Spotify ID into an ID.
    fn from_bare(bare: Cow<'a, str>) -> Result<Self, IdError>;
}

/// Common type that contains a single Spotify ID of a certain kind. The generic type parameter `T` is used to signify
/// which kind of ID it contains.
#[derive(Debug)]
pub struct Id<'a, T> where T: ItemTypeId {
    value: Cow<'a, str>,
    kind: IdKind,
    phantom: PhantomData<T>,
}

/// Common type for all Spotify IDs.
#[derive(Debug, Clone, PartialEq, Eq)]
pub enum SpotifyId<'a> {
    Item(PlayableItem<'a>),
    Context(PlayableContext<'a>),
}

/// Common type for all individually playable IDs.
#[derive(Debug, Clone, PartialEq, Eq)]
pub enum PlayableItem<'a> {
    Track(Id<'a, TrackId>),
    Episode(Id<'a, EpisodeId>),
}

/// Common type for all playable context IDs.
#[derive(Debug, Clone, PartialEq, Eq)]
pub enum PlayableContext<'a> {
    Artist(Id<'a, ArtistId>),
    Album(Id<'a, AlbumId>),
    Playlist(Id<'a, PlaylistId>),
    Show(Id<'a, ShowId>),
}

/// Signifies a track ID.
#[derive(Debug, Clone, PartialEq, Eq)]
pub struct TrackId;

/// Signifies an episode ID.
#[derive(Debug, Clone, PartialEq, Eq)]
pub struct EpisodeId;

/// Signifies an artist ID.
#[derive(Debug, Clone, PartialEq, Eq)]
pub struct ArtistId;

/// Signifies an album ID.
#[derive(Debug, Clone, PartialEq, Eq)]
pub struct AlbumId;

/// Signifies a playlist ID.
#[derive(Debug, Clone, PartialEq, Eq)]
pub struct PlaylistId;

/// Signifies a show ID.
#[derive(Debug, Clone, PartialEq, Eq)]
pub struct ShowId;

/// Signifies a user ID.
#[derive(Debug, Clone, PartialEq, Eq)]
pub struct UserId;

impl<'a, T> sealed::Sealed for Id<'a, T> where T: ItemTypeId {}
impl sealed::Sealed for TrackId {}
impl sealed::Sealed for EpisodeId {}
impl sealed::Sealed for ArtistId {}
impl sealed::Sealed for AlbumId {}
impl sealed::Sealed for PlaylistId {}
impl sealed::Sealed for ShowId {}
impl sealed::Sealed for UserId {}
impl<'a> sealed::Sealed for SpotifyId<'a> {}
impl<'a> sealed::Sealed for PlayableItem<'a> {}
impl<'a> sealed::Sealed for PlayableContext<'a> {}

impl ItemTypeId for TrackId {
    const ITEM_TYPE: ItemType = ItemType::Track;
}

impl ItemTypeId for EpisodeId {
    const ITEM_TYPE: ItemType = ItemType::Episode;
}

impl ItemTypeId for ArtistId {
    const ITEM_TYPE: ItemType = ItemType::Artist;
}

impl ItemTypeId for AlbumId {
    const ITEM_TYPE: ItemType = ItemType::Album;
}

impl ItemTypeId for PlaylistId {
    const ITEM_TYPE: ItemType = ItemType::Playlist;
}

impl ItemTypeId for ShowId {
    const ITEM_TYPE: ItemType = ItemType::Show;
}

impl ItemTypeId for UserId {
    const ITEM_TYPE: ItemType = ItemType::User;
}

/// The item type each ID type stands for: a track ID names a track, an episode ID an episode, and so on.
pub proof fn law_id_item_types()
    ensures
        <TrackId as ItemTypeId>::ITEM_TYPE == ItemType::Track,
        <EpisodeId as ItemTypeId>::ITEM_TYPE == ItemType::Episode,
        <ArtistId as ItemTypeId>::ITEM_TYPE == ItemType::Artist,
        <AlbumId as ItemTypeId>::ITEM_TYPE == ItemType::Album,
        <PlaylistId as ItemTypeId>::ITEM_TYPE == ItemType::Playlist,
        <ShowId as ItemTypeId>::ITEM_TYPE == ItemType::Show,
        <UserId as ItemTypeId>::ITEM_TYPE == ItemType::User,
{
}

/// The string a [Cow] holds.
fn cow_as_str<'b, 'c>(c: &'b Cow<'c, str>) -> (r: &'b str)
    ensures
        r@ == c@,
{
    match c {
        Cow::Borrowed(b) => b,
        Cow::Owned(o) => o.as_str(),
    }
}

/// An owned copy of the string a [Cow] holds.
pub(crate) fn cow_to_string(c: &Cow<'_, str>) -> (r: String)
    ensures
        r@ == c@,
{
    match c {
        Cow::Borrowed(b) => (*b).to_owned(),
        Cow::Owned(o) => o.clone(),
    }
}

/// Builds the Spotify URI `spotify:<item type>:<id>`.
fn build_uri(item_type: ItemType, id: &str) -> (r: String)
    ensures
        r@ == spec_uri_of(item_type, id@),
{
    let mut r = uri_prefix_str().to_owned();
    r.append(item_type.as_str());
    let separator = ":";
    proof {
        reveal_strlit(":");
    }
    r.append(separator);
    r.append(id);
    r
}

/// Builds the Spotify URL `https://open.spotify.com/<item type>/<id>`.
fn build_url(item_type: ItemType, id: &str) -> (r: String)
    ensures
        r@ == spec_url_of(item_type, id@),
{
    let mut r = url_prefix_str().to_owned();
    r.append(item_type.as_str());
    let separator = "/";
    proof {
        reveal_strlit("/");
    }
    r.append(separator);
    r.append(id);
    r
}

impl<'a, T> Id<'a, T> where T: ItemTypeId {
    #[verifier::type_invariant]
    closed spec fn well_formed(self) -> bool {
        spec_well_formed_id(T::ITEM_TYPE, self.value@, self.kind)
    }

    /// The string this ID holds, as it was given.
    pub closed spec fn text(&self) -> Seq<char> {
        self.value@
    }

    /// The form of the string this ID holds.
    pub closed spec fn kind(&self) -> IdKind {
        self.kind
    }

    /// Whether this ID borrows the string it holds.
    pub closed spec fn borrows(&self) -> bool {
        self.value is Borrowed
    }

    /// The bare Spotify ID.
    pub open spec fn bare_id(&self) -> Seq<char> {
        spec_bare_of(self.text(), self.kind())
    }

    /// Wraps a value known to hold an ID of this kind.
    fn new(value: Cow<'a, str>, kind: IdKind) -> (r: Self)
        requires
            spec_well_formed_id(T::ITEM_TYPE, value@, kind),
        ensures
            r.text() == value@,
            r.kind() == kind,
            r.borrows() == (value is Borrowed),
    {
        Self { value, kind, phantom: PhantomData }
    }
}

/// Cloning a borrowing Id returns a new Id that borrows the same string; cloning an owning Id clones its string.
impl<'a, T> Clone for Id<'a, T> where T: ItemTypeId {
    fn clone(&self) -> (r: Self)
        ensures
            r.text() == self.text(),
            r.kind() == self.kind(),
            r.borrows() == self.borrows(),
    {
        proof {
            use_type_invariant(self);
        }
        let value = match &self.value {
            Cow::Borrowed(b) => Cow::Borrowed(*b),
            Cow::Owned(o) => Cow::Owned(o.clone()),
        };
        Id { value, kind: self.kind, phantom: PhantomData }
    }
}

impl<'a, T> Id<'a, T> where T: ItemTypeId {
    /// `r` is what parsing `input` into an Id of this kind gives, where the parse of `input` gave `parsed`: an Id
    /// holding `input` in the form found when the item type is right, the parse error otherwise.
    pub open spec fn parsed_from(
        r: Result<Self, IdError>,
        input: Cow<'a, str>,
        parsed: Result<(ItemType, IdKind), IdErrorView>,
    ) -> bool {
        match parsed {
            Ok((t, kind)) => if t == T::ITEM_TYPE {
                &&& r matches Ok(id)
                &&& id.text() == input@
                &&& id.kind() == kind
                &&& id.borrows() == (input is Borrowed)
            } else {
                r matches Err(e) && e@ == IdErrorView::WrongItemType(t)
            },
            Err(e0) => r matches Err(e) && e@ == e0,
        }
    }

    /// Parses a Spotify URL, a Spotify URI or, failing both, a bare Spotify ID into an Id. This is how an Id is read
    /// back from its serialized string.
    pub fn from_url_uri_or_bare(value: Cow<'a, str>) -> (r: Result<Self, IdError>)
        ensures
            Self::parsed_from(r, value, spec_parse_any(T::ITEM_TYPE, value@)),
    {
        let parsed = parse_item_type_and_kind_from_url_or_uri(cow_as_str(&value));
        match parsed {
            Ok((item_type, kind)) => {
                if item_type == T::ITEM_TYPE {
                    Ok(Id::new(value, kind))
                } else {
                    Err(IdError::WrongItemType(item_type))
                }
            },
            Err(_) => {
                if verify_valid_id(cow_as_str(&value)) {
                    Ok(Id::new(value, IdKind::Bare))
                } else {
                    Err(IdError::InvalidId(cow_to_string(&value)))
                }
            },
        }
    }
}

impl<'a, T> IdFromKnownKind<'a> for Id<'a, T> where T: ItemTypeId {
    fn from_uri(uri: Cow<'a, str>) -> (r: Result<Self, IdError>)
        ensures
            Self::parsed_from(r, uri, spec_parse_uri_kind(uri@)),
    {
        match parse_item_type_and_id_from_uri(cow_as_str(&uri)) {
            Ok((item_type, id_index)) => {
                if item_type == T::ITEM_TYPE {
                    Ok(Id::new(uri, IdKind::Uri(id_index)))
                } else {
                    Err(IdError::WrongItemType(item_type))
                }
            },
            Err(e) => Err(e),
        }
    }

    fn from_url(url: Cow<'a, str>) -> (r: Result<Self, IdError>)
        ensures
            Self::parsed_from(r, url, spec_parse_url_kind(url@)),
    {
        match parse_item_type_and_id_from_url(cow_as_str(&url)) {
            Ok((item_type, id_index)) => {
                if item_type == T::ITEM_TYPE {
                    Ok(Id::new(url, IdKind::Url(id_index)))
                } else {
                    Err(IdError::WrongItemType(item_type))
                }
            },
            Err(e) => Err(e),
        }
    }

    fn from_url_or_uri(url_or_uri: Cow<'a, str>) -> (r: Result<Self, IdError>)
        ensures
            Self::parsed_from(r, url_or_uri, spec_parse_url_or_uri(url_or_uri@)),
    {
        let v = chars_of(cow_as_str(&url_or_uri));
        if starts_with(&v, uri_prefix_str()) {
            Self::from_uri(url_or_uri)
        } else if starts_with(&v, url_prefix_str()) {
            Self::from_url(url_or_uri)
        } else {
            Err(IdError::MalformedString(cow_to_string(&url_or_uri)))
        }
    }
}

impl<'a, T> IdFromBare<'a> for Id<'a, T> where T: ItemTypeId {
    fn from_bare(bare: Cow<'a, str>) -> (r: Result<Self, IdError>)
        ensures
            Self::parsed_from(r, bare, spec_parse_bare(T::ITEM_TYPE, bare@)),
    {
        if verify_valid_id(cow_as_str(&bare)) {
            Ok(Id::new(bare, IdKind::Bare))
        } else {
            Err(IdError::InvalidId(cow_to_string(&bare)))
        }
    }
}

impl<'a, T> IdTrait<'a> for Id<'a, T> where T: ItemTypeId + 'static {
    type Owned = Id<'static, T>;

    type Borrowed = Id<'a, T>;

    fn as_str(&'a self) -> (r: &'a str)
        ensures
            r@ == self.bare_id(),
            spec_valid_id(r@),
            spec_well_formed_id(T::ITEM_TYPE, self.text(), self.kind()),
    {
        proof {
            use_type_invariant(self);
            law_well_formed_id_round_trip(T::ITEM_TYPE, self.text(), self.kind());
        }
        let s = cow_as_str(&self.value);
        let n = s.unicode_len();
        match self.kind {
            IdKind::Uri(index) => {
                proof {
                    law_parsed_uri_is_canonical(s@, T::ITEM_TYPE, index as int);
                }
                s.substring_char(index, n)
            },
            IdKind::Url(index) => {
                proof {
                    law_parsed_url_is_canonical(s@, T::ITEM_TYPE, index as int);
                }
                s.substring_char(index, index + ID_LENGTH)
            },
            IdKind::Bare => s,
        }
    }

    fn as_uri(&'a self) -> (r: Cow<'a, str>)
        ensures
            r@ == spec_uri_of(T::ITEM_TYPE, self.bare_id()),
            (r is Borrowed) == (self.kind() is Uri),
            spec_parse_uri(r@) == ok_at(T::ITEM_TYPE, uri_id_index(T::ITEM_TYPE)),
            r@.skip(uri_id_index(T::ITEM_TYPE)) == self.bare_id(),
            spec_well_formed_id(T::ITEM_TYPE, self.text(), self.kind()),
    {
        proof {
            use_type_invariant(self);
            law_well_formed_id_round_trip(T::ITEM_TYPE, self.text(), self.kind());
        }
        match self.kind {
            IdKind::Uri(index) => {
                proof {
                    law_parsed_uri_is_canonical(self.value@, T::ITEM_TYPE, index as int);
                }
                Cow::Borrowed(cow_as_str(&self.value))
            },
            IdKind::Url(index) => {
                let s = cow_as_str(&self.value);
                proof {
                    law_parsed_url_is_canonical(s@, T::ITEM_TYPE, index as int);
                }
                let n = s.unicode_len();
                Cow::Owned(build_uri(T::ITEM_TYPE, s.substring_char(index, index + ID_LENGTH)))
            },
            IdKind::Bare => Cow::Owned(build_uri(T::ITEM_TYPE, cow_as_str(&self.value))),
        }
    }

    fn as_url(&'a self) -> (r: Cow<'a, str>)
        ensures
            self.kind() is Url ==> r@ == self.text(),
            !(self.kind() is Url) ==> r@ == spec_url_of(T::ITEM_TYPE, self.bare_id()),
            (r is Borrowed) == (self.kind() is Url),
            spec_parse_url(r@) matches Ok((t, i)) && t == T::ITEM_TYPE && 0 <= i && i + ID_LENGTH <= r@.len()
                && r@.subrange(i, i + ID_LENGTH) == self.bare_id(),
            spec_well_formed_id(T::ITEM_TYPE, self.text(), self.kind()),
    {
        proof {
            use_type_invariant(self);
            law_well_formed_id_round_trip(T::ITEM_TYPE, self.text(), self.kind());
            if self.kind is Url {
                law_parsed_url_is_canonical(self.text(), T::ITEM_TYPE, self.kind->Url_0 as int);
            }
        }
        match self.kind {
            IdKind::Url(_) => Cow::Borrowed(cow_as_str(&self.value)),
            IdKind::Uri(index) => {
                let s = cow_as_str(&self.value);
                proof {
                    law_parsed_uri_is_canonical(s@, T::ITEM_TYPE, index as int);
                }
                let n = s.unicode_len();
                Cow::Owned(build_url(T::ITEM_TYPE, s.substring_char(index, n)))
            },
            IdKind::Bare => Cow::Owned(build_url(T::ITEM_TYPE, cow_as_str(&self.value))),
        }
    }

    fn as_owned(&'a self) -> (r: Id<'static, T>)
        ensures
            r.text() == self.text(),
            r.kind() == self.kind(),
            !r.borrows(),
    {
        proof {
            use_type_invariant(self);
        }
        Id::new(Cow::Owned(cow_to_string(&self.value)), self.kind)
    }

    fn as_borrowed(&'a self) -> (r: Id<'a, T>)
        ensures
            r.text() == self.text(),
            r.kind() == self.kind(),
            r.borrows(),
    {
        proof {
            use_type_invariant(self);
        }
        Id::new(Cow::Borrowed(cow_as_str(&self.value)), self.kind)
    }
}


impl<'a> PlayableItem<'a> {
    /// The item type of this ID.
    pub open spec fn item_type(&self) -> ItemType {
        match self {
            PlayableItem::Track(_) => ItemType::Track,
            PlayableItem::Episode(_) => ItemType::Episode,
        }
    }

    /// The string this ID holds, as it was given.
    pub open spec fn text(&self) -> Seq<char> {
        match self {
            PlayableItem::Track(id) => id.text(),
            PlayableItem::Episode(id) => id.text(),
        }
    }

    /// The form of the string this ID holds.
    pub open spec fn kind(&self) -> IdKind {
        match self {
            PlayableItem::Track(id) => id.kind(),
            PlayableItem::Episode(id) => id.kind(),
        }
    }

    /// Whether this ID borrows the string it holds.
    pub open spec fn borrows(&self) -> bool {
        match self {
            PlayableItem::Track(id) => id.borrows(),
            PlayableItem::Episode(id) => id.borrows(),
        }
    }

    /// The bare Spotify ID.
    pub open spec fn bare_id(&self) -> Seq<char> {
        spec_bare_of(self.text(), self.kind())
    }

    /// The item types a playable item can be: tracks and episodes.
    pub open spec fn accepts(t: ItemType) -> bool {
        t is Track || t is Episode
    }

    /// `r` is what parsing `input` into a playable item gives, where the parse of `input` gave `parsed`.
    pub open spec fn parsed_from(
        r: Result<Self, IdError>,
        input: Cow<'a, str>,
        parsed: Result<(ItemType, IdKind), IdErrorView>,
    ) -> bool {
        match parsed {
            Ok((t, kind)) => if Self::accepts(t) {
                &&& r matches Ok(p)
                &&& p.item_type() == t
                &&& p.text() == input@
                &&& p.kind() == kind
                &&& p.borrows() == (input is Borrowed)
            } else {
                r matches Err(e) && e@ == IdErrorView::WrongItemType(t)
            },
            Err(e0) => r matches Err(e) && e@ == e0,
        }
    }

    /// Wraps a value holding a parsed ID into the variant its item type calls for.
    fn from_parsed(value: Cow<'a, str>, item_type: ItemType, kind: IdKind) -> (r: Result<Self, IdError>)
        requires
            spec_well_formed_id(item_type, value@, kind),
        ensures
            Self::parsed_from(r, value, Ok((item_type, kind))),
    {
        match item_type {
            ItemType::Track => Ok(PlayableItem::Track(Id::new(value, kind))),
            ItemType::Episode => Ok(PlayableItem::Episode(Id::new(value, kind))),
            item_type => Err(IdError::WrongItemType(item_type)),
        }
    }
}

impl<'a> PlayableContext<'a> {
    /// The item type of this ID.
    pub open spec fn item_type(&self) -> ItemType {
        match self {
            PlayableContext::Artist(_) => ItemType::Artist,
            PlayableContext::Album(_) => ItemType::Album,
            PlayableContext::Playlist(_) => ItemType::Playlist,
            PlayableContext::Show(_) => ItemType::Show,
        }
    }

    /// The string this ID holds, as it was given.
    pub open spec fn text(&self) -> Seq<char> {
        match self {
            PlayableContext::Artist(id) => id.text(),
            PlayableContext::Album(id) => id.text(),
            PlayableContext::Playlist(id) => id.text(),
            PlayableContext::Show(id) => id.text(),
        }
    }

    /// The form of the string this ID holds.
    pub open spec fn kind(&self) -> IdKind {
        match self {
            PlayableContext::Artist(id) => id.kind(),
            PlayableContext::Album(id) => id.kind(),
            PlayableContext::Playlist(id) => id.kind(),
            PlayableContext::Show(id) => id.kind(),
        }
    }

    /// Whether this ID borrows the string it holds.
    pub open spec fn borrows(&self) -> bool {
        match self {
            PlayableContext::Artist(id) => id.borrows(),
            PlayableContext::Album(id) => id.borrows(),
            PlayableContext::Playlist(id) => id.borrows(),
            PlayableContext::Show(id) => id.borrows(),
        }
    }

    /// The bare Spotify ID.
    pub open spec fn bare_id(&self) -> Seq<char> {
        spec_bare_of(self.text(), self.kind())
    }

    /// The item types a playable context can be: artists, albums, playlists and shows.
    pub open spec fn accepts(t: ItemType) -> bool {
        t is Artist || t is Album || t is Playlist || t is Show
    }

    /// `r` is what parsing `input` into a playable context gives, where the parse of `input` gave `parsed`.
    pub open spec fn parsed_from(
        r: Result<Self, IdError>,
        input: Cow<'a, str>,
        parsed: Result<(ItemType, IdKind), IdErrorView>,
    ) -> bool {
        match parsed {
            Ok((t, kind)) => if Self::accepts(t) {
                &&& r matches Ok(p)
                &&& p.item_type() == t
                &&& p.text() == input@
                &&& p.kind() == kind
                &&& p.borrows() == (input is Borrowed)
            } else {
                r matches Err(e) && e@ == IdErrorView::WrongItemType(t)
            },
            Err(e0) => r matches Err(e) && e@ == e0,
        }
    }

    /// Wraps a value holding a parsed ID into the variant its item type calls for.
    fn from_parsed(value: Cow<'a, str>, item_type: ItemType, kind: IdKind) -> (r: Result<Self, IdError>)
        requires
            spec_well_formed_id(item_type, value@, kind),
        ensures
            Self::parsed_from(r, value, Ok((item_type, kind))),
    {
        match item_type {
            ItemType::Album => Ok(PlayableContext::Album(Id::new(value, kind))),
            ItemType::Artist => Ok(PlayableContext::Artist(Id::new(value, kind))),
            ItemType::Playlist => Ok(PlayableContext::Playlist(Id::new(value, kind))),
            ItemType::Show => Ok(PlayableContext::Show(Id::new(value, kind))),
            item_type => Err(IdError::WrongItemType(item_type)),
        }
    }
}

impl<'a> SpotifyId<'a> {
    /// The item type of this ID.
    pub open spec fn item_type(&self) -> ItemType {
        match self {
            SpotifyId::Item(item) => item.item_type(),
            SpotifyId::Context(context) => context.item_type(),
        }
    }

    /// The string this ID holds, as it was given.
    pub open spec fn text(&self) -> Seq<char> {
        match self {
            SpotifyId::Item(item) => item.text(),
            SpotifyId::Context(context) => context.text(),
        }
    }

    /// The form of the string this ID holds.
    pub open spec fn kind(&self) -> IdKind {
        match self {
            SpotifyId::Item(item) => item.kind(),
            SpotifyId::Context(context) => context.kind(),
        }
    }

    /// Whether this ID borrows the string it holds.
    pub open spec fn borrows(&self) -> bool {
        match self {
            SpotifyId::Item(item) => item.borrows(),
            SpotifyId::Context(context) => context.borrows(),
        }
    }

    /// The bare Spotify ID.
    pub open spec fn bare_id(&self) -> Seq<char> {
        spec_bare_of(self.text(), self.kind())
    }

    /// The item types a Spotify ID can be: every playable item and every playable context.
    pub open spec fn accepts(t: ItemType) -> bool {
        PlayableItem::accepts(t) || PlayableContext::accepts(t)
    }

    /// `r` is what parsing `input` into a Spotify ID gives, where the parse of `input` gave `parsed`.
    pub open spec fn parsed_from(
        r: Result<Self, IdError>,
        input: Cow<'a, str>,
        parsed: Result<(ItemType, IdKind), IdErrorView>,
    ) -> bool {
        match parsed {
            Ok((t, kind)) => if Self::accepts(t) {
                &&& r matches Ok(p)
                &&& p.item_type() == t
                &&& (p is Item) == PlayableItem::accepts(t)
                &&& p.text() == input@
                &&& p.kind() == kind
                &&& p.borrows() == (input is Borrowed)
            } else {
                r matches Err(e) && e@ == IdErrorView::WrongItemType(t)
            },
            Err(e0) => r matches Err(e) && e@ == e0,
        }
    }

    /// Wraps a value holding a parsed ID into the variant its item type calls for.
    fn from_parsed(value: Cow<'a, str>, item_type: ItemType, kind: IdKind) -> (r: Result<Self, IdError>)
        requires
            spec_well_formed_id(item_type, value@, kind),
        ensures
            Self::parsed_from(r, value, Ok((item_type, kind))),
    {
        match item_type {
            ItemType::Track => Ok(SpotifyId::Item(PlayableItem::Track(Id::new(value, kind)))),
            ItemType::Episode => Ok(SpotifyId::Item(PlayableItem::Episode(Id::new(value, kind)))),
            ItemType::Album => Ok(SpotifyId::Context(PlayableContext::Album(Id::new(value, kind)))),
            ItemType::Artist => Ok(SpotifyId::Context(PlayableContext::Artist(Id::new(value, kind)))),
            ItemType::Playlist => Ok(SpotifyId::Context(PlayableContext::Playlist(Id::new(value, kind)))),
            ItemType::Show => Ok(SpotifyId::Context(PlayableContext::Show(Id::new(value, kind)))),
            item_type => Err(IdError::WrongItemType(item_type)),
        }
    }
}

impl<'a> IdFromKnownKind<'a> for PlayableItem<'a> {
    fn from_uri(uri: Cow<'a, str>) -> (r: Result<Self, IdError>)
        ensures
            Self::parsed_from(r, uri, spec_parse_uri_kind(uri@)),
    {
        match parse_item_type_and_id_from_uri(cow_as_str(&uri)) {
            Ok((item_type, id_index)) => Self::from_parsed(uri, item_type, IdKind::Uri(id_index)),
            Err(e) => Err(e),
        }
    }

    fn from_url(url: Cow<'a, str>) -> (r: Result<Self, IdError>)
        ensures
            Self::parsed_from(r, url, spec_parse_url_kind(url@)),
    {
        match parse_item_type_and_id_from_url(cow_as_str(&url)) {
            Ok((item_type, id_index)) => Self::from_parsed(url, item_type, IdKind::Url(id_index)),
            Err(e) => Err(e),
        }
    }

    fn from_url_or_uri(url_or_uri: Cow<'a, str>) -> (r: Result<Self, IdError>)
        ensures
            Self::parsed_from(r, url_or_uri, spec_parse_url_or_uri(url_or_uri@)),
    {
        match parse_item_type_and_kind_from_url_or_uri(cow_as_str(&url_or_uri)) {
            Ok((item_type, kind)) => Self::from_parsed(url_or_uri, item_type, kind),
            Err(e) => Err(e),
        }
    }
}

impl<'a> IdFromKnownKind<'a> for PlayableContext<'a> {
    fn from_uri(uri: Cow<'a, str>) -> (r: Result<Self, IdError>)
        ensures
            Self::parsed_from(r, uri, spec_parse_uri_kind(uri@)),
    {
        match parse_item_type_and_id_from_uri(cow_as_str(&uri)) {
            Ok((item_type, id_index)) => Self::from_parsed(uri, item_type, IdKind::Uri(id_index)),
            Err(e) => Err(e),
        }
    }

    fn from_url(url: Cow<'a, str>) -> (r: Result<Self, IdError>)
        ensures
            Self::parsed_from(r, url, spec_parse_url_kind(url@)),
    {
        match parse_item_type_and_id_from_url(cow_as_str(&url)) {
            Ok((item_type, id_index)) => Self::from_parsed(url, item_type, IdKind::Url(id_index)),
            Err(e) => Err(e),
        }
    }

    fn from_url_or_uri(url_or_uri: Cow<'a, str>) -> (r: Result<Self, IdError>)
        ensures
            Self::parsed_from(r, url_or_uri, spec_parse_url_or_uri(url_or_uri@)),
    {
        match parse_item_type_and_kind_from_url_or_uri(cow_as_str(&url_or_uri)) {
            Ok((item_type, kind)) => Self::from_parsed(url_or_uri, item_type, kind),
            Err(e) => Err(e),
        }
    }
}

impl<'a> IdFromKnownKind<'a> for SpotifyId<'a> {
    fn from_uri(uri: Cow<'a, str>) -> (r: Result<Self, IdError>)
        ensures
            Self::parsed_from(r, uri, spec_parse_uri_kind(uri@)),
    {
        match parse_item_type_and_id_from_uri(cow_as_str(&uri)) {
            Ok((item_type, id_index)) => Self::from_parsed(uri, item_type, IdKind::Uri(id_index)),
            Err(e) => Err(e),
        }
    }

    fn from_url(url: Cow<'a, str>) -> (r: Result<Self, IdError>)
        ensures
            Self::parsed_from(r, url, spec_parse_url_kind(url@)),
    {
        match parse_item_type_and_id_from_url(cow_as_str(&url)) {
            Ok((item_type, id_index)) => Self::from_parsed(url, item_type, IdKind::Url(id_index)),
            Err(e) => Err(e),
        }
    }

    fn from_url_or_uri(url_or_uri: Cow<'a, str>) -> (r: Result<Self, IdError>)
        ensures
            Self::parsed_from(r, url_or_uri, spec_parse_url_or_uri(url_or_uri@)),
    {
        match parse_item_type_and_kind_from_url_or_uri(cow_as_str(&url_or_uri)) {
            Ok((item_type, kind)) => Self::from_parsed(url_or_uri, item_type, kind),
            Err(e) => Err(e),
        }
    }
}


impl<'a> IdTrait<'a> for PlayableItem<'a> {
    type Owned = PlayableItem<'static>;

    type Borrowed = PlayableItem<'a>;

    fn as_str(&'a self) -> (r: &'a str)
        ensures
            r@ == self.bare_id(),
    {
        match self {
            PlayableItem::Track(track) => track.as_str(),
            PlayableItem::Episode(episode) => episode.as_str(),
        }
    }

    fn as_uri(&'a self) -> (r: Cow<'a, str>)
        ensures
            r@ == spec_uri_of(self.item_type(), self.bare_id()),
            (r is Borrowed) == (self.kind() is Uri),
    {
        match self {
            PlayableItem::Track(track) => track.as_uri(),
            PlayableItem::Episode(episode) => episode.as_uri(),
        }
    }

    fn as_url(&'a self) -> (r: Cow<'a, str>)
        ensures
            self.kind() is Url ==> r@ == self.text(),
            !(self.kind() is Url) ==> r@ == spec_url_of(self.item_type(), self.bare_id()),
            (r is Borrowed) == (self.kind() is Url),
    {
        match self {
            PlayableItem::Track(track) => track.as_url(),
            PlayableItem::Episode(episode) => episode.as_url(),
        }
    }

    fn as_owned(&'a self) -> (r: PlayableItem<'static>)
        ensures
            r.item_type() == self.item_type(),
            r.text() == self.text(),
            r.kind() == self.kind(),
            !r.borrows(),
    {
        match self {
            PlayableItem::Track(track) => PlayableItem::Track(track.as_owned()),
            PlayableItem::Episode(episode) => PlayableItem::Episode(episode.as_owned()),
        }
    }

    fn as_borrowed(&'a self) -> (r: PlayableItem<'a>)
        ensures
            r.item_type() == self.item_type(),
            r.text() == self.text(),
            r.kind() == self.kind(),
            r.borrows(),
    {
        match self {
            PlayableItem::Track(track) => PlayableItem::Track(track.as_borrowed()),
            PlayableItem::Episode(episode) => PlayableItem::Episode(episode.as_borrowed()),
        }
    }
}

impl<'a> IdTrait<'a> for PlayableContext<'a> {
    type Owned = PlayableContext<'static>;

    type Borrowed = PlayableContext<'a>;

    fn as_str(&'a self) -> (r: &'a str)
        ensures
            r@ == self.bare_id(),
    {
        match self {
            PlayableContext::Artist(artist) => artist.as_str(),
            PlayableContext::Album(album) => album.as_str(),
            PlayableContext::Playlist(playlist) => playlist.as_str(),
            PlayableContext::Show(show) => show.as_str(),
        }
    }

    fn as_uri(&'a self) -> (r: Cow<'a, str>)
        ensures
            r@ == spec_uri_of(self.item_type(), self.bare_id()),
            (r is Borrowed) == (self.kind() is Uri),
    {
        match self {
            PlayableContext::Artist(artist) => artist.as_uri(),
            PlayableContext::Album(album) => album.as_uri(),
            PlayableContext::Playlist(playlist) => playlist.as_uri(),
            PlayableContext::Show(show) => show.as_uri(),
        }
    }

    fn as_url(&'a self) -> (r: Cow<'a, str>)
        ensures
            self.kind() is Url ==> r@ == self.text(),
            !(self.kind() is Url) ==> r@ == spec_url_of(self.item_type(), self.bare_id()),
            (r is Borrowed) == (self.kind() is Url),
    {
        match self {
            PlayableContext::Artist(artist) => artist.as_url(),
            PlayableContext::Album(album) => album.as_url(),
            PlayableContext::Playlist(playlist) => playlist.as_url(),
            PlayableContext::Show(show) => show.as_url(),
        }
    }

    fn as_owned(&'a self) -> (r: PlayableContext<'static>)
        ensures
            r.item_type() == self.item_type(),
            r.text() == self.text(),
            r.kind() == self.kind(),
            !r.borrows(),
    {
        match self {
            PlayableContext::Artist(artist) => PlayableContext::Artist(artist.as_owned()),
            PlayableContext::Album(album) => PlayableContext::Album(album.as_owned()),
            PlayableContext::Playlist(playlist) => PlayableContext::Playlist(playlist.as_owned()),
            PlayableContext::Show(show) => PlayableContext::Show(show.as_owned()),
        }
    }

    fn as_borrowed(&'a self) -> (r: PlayableContext<'a>)
        ensures
            r.item_type() == self.item_type(),
            r.text() == self.text(),
            r.kind() == self.kind(),
            r.borrows(),
    {
        match self {
            PlayableContext::Artist(artist) => PlayableContext::Artist(artist.as_borrowed()),
            PlayableContext::Album(album) => PlayableContext::Album(album.as_borrowed()),
            PlayableContext::Playlist(playlist) => PlayableContext::Playlist(playlist.as_borrowed()),
            PlayableContext::Show(show) => PlayableContext::Show(show.as_borrowed()),
        }
    }
}

impl<'a> IdTrait<'a> for SpotifyId<'a> {
    type Owned = SpotifyId<'static>;

    type Borrowed = SpotifyId<'a>;

    fn as_str(&'a self) -> (r: &'a str)
        ensures
            r@ == self.bare_id(),
    {
        match self {
            SpotifyId::Item(item) => item.as_str(),
            SpotifyId::Context(context) => context.as_str(),
        }
    }

    fn as_uri(&'a self) -> (r: Cow<'a, str>)
        ensures
            r@ == spec_uri_of(self.item_type(), self.bare_id()),
            (r is Borrowed) == (self.kind() is Uri),
    {
        match self {
            SpotifyId::Item(item) => item.as_uri(),
            SpotifyId::Context(context) => context.as_uri(),
        }
    }

    fn as_url(&'a self) -> (r: Cow<'a, str>)
        ensures
            self.kind() is Url ==> r@ == self.text(),
            !(self.kind() is Url) ==> r@ == spec_url_of(self.item_type(), self.bare_id()),
            (r is Borrowed) == (self.kind() is Url),
    {
        match self {
            SpotifyId::Item(item) => item.as_url(),
            SpotifyId::Context(context) => context.as_url(),
        }
    }

    fn as_owned(&'a self) -> (r: SpotifyId<'static>)
        ensures
            r.item_type() == self.item_type(),
            (r is Item) == (self is Item),
            r.text() == self.text(),
            r.kind() == self.kind(),
            !r.borrows(),
    {
        match self {
            SpotifyId::Item(item) => SpotifyId::Item(item.as_owned()),
            SpotifyId::Context(context) => SpotifyId::Context(context.as_owned()),
        }
    }

    fn as_borrowed(&'a self) -> (r: SpotifyId<'a>)
        ensures
            r.item_type() == self.item_type(),
            (r is Item) == (self is Item),
            r.text() == self.text(),
            r.kind() == self.kind(),
            r.borrows(),
    {
        match self {
            SpotifyId::Item(item) => SpotifyId::Item(item.as_borrowed()),
            SpotifyId::Context(context) => SpotifyId::Context(context.as_borrowed()),
        }
    }
}

impl<'a> From<Id<'a, TrackId>> for PlayableItem<'a> {
    fn from(id: Id<'a, TrackId>) -> (r: Self)
        ensures
            r == PlayableItem::Track(id),
    {
        PlayableItem::Track(id)
    }
}

impl<'a> vstd::std_specs::convert::FromSpecImpl<Id<'a, TrackId>> for PlayableItem<'a> {
    open spec fn obeys_from_spec() -> bool {
        true
    }

    open spec fn from_spec(v: Id<'a, TrackId>) -> Self {
        PlayableItem::Track(v)
    }
}

impl<'a> From<Id<'a, EpisodeId>> for PlayableItem<'a> {
    fn from(id: Id<'a, EpisodeId>) -> (r: Self)
        ensures
            r == PlayableItem::Episode(id),
    {
        PlayableItem::Episode(id)
    }
}

impl<'a> vstd::std_specs::convert::FromSpecImpl<Id<'a, EpisodeId>> for PlayableItem<'a> {
    open spec fn obeys_from_spec() -> bool {
        true
    }

    open spec fn from_spec(v: Id<'a, EpisodeId>) -> Self {
        PlayableItem::Episode(v)
    }
}

impl<'a> From<Id<'a, AlbumId>> for PlayableContext<'a> {
    fn from(id: Id<'a, AlbumId>) -> (r: Self)
        ensures
            r == PlayableContext::Album(id),
    {
        PlayableContext::Album(id)
    }
}

impl<'a> vstd::std_specs::convert::FromSpecImpl<Id<'a, AlbumId>> for PlayableContext<'a> {
    open spec fn obeys_from_spec() -> bool {
        true
    }

    open spec fn from_spec(v: Id<'a, AlbumId>) -> Self {
        PlayableContext::Album(v)
    }
}

impl<'a> From<Id<'a, ArtistId>> for PlayableContext<'a> {
    fn from(id: Id<'a, ArtistId>) -> (r: Self)
        ensures
            r == PlayableContext::Artist(id),
    {
        PlayableContext::Artist(id)
    }
}

impl<'a> vstd::std_specs::convert::FromSpecImpl<Id<'a, ArtistId>> for PlayableContext<'a> {
    open spec fn obeys_from_spec() -> bool {
        true
    }

    open spec fn from_spec(v: Id<'a, ArtistId>) -> Self {
        PlayableContext::Artist(v)
    }
}

impl<'a> From<Id<'a, PlaylistId>> for PlayableContext<'a> {
    fn from(id: Id<'a, PlaylistId>) -> (r: Self)
        ensures
            r == PlayableContext::Playlist(id),
    {
        PlayableContext::Playlist(id)
    }
}

impl<'a> vstd::std_specs::convert::FromSpecImpl<Id<'a, PlaylistId>> for PlayableContext<'a> {
    open spec fn obeys_from_spec() -> bool {
        true
    }

    open spec fn from_spec(v: Id<'a, PlaylistId>) -> Self {
        PlayableContext::Playlist(v)
    }
}

impl<'a> From<Id<'a, ShowId>> for PlayableContext<'a> {
    fn from(id: Id<'a, ShowId>) -> (r: Self)
        ensures
            r == PlayableContext::Show(id),
    {
        PlayableContext::Show(id)
    }
}

impl<'a> vstd::std_specs::convert::FromSpecImpl<Id<'a, ShowId>> for PlayableContext<'a> {
    open spec fn obeys_from_spec() -> bool {
        true
    }

    open spec fn from_spec(v: Id<'a, ShowId>) -> Self {
        PlayableContext::Show(v)
    }
}

impl<'a> From<PlayableItem<'a>> for SpotifyId<'a> {
    fn from(item: PlayableItem<'a>) -> (r: Self)
        ensures
            r == SpotifyId::Item(item),
    {
        SpotifyId::Item(item)
    }
}

impl<'a> vstd::std_specs::convert::FromSpecImpl<PlayableItem<'a>> for SpotifyId<'a> {
    open spec fn obeys_from_spec() -> bool {
        true
    }

    open spec fn from_spec(v: PlayableItem<'a>) -> Self {
        SpotifyId::Item(v)
    }
}

impl<'a> From<PlayableContext<'a>> for SpotifyId<'a> {
    fn from(context: PlayableContext<'a>) -> (r: Self)
        ensures
            r == SpotifyId::Context(context),
    {
        SpotifyId::Context(context)
    }
}

impl<'a> vstd::std_specs::convert::FromSpecImpl<PlayableContext<'a>> for SpotifyId<'a> {
    open spec fn obeys_from_spec() -> bool {
        true
    }

    open spec fn from_spec(v: PlayableContext<'a>) -> Self {
        SpotifyId::Context(v)
    }
}

/// The canonical URI of any item type and any valid ID parses back to that item type and that ID.
pub proof fn law_uri_round_trip(t: ItemType, bare: Seq<char>)
    requires
        spec_valid_id(bare),
    ensures
        spec_parse_uri(spec_uri_of(t, bare)) == ok_at(t, uri_id_index(t)),
        spec_uri_of(t, bare).skip(uri_id_index(t)) == bare,
{
    let s = spec_uri_of(t, bare);
    let name = t.spec_name();
    let n = name.len() as int;
    lemma_name_chars(t);
    assert(s.take(8) =~= uri_prefix());
    let tail = s.skip(8);
    assert(tail =~= name + seq![':'] + bare);
    assert(is_first_index(tail, ':', n));
    lemma_first_index_of_is(tail, ':', n);
    assert(tail.take(n) =~= name);
    assert(tail.skip(n + 1) =~= bare);
    law_item_type_name_round_trip(t, name);
    assert(s.skip(8 + n + 1) =~= bare);
}

/// The canonical URL of any item type and any valid ID, with or without a query `?<query>`, parses back to that item
/// type and that ID.
pub proof fn law_url_round_trip(t: ItemType, bare: Seq<char>, query: Option<Seq<char>>)
    requires
        spec_valid_id(bare),
    ensures
        ({
            let url = match query {
                Some(q) => spec_url_of(t, bare) + seq!['?'] + q,
                None => spec_url_of(t, bare),
            };
            let i = url_id_index(t);
            &&& spec_parse_url(url) == ok_at(t, i)
            &&& url.subrange(i, i + ID_LENGTH) == bare
        }),
{
    let url = match query {
        Some(q) => spec_url_of(t, bare) + seq!['?'] + q,
        None => spec_url_of(t, bare),
    };
    let name = t.spec_name();
    let n = name.len() as int;
    lemma_name_chars(t);
    assert(url.take(25) =~= url_prefix());
    let tail = url.skip(25);
    assert(is_first_index(tail, '/', n)) by {
        assert(tail[n] == '/');
        assert forall|j: int| 0 <= j < n implies tail[j] != '/' by {
            assert(tail[j] == name[j]);
        }
    }
    lemma_first_index_of_is(tail, '/', n);
    assert(tail.take(n) =~= name);
    let rest = tail.skip(n + 1);
    match query {
        Some(q) => {
            assert(rest =~= bare + seq!['?'] + q);
            assert(is_first_index(rest, '?', 22)) by {
                assert forall|j: int| 0 <= j < 22 implies rest[j] != '?' by {
                    assert(rest[j] == bare[j]);
                    assert(is_id_char(bare[j]));
                }
            }
            lemma_first_index_of_is(rest, '?', 22);
            assert(rest.take(22) =~= bare);
        },
        None => {
            assert(rest =~= bare);
            assert forall|j: int| 0 <= j < rest.len() implies rest[j] != '?' by {
                assert(is_id_char(bare[j]));
            }
            lemma_first_index_of_none(rest, '?');
        },
    }
    law_item_type_name_round_trip(t, name);
    assert(url.subrange(25 + n + 1, 25 + n + 1 + ID_LENGTH) =~= bare);
}

/// The bare ID of a well-formed ID is a valid Spotify ID, and the URI and the URL built from it parse back to the
/// same item type and the same bare ID: what [IdTrait::as_uri] and [IdTrait::as_url] return parses back into the ID.
pub proof fn law_well_formed_id_round_trip(t: ItemType, text: Seq<char>, kind: IdKind)
    requires
        spec_well_formed_id(t, text, kind),
    ensures
        spec_valid_id(spec_bare_of(text, kind)),
        spec_parse_uri(spec_uri_of(t, spec_bare_of(text, kind))) == ok_at(t, uri_id_index(t)),
        spec_uri_of(t, spec_bare_of(text, kind)).skip(uri_id_index(t)) == spec_bare_of(text, kind),
        spec_parse_url(spec_url_of(t, spec_bare_of(text, kind))) == ok_at(t, url_id_index(t)),
        spec_url_of(t, spec_bare_of(text, kind)).subrange(url_id_index(t), url_id_index(t) + ID_LENGTH)
            == spec_bare_of(text, kind),
{
    let bare = spec_bare_of(text, kind);
    assert(spec_valid_id(bare)) by {
        match kind {
            IdKind::Uri(i) => law_parsed_uri_is_canonical(text, t, i as int),
            IdKind::Url(i) => law_parsed_url_is_canonical(text, t, i as int),
            IdKind::Bare => {},
        }
    }
    law_uri_round_trip(t, bare);
    law_url_round_trip(t, bare, None);
}

/// A string that parses as a URI, a URL or either of the two names its item type in a well-formed way, and the bare ID
/// it holds is a valid Spotify ID: 22 alphanumeric characters, which [IdTrait::as_str] returns without allocating.
pub proof fn law_parsed_id_is_well_formed(s: Seq<char>, t: ItemType, kind: IdKind)
    requires
        s.len() <= usize::MAX,
        spec_parse_uri_kind(s) == Ok::<(ItemType, IdKind), IdErrorView>((t, kind)) || spec_parse_url_kind(s)
            == Ok::<(ItemType, IdKind), IdErrorView>((t, kind)) || spec_parse_url_or_uri(s) == Ok::<
            (ItemType, IdKind),
            IdErrorView,
        >((t, kind)),
    ensures
        spec_well_formed_id(t, s, kind),
        spec_valid_id(spec_bare_of(s, kind)),
{
    if spec_parse_uri(s) is Ok && spec_parse_uri_kind(s) == Ok::<(ItemType, IdKind), IdErrorView>((t, kind)) {
        let i = spec_parse_uri(s)->Ok_0.1;
        law_parsed_uri_is_canonical(s, t, i);
        assert(kind == IdKind::Uri(i as usize));
    } else if spec_parse_url(s) is Ok && spec_parse_url_kind(s) == Ok::<(ItemType, IdKind), IdErrorView>((t, kind)) {
        let i = spec_parse_url(s)->Ok_0.1;
        law_parsed_url_is_canonical(s, t, i);
        assert(kind == IdKind::Url(i as usize));
    } else if has_prefix(s, uri_prefix()) {
        let i = spec_parse_uri(s)->Ok_0.1;
        law_parsed_uri_is_canonical(s, t, i);
        assert(kind == IdKind::Uri(i as usize));
    } else {
        let i = spec_parse_url(s)->Ok_0.1;
        law_parsed_url_is_canonical(s, t, i);
        assert(kind == IdKind::Url(i as usize));
    }
}

/// The string a well-formed ID holds parses back into the same item type and the same form when it is read as a URL,
/// a URI or a bare ID: what an ID is written as is read back into the same ID.
pub proof fn law_id_text_reparses(t: ItemType, text: Seq<char>, kind: IdKind)
    requires
        spec_well_formed_id(t, text, kind),
    ensures
        spec_parse_any(t, text) == Ok::<(ItemType, IdKind), IdErrorView>((t, kind)),
{
    match kind {
        IdKind::Uri(i) => {
            law_parsed_uri_is_canonical(text, t, i as int);
            assert(has_prefix(text, uri_prefix()));
        },
        IdKind::Url(i) => {
            law_parsed_url_is_canonical(text, t, i as int);
            assert(has_prefix(text, url_prefix()));
            assert(text.take(8)[0] == 'h');
            assert(!has_prefix(text, uri_prefix()));
        },
        IdKind::Bare => {
            assert(is_id_char(text[7]));
            assert(text.take(8)[7] == text[7]);
            assert(!has_prefix(text, uri_prefix()));
            assert(!has_prefix(text, url_prefix()));
        },
    }
}

/// How the canonical URI and URL of an item parse, whichever parser reads them.
proof fn lemma_canonical_parses(t: ItemType, bare: Seq<char>)
    requires
        spec_valid_id(bare),
    ensures
        spec_parse_uri_kind(spec_uri_of(t, bare)) == Ok::<(ItemType, IdKind), IdErrorView>(
            (t, IdKind::Uri(uri_id_index(t) as usize)),
        ),
        spec_parse_url_or_uri(spec_uri_of(t, bare)) == spec_parse_uri_kind(spec_uri_of(t, bare)),
        spec_bare_of(spec_uri_of(t, bare), IdKind::Uri(uri_id_index(t) as usize)) == bare,
        spec_parse_url_kind(spec_url_of(t, bare)) == Ok::<(ItemType, IdKind), IdErrorView>(
            (t, IdKind::Url(url_id_index(t) as usize)),
        ),
        spec_parse_url_or_uri(spec_url_of(t, bare)) == spec_parse_url_kind(spec_url_of(t, bare)),
        spec_bare_of(spec_url_of(t, bare), IdKind::Url(url_id_index(t) as usize)) == bare,
{
    law_uri_round_trip(t, bare);
    law_url_round_trip(t, bare, None);
    let uri = spec_uri_of(t, bare);
    let url = spec_url_of(t, bare);
    assert(has_prefix(uri, uri_prefix()));
    law_parsed_url_is_canonical(url, t, url_id_index(t));
    assert(has_prefix(url, url_prefix()));
    assert(url.take(8)[0] == 'h');
    assert(!has_prefix(url, uri_prefix()));
    assert(0 <= uri_id_index(t) < 100);
    assert(0 <= url_id_index(t) < 100);
}

/// A playable item is a track or an episode: the URI or URL of a track or an episode parses into a playable item of
/// that type with that ID, and the URI or URL of any other item type is refused as the wrong item type.
#[verifier::spinoff_prover]
pub proof fn law_playable_item_types<'a>(
    t: ItemType,
    bare: Seq<char>,
    input: Cow<'a, str>,
    parsed: Result<(ItemType, IdKind), IdErrorView>,
    r: Result<PlayableItem<'a>, IdError>,
)
    requires
        spec_valid_id(bare),
        (input@ == spec_uri_of(t, bare) && (parsed == spec_parse_uri_kind(input@) || parsed == spec_parse_url_or_uri(
            input@,
        ))) || (input@ == spec_url_of(t, bare) && (parsed == spec_parse_url_kind(input@) || parsed
            == spec_parse_url_or_uri(input@))),
        PlayableItem::parsed_from(r, input, parsed),
    ensures
        (t is Track || t is Episode) ==> (r matches Ok(p) && p.item_type() == t && p.bare_id() == bare),
        !(t is Track || t is Episode) ==> (r matches Err(e) && e@ == IdErrorView::WrongItemType(t)),
{
    lemma_canonical_parses(t, bare);
}

/// A playable context is an artist, an album, a playlist or a show: the URI or URL of one of these parses into a
/// playable context of that type with that ID, and the URI or URL of any other item type is refused as the wrong item
/// type.
#[verifier::spinoff_prover]
pub proof fn law_playable_context_types<'a>(
    t: ItemType,
    bare: Seq<char>,
    input: Cow<'a, str>,
    parsed: Result<(ItemType, IdKind), IdErrorView>,
    r: Result<PlayableContext<'a>, IdError>,
)
    requires
        spec_valid_id(bare),
        (input@ == spec_uri_of(t, bare) && (parsed == spec_parse_uri_kind(input@) || parsed == spec_parse_url_or_uri(
            input@,
        ))) || (input@ == spec_url_of(t, bare) && (parsed == spec_parse_url_kind(input@) || parsed
            == spec_parse_url_or_uri(input@))),
        PlayableContext::parsed_from(r, input, parsed),
    ensures
        (t is Artist || t is Album || t is Playlist || t is Show) ==> (r matches Ok(p) && p.item_type() == t
            && p.bare_id() == bare),
        !(t is Artist || t is Album || t is Playlist || t is Show) ==> (r matches Err(e) && e@
            == IdErrorView::WrongItemType(t)),
{
    lemma_canonical_parses(t, bare);
}

/// A Spotify ID is any playable item or playable context: the URI or URL of a track, an episode, an artist, an album,
/// a playlist or a show parses into a Spotify ID of that type with that ID; that of a collection or a user is refused
/// as the wrong item type.
#[verifier::spinoff_prover]
pub proof fn law_spotify_id_types<'a>(
    t: ItemType,
    bare: Seq<char>,
    input: Cow<'a, str>,
    parsed: Result<(ItemType, IdKind), IdErrorView>,
    r: Result<SpotifyId<'a>, IdError>,
)
    requires
        spec_valid_id(bare),
        (input@ == spec_uri_of(t, bare) && (parsed == spec_parse_uri_kind(input@) || parsed == spec_parse_url_or_uri(
            input@,
        ))) || (input@ == spec_url_of(t, bare) && (parsed == spec_parse_url_kind(input@) || parsed
            == spec_parse_url_or_uri(input@))),
        SpotifyId::parsed_from(r, input, parsed),
    ensures
        !(t is Collection || t is User) ==> (r matches Ok(p) && p.item_type() == t && p.bare_id() == bare),
        (t is Collection || t is User) ==> (r matches Err(e) && e@ == IdErrorView::WrongItemType(t)),
{
    lemma_canonical_parses(t, bare);
}

/// Parsing either a URI or a URL goes by the prefix: a string that starts with `spotify:` is parsed as a URI, one that
/// starts with `https://open.spotify.com/` as a URL, and any other string is malformed.
pub proof fn law_url_or_uri_by_prefix(s: Seq<char>)
    ensures
        has_prefix(s, uri_prefix()) ==> spec_parse_url_or_uri(s) == spec_parse_uri_kind(s),
        !has_prefix(s, uri_prefix()) && has_prefix(s, url_prefix()) ==> spec_parse_url_or_uri(s)
            == spec_parse_url_kind(s),
        !has_prefix(s, uri_prefix()) && !has_prefix(s, url_prefix()) ==> spec_parse_url_or_uri(s) == Err::<
            (ItemType, IdKind),
            IdErrorView,
        >(IdErrorView::MalformedString(s)),
{
}

/// Parsing the URI or the URL of an item of another type than `T` into an `Id<T>` fails with
/// [IdError::WrongItemType], naming the item type found.
pub proof fn law_id_of_other_type_rejected<'a, T: ItemTypeId>(
    r: Result<Id<'a, T>, IdError>,
    input: Cow<'a, str>,
    u: ItemType,
    bare: Seq<char>,
)
    requires
        spec_valid_id(bare),
        u != T::ITEM_TYPE,
        input@ == spec_uri_of(u, bare) || input@ == spec_url_of(u, bare),
        Id::<T>::parsed_from(r, input, spec_parse_url_or_uri(input@)),
    ensures
        r matches Err(e) && e@ == IdErrorView::WrongItemType(u),
{
    law_uri_round_trip(u, bare);
    law_url_round_trip(u, bare, None);
    if input@ == spec_uri_of(u, bare) {
        assert(input@.take(8) =~= uri_prefix());
    } else {
        assert(input@.take(25) =~= url_prefix());
        assert(!has_prefix(input@, uri_prefix())) by {
            assert(input@[0] == 'h');
            assert(input@.take(8)[0] == input@[0]);
        }
    }
}

/// Parsing the URI of an ID (what [IdTrait::as_uri] returns) with [IdFromKnownKind::from_uri] gives back an ID with
/// the same bare ID.
pub proof fn law_id_uri_parses_back<'a, 'b, T: ItemTypeId>(
    id: Id<'a, T>,
    uri: Cow<'b, str>,
    r: Result<Id<'b, T>, IdError>,
)
    requires
        spec_well_formed_id(T::ITEM_TYPE, id.text(), id.kind()),
        uri@ == spec_uri_of(T::ITEM_TYPE, id.bare_id()),
        Id::<T>::parsed_from(r, uri, spec_parse_uri_kind(uri@)),
    ensures
        r matches Ok(parsed) && parsed.bare_id() == id.bare_id() && parsed.kind() is Uri,
{
    law_well_formed_id_round_trip(T::ITEM_TYPE, id.text(), id.kind());
}

/// Parsing the URL of an ID (what [IdTrait::as_url] returns: the original URL when the ID was parsed from one, the
/// canonical URL otherwise) with [IdFromKnownKind::from_url] gives back an ID with the same bare ID.
#[verifier::spinoff_prover]
#[verifier::rlimit(30)]
pub proof fn law_id_url_parses_back<'a, 'b, T: ItemTypeId>(
    id: Id<'a, T>,
    url: Cow<'b, str>,
    r: Result<Id<'b, T>, IdError>,
)
    requires
        spec_well_formed_id(T::ITEM_TYPE, id.text(), id.kind()),
        id.kind() is Url ==> url@ == id.text(),
        !(id.kind() is Url) ==> url@ == spec_url_of(T::ITEM_TYPE, id.bare_id()),
        Id::<T>::parsed_from(r, url, spec_parse_url_kind(url@)),
    ensures
        r matches Ok(parsed) && parsed.bare_id() == id.bare_id() && parsed.kind() is Url,
{
    law_well_formed_id_round_trip(T::ITEM_TYPE, id.text(), id.kind());
}

/// A bare ID that parses, parsed again from what [IdTrait::as_str] returns, gives the same bare ID: the bare ID of
/// every well-formed ID is accepted by [IdFromBare::from_bare].
pub proof fn law_id_bare_parses_back<'a, 'b, T: ItemTypeId>(
    id: Id<'a, T>,
    bare: Cow<'b, str>,
    r: Result<Id<'b, T>, IdError>,
)
    requires
        spec_well_formed_id(T::ITEM_TYPE, id.text(), id.kind()),
        bare@ == id.bare_id(),
        Id::<T>::parsed_from(r, bare, spec_parse_bare(T::ITEM_TYPE, bare@)),
    ensures
        r matches Ok(parsed) && parsed.bare_id() == id.bare_id() && parsed.kind() is Bare,
{
    law_well_formed_id_round_trip(T::ITEM_TYPE, id.text(), id.kind());
}

/// Whether two strings hold the same characters.
pub(crate) fn str_eq(a: &str, b: &str) -> (r: bool)
    ensures
        r == (a@ == b@),
{
    let va = chars_of(a);
    let vb = chars_of(b);
    if va.len() != vb.len() {
        return false;
    }
    let mut i: usize = 0;
    while i < va.len()
        invariant
            va@ == a@,
            vb@ == b@,
            va@.len() == vb@.len(),
            i <= va@.len(),
            forall|j: int| 0 <= j < i ==> va@[j] == vb@[j],
        decreases va@.len() - i,
    {
        if va[i] != vb[i] {
            return false;
        }
        i = i + 1;
    }
    assert(va@ =~= vb@);
    true
}

/// Two Ids are equal when they hold the same string in the same form.
impl<'a, 'b, T> PartialEq<Id<'b, T>> for Id<'a, T> where T: ItemTypeId {
    fn eq(&self, other: &Id<'b, T>) -> (r: bool) {
        str_eq(cow_as_str(&self.value), cow_as_str(&other.value)) && self.kind == other.kind
    }
}

impl<'a, 'b, T> vstd::std_specs::cmp::PartialEqSpecImpl<Id<'b, T>> for Id<'a, T> where T: ItemTypeId {
    open spec fn obeys_eq_spec() -> bool {
        true
    }

    open spec fn eq_spec(&self, other: &Id<'b, T>) -> bool {
        self.text() == other.text() && self.kind() == other.kind()
    }
}

impl<'a, T> Eq for Id<'a, T> where T: ItemTypeId {}


/// Spotify URIs start with `spotify:`, Spotify URLs with `https://open.spotify.com/`, and a Spotify ID is 22
/// characters long.
pub proof fn law_id_formats()
    ensures
        uri_prefix() == "spotify:"@,
        url_prefix() == "https://open.spotify.com/"@,
        ID_LENGTH == 22,
{
    reveal_strlit("spotify:");
    reveal_strlit("https://open.spotify.com/");
}

} // verus!
