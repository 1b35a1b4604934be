//! An abstraction over the Spotify object model.
//!
//! Types here are *not* 1:1 representations of what the Spotify API returns, since such types are tedious to work with
//! in a type-safe manner. Refer to the type documentation on how they map to the Spotify API objects.

pub mod album;
pub mod artist;
pub mod error;
pub mod id;
pub mod object_type;
pub mod page;
pub mod playback;
pub mod search;
pub mod track;
pub mod user;

mod country_code;

pub use country_code::CountryCode;

use vstd::prelude::*;

use crate::error::IdError;
use crate::util::chars_of;
use crate::util::matches_at;

verus! {

/// Contains an URL to an image and its dimensions, if specified.
#[derive(Debug, Default, Clone)]
pub struct Image {
    pub url: String,
    pub dimensions: Option<ImageDimensions>,
}

/// An image's dimensions.
#[derive(Debug, Default, Clone, Copy, PartialEq, Eq, Structural)]
pub struct ImageDimensions {
    pub width: u32,
    pub height: u32,
}

/// A content restriction.
#[derive(Debug, Default, Clone)]
pub struct Restrictions {
    /// Reason for the content restriction.
    pub reason: Option<String>,
}

/// Two images are equal when their URLs and dimensions are.
impl PartialEq for Image {
    fn eq(&self, other: &Self) -> (r: bool) {
        crate::model::id::str_eq(self.url.as_str(), other.url.as_str()) && self.dimensions == other.dimensions
    }
}

impl vstd::std_specs::cmp::PartialEqSpecImpl for Image {
    open spec fn obeys_eq_spec() -> bool {
        true
    }

    open spec fn eq_spec(&self, other: &Self) -> bool {
        self.url@ == other.url@ && self.dimensions == other.dimensions
    }
}

impl Eq for Image {}

/// Two restrictions are equal when their reasons are.
impl PartialEq for Restrictions {
    fn eq(&self, other: &Self) -> (r: bool) {
        opt_string_eq(&self.reason, &other.reason)
    }
}

impl vstd::std_specs::cmp::PartialEqSpecImpl for Restrictions {
    open spec fn obeys_eq_spec() -> bool {
        true
    }

    open spec fn eq_spec(&self, other: &Self) -> bool {
        spec_opt_str(self.reason) == spec_opt_str(other.reason)
    }
}

impl Eq for Restrictions {}

/// Whether two sets of markets hold the same countries: `HashSet`'s `==`, which compares the sets' elements.
#[verifier::external_body]
pub(crate) fn markets_eq(a: &std::collections::HashSet<CountryCode>, b: &std::collections::HashSet<CountryCode>) -> (r:
    bool)
    ensures
        r == (a@ == b@),
{
    a == b
}

/// Two images have the same URL and dimensions.
pub open spec fn same_image(x: Image, y: Image) -> bool {
    x.url@ == y.url@ && x.dimensions == y.dimensions
}

/// Two lists of images are equal, image by image.
pub open spec fn same_images(a: Seq<Image>, b: Seq<Image>) -> bool {
    a.len() == b.len() && forall|i: int| 0 <= i < a.len() ==> #[trigger] same_image(a[i], b[i])
}

/// Whether two lists of images are equal, image by image.
pub(crate) fn images_eq(a: &Vec<Image>, b: &Vec<Image>) -> (r: bool)
    ensures
        r == same_images(a@, b@),
{
    if a.len() != b.len() {
        return false;
    }
    let mut i: usize = 0;
    while i < a.len()
        invariant
            a@.len() == b@.len(),
            i <= a@.len(),
            forall|j: int| 0 <= j < i ==> #[trigger] same_image(a@[j], b@[j]),
        decreases a@.len() - i,
    {
        if !(a[i] == b[i]) {
            assert(!same_image(a@[i as int], b@[i as int]));
            return false;
        }
        i = i + 1;
    }
    true
}

/// A date's precision.
#[derive(Debug, Clone, Copy, PartialEq, Eq, Structural)]
pub enum DatePrecision {
    Year,
    Month,
    Day,
}

/// Known external URLs for an object.
#[derive(Debug, Default, Clone)]
pub struct ExternalUrls {
    /// The Spotify URL for the object.
    pub spotify: Option<String>,
}

/// The text an optional string holds, if any.
pub open spec fn spec_opt_str(o: Option<String>) -> Option<Seq<char>> {
    match o {
        Some(s) => Some(s@),
        None => None,
    }
}

/// Whether two optional strings are both absent or both present with the same text.
pub(crate) fn opt_string_eq(a: &Option<String>, b: &Option<String>) -> (r: bool)
    ensures
        r == (spec_opt_str(*a) == spec_opt_str(*b)),
{
    match (a, b) {
        (Some(x), Some(y)) => crate::model::id::str_eq(x.as_str(), y.as_str()),
        (None, None) => true,
        _ => false,
    }
}

/// Two sets of external URLs are equal when their Spotify URLs are.
impl PartialEq for ExternalUrls {
    fn eq(&self, other: &Self) -> (r: bool) {
        opt_string_eq(&self.spotify, &other.spotify)
    }
}

impl vstd::std_specs::cmp::PartialEqSpecImpl for ExternalUrls {
    open spec fn obeys_eq_spec() -> bool {
        true
    }

    open spec fn eq_spec(&self, other: &Self) -> bool {
        spec_opt_str(self.spotify) == spec_opt_str(other.spotify)
    }
}

impl Eq for ExternalUrls {}

/// The debug representation of a value, as `{:?}` formats it.
#[verifier::external_body]
pub(crate) fn debug_text<T: std::fmt::Debug>(value: &T) -> String {
    format!("{:?}", value)
}

/// A copy of a set of markets: `HashSet::clone`, which gives a set with the same countries.
#[verifier::external_body]
pub(crate) fn clone_markets(markets: &std::collections::HashSet<CountryCode>) -> (r: std::collections::HashSet<
    CountryCode,
>)
    ensures
        r@ == markets@,
{
    markets.clone()
}

/// Known external IDs for an object.
#[derive(Debug, Default, Clone, PartialEq, Eq)]
pub struct ExternalIds {
    /// [International Standard Recording Code](https://en.wikipedia.org/wiki/International_Standard_Recording_Code)
    pub isrc: Option<String>,
    /// [International Article Number](https://en.wikipedia.org/wiki/International_Article_Number)
    pub ean: Option<String>,
    /// [Universal Product Code](https://en.wikipedia.org/wiki/Universal_Product_Code)
    pub upc: Option<String>,
}

/// A copyright.
#[derive(Debug, Clone, PartialEq, Eq)]
pub struct Copyright {
    pub text: String,
    pub copyright_type: CopyrightType,
}

/// The type of a copyright.
#[derive(Debug, Clone, Copy, PartialEq, Eq, Structural)]
pub enum CopyrightType {
    Performance,
    C,
}

/// Copying a duration gives the same duration.
pub assume_specification[ <std::time::Duration as Clone>::clone ](d: &std::time::Duration) -> (r: std::time::Duration)
    ensures
        r == *d,
;

/// The type of an item in the Spotify catalog.
#[derive(Debug, Clone, Copy, PartialEq, Eq, Structural)]
#[non_exhaustive]
pub enum ItemType {
    Album,
    Artist,
    Playlist,
    Track,
    Show,
    Episode,
    Collection,
    User,
}

impl crate::private::Sealed for ItemType {}

impl ItemType {
    /// The item type's name as Spotify writes it in URIs, URLs and search types.
    pub open spec fn spec_name(self) -> Seq<char> {
        match self {
            ItemType::Album => seq!['a', 'l', 'b', 'u', 'm'],
            ItemType::Artist => seq!['a', 'r', 't', 'i', 's', 't'],
            ItemType::Playlist => seq!['p', 'l', 'a', 'y', 'l', 'i', 's', 't'],
            ItemType::Track => seq!['t', 'r', 'a', 'c', 'k'],
            ItemType::Show => seq!['s', 'h', 'o', 'w'],
            ItemType::Episode => seq!['e', 'p', 'i', 's', 'o', 'd', 'e'],
            ItemType::Collection => seq!['c', 'o', 'l', 'l', 'e', 'c', 't', 'i', 'o', 'n'],
            ItemType::User => seq!['u', 's', 'e', 'r'],
        }
    }

    /// The item type's name as Spotify writes it in URIs, URLs and search types, e.g. `track`.
    pub fn as_str(self) -> (r: &'static str)
        ensures
            r@ == self.spec_name(),
    {
        match self {
            ItemType::Album => {
                proof {
                    reveal_strlit("album");
                }
                "album"
            },
            ItemType::Artist => {
                proof {
                    reveal_strlit("artist");
                }
                "artist"
            },
            ItemType::Playlist => {
                proof {
                    reveal_strlit("playlist");
                }
                "playlist"
            },
            ItemType::Track => {
                proof {
                    reveal_strlit("track");
                }
                "track"
            },
            ItemType::Show => {
                proof {
                    reveal_strlit("show");
                }
                "show"
            },
            ItemType::Episode => {
                proof {
                    reveal_strlit("episode");
                }
                "episode"
            },
            ItemType::Collection => {
                proof {
                    reveal_strlit("collection");
                }
                "collection"
            },
            ItemType::User => {
                proof {
                    reveal_strlit("user");
                }
                "user"
            },
        }
    }
}

/// The item type whose name is `s`, if there is one.
pub open spec fn spec_parse_item_type(s: Seq<char>) -> Option<ItemType> {
    if s == ItemType::Album.spec_name() {
        Some(ItemType::Album)
    } else if s == ItemType::Artist.spec_name() {
        Some(ItemType::Artist)
    } else if s == ItemType::Playlist.spec_name() {
        Some(ItemType::Playlist)
    } else if s == ItemType::Track.spec_name() {
        Some(ItemType::Track)
    } else if s == ItemType::Show.spec_name() {
        Some(ItemType::Show)
    } else if s == ItemType::Episode.spec_name() {
        Some(ItemType::Episode)
    } else if s == ItemType::Collection.spec_name() {
        Some(ItemType::Collection)
    } else if s == ItemType::User.spec_name() {
        Some(ItemType::User)
    } else {
        None
    }
}

/// Whether the characters of `v` are exactly those of `lit`.
fn chars_are(v: &Vec<char>, lit: &str) -> (r: bool)
    ensures
        r == (v@ == lit@),
{
    let r = matches_at(v, 0, lit) && v.len() == lit.unicode_len();
    proof {
        if r {
            assert(v@ =~= v@.subrange(0, lit@.len() as int));
        } else if v@.len() == lit@.len() {
            assert(v@ =~= v@.subrange(0, lit@.len() as int));
        }
    }
    r
}

impl std::str::FromStr for ItemType {
    type Err = IdError;

    /// Parses an item type from its name, e.g. `track`.
    fn from_str(s: &str) -> (r: Result<Self, Self::Err>)
        ensures
            match r {
                Ok(t) => spec_parse_item_type(s@) == Some(t),
                Err(e) => spec_parse_item_type(s@) is None && e@ == crate::error::IdErrorView::InvalidItemType(s@),
            },
    {
        let v = chars_of(s);
        if chars_are(&v, ItemType::Album.as_str()) {
            Ok(ItemType::Album)
        } else if chars_are(&v, ItemType::Artist.as_str()) {
            Ok(ItemType::Artist)
        } else if chars_are(&v, ItemType::Playlist.as_str()) {
            Ok(ItemType::Playlist)
        } else if chars_are(&v, ItemType::Track.as_str()) {
            Ok(ItemType::Track)
        } else if chars_are(&v, ItemType::Show.as_str()) {
            Ok(ItemType::Show)
        } else if chars_are(&v, ItemType::Episode.as_str()) {
            Ok(ItemType::Episode)
        } else if chars_are(&v, ItemType::Collection.as_str()) {
            Ok(ItemType::Collection)
        } else if chars_are(&v, ItemType::User.as_str()) {
            Ok(ItemType::User)
        } else {
            Err(IdError::InvalidItemType(s.to_owned()))
        }
    }
}

/// Distinct item types have distinct names.
pub proof fn lemma_item_type_names_distinct(a: ItemType, b: ItemType)
    requires
        a != b,
    ensures
        a.spec_name() != b.spec_name(),
{
    assert(a.spec_name().len() != b.spec_name().len() || a.spec_name()[0] != b.spec_name()[0]);
}

/// Each item type's name is the name Spotify uses for it in URIs, URLs and search types, such as `episode` for
/// podcast episodes.
pub proof fn law_item_type_names()
    ensures
        ItemType::Album.spec_name() == "album"@,
        ItemType::Artist.spec_name() == "artist"@,
        ItemType::Playlist.spec_name() == "playlist"@,
        ItemType::Track.spec_name() == "track"@,
        ItemType::Show.spec_name() == "show"@,
        ItemType::Episode.spec_name() == "episode"@,
        ItemType::Collection.spec_name() == "collection"@,
        ItemType::User.spec_name() == "user"@,
{
    reveal_strlit("album");
    reveal_strlit("artist");
    reveal_strlit("playlist");
    reveal_strlit("track");
    reveal_strlit("show");
    reveal_strlit("episode");
    reveal_strlit("collection");
    reveal_strlit("user");
}

/// Naming an item type and parsing the name gives the item type back, and a name that parses is the name of the item
/// type it parses to.
pub proof fn law_item_type_name_round_trip(t: ItemType, s: Seq<char>)
    ensures
        spec_parse_item_type(t.spec_name()) == Some(t),
        spec_parse_item_type(s) == Some(t) ==> s == t.spec_name(),
{
    if t != ItemType::Album { lemma_item_type_names_distinct(t, ItemType::Album); }
    if t != ItemType::Artist { lemma_item_type_names_distinct(t, ItemType::Artist); }
    if t != ItemType::Playlist { lemma_item_type_names_distinct(t, ItemType::Playlist); }
    if t != ItemType::Track { lemma_item_type_names_distinct(t, ItemType::Track); }
    if t != ItemType::Show { lemma_item_type_names_distinct(t, ItemType::Show); }
    if t != ItemType::Episode { lemma_item_type_names_distinct(t, ItemType::Episode); }
    if t != ItemType::Collection { lemma_item_type_names_distinct(t, ItemType::Collection); }
    if t != ItemType::User { lemma_item_type_names_distinct(t, ItemType::User); }
}

} // verus!
