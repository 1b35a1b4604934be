//! Search results and the search types.

use std::marker::PhantomData;

use vstd::prelude::*;

use super::album::AlbumObject;
use super::album::FullAlbum;
use super::artist::ArtistObject;
use super::artist::FullArtist;
use super::page::lemma_filter_map_all;
use super::page::lemma_filter_map_from_items;
use super::page::lemma_filter_map_nonempty;
use super::page::spec_filter_map;
use super::page::Page;
use super::page::PageInformation;
use super::page::PageObject;
use super::track::FullTrack;
use super::track::TrackObject;
use super::ItemType;
use crate::util::spec_join;

verus! {

/// The default search types.
pub const DEFAULT_SEARCH_TYPES_STRING: &'static str = "album,artist,playlist,track,show,episode";

/// The default search limit, i.e. how many items there are in each page.
pub const DEFAULT_SEARCH_LIMIT: u32 = 20;

/// The default search offset.
pub const DEFAULT_SEARCH_OFFSET: u32 = 0;

/// The names of the item types, in order.
pub open spec fn spec_type_names(types: Seq<ItemType>) -> Seq<Seq<char>> {
    types.map_values(|t: ItemType| t.spec_name())
}

/// The search types string for the item types: their names separated by commas.
pub open spec fn spec_types_string(types: Seq<ItemType>) -> Seq<char> {
    spec_join(spec_type_names(types), ',')
}

/// The names of `types`, separated by commas.
fn join_types(types: &[ItemType]) -> (r: String)
    ensures
        r@ == spec_types_string(types@),
{
    let mut r = String::new();
    let mut i: usize = 0;
    let ghost names = spec_type_names(types@);
    while i < types.len()
        invariant
            i <= types@.len(),
            names == spec_type_names(types@),
            r@ == spec_join(names.take(i as int), ','),
        decreases types@.len() - i,
    {
        let ghost before = r@;
        if i > 0 {
            r.push(',');
        }
        r.append(types[i].as_str());
        proof {
            let next = names.take(i + 1);
            assert(next.drop_last() =~= names.take(i as int));
            assert(next.last() == types@[i as int].spec_name());
            if i == 0 {
                assert(next =~= seq![types@[0].spec_name()]);
            }
        }
        i = i + 1;
    }
    assert(names.take(i as int) =~= names);
    r
}

/// Trait for converting an object to a string used in Spotify's search types. This is implemented for vectors,
/// arrays and slices of [ItemType]-enums.
pub trait ToTypesString: crate::private::Sealed {
    /// The item types, in order.
    spec fn spec_types(&self) -> Seq<ItemType>;

    /// The search types string: the item types' names separated by commas.
    fn to_types_string(self) -> (r: String)
        ensures
            r@ == spec_types_string(self.spec_types()),
    ;
}

impl crate::private::Sealed for Vec<ItemType> {}

impl<const N: usize> crate::private::Sealed for [ItemType; N] {}

impl<'a> crate::private::Sealed for &'a [ItemType] {}

impl ToTypesString for Vec<ItemType> {
    open spec fn spec_types(&self) -> Seq<ItemType> {
        self@
    }

    fn to_types_string(self) -> (r: String) {
        join_types(self.as_slice())
    }
}

impl<const N: usize> ToTypesString for [ItemType; N] {
    open spec fn spec_types(&self) -> Seq<ItemType> {
        self@
    }

    fn to_types_string(self) -> (r: String) {
        join_types(&self)
    }
}

impl<'a> ToTypesString for &'a [ItemType] {
    open spec fn spec_types(&self) -> Seq<ItemType> {
        self@
    }

    fn to_types_string(self) -> (r: String) {
        join_types(self)
    }
}

/// The first pages of the results of a search, as Spotify returns them.
#[derive(Debug)]
pub struct SearchResultsObject {
    pub tracks: Option<PageObject<TrackObject>>,
    pub artists: Option<PageObject<ArtistObject>>,
    pub albums: Option<PageObject<AlbumObject>>,
}

/// First pages of search results from a search.
#[derive(Debug)]
pub struct SearchResults {
    pub(crate) inner: SearchResultsObject,
}

impl TryFrom<SearchResultsObject> for SearchResults {
    type Error = std::convert::Infallible;

    fn try_from(value: SearchResultsObject) -> (r: Result<Self, Self::Error>)
        ensures
            r matches Ok(results) && results.spec_inner() == value,
    {
        Ok(SearchResults { inner: value })
    }
}

impl vstd::std_specs::convert::TryFromSpecImpl<SearchResultsObject> for SearchResults {
    open spec fn obeys_try_from_spec() -> bool {
        true
    }

    closed spec fn try_from_spec(v: SearchResultsObject) -> Result<Self, Self::Error> {
        Ok(SearchResults { inner: v })
    }
}

/// Continuation page of search results that contains only tracks.
#[derive(Debug)]
pub struct TrackSearchResults {
    tracks: PageObject<TrackObject>,
}

impl crate::private::Sealed for TrackSearchResults {}

impl TrackSearchResults {
    /// The track objects on this page.
    pub closed spec fn spec_objects(&self) -> Seq<TrackObject> {
        self.tracks.spec_items()
    }

    /// A page of tracks, as Spotify returns it.
    pub fn new(tracks: PageObject<TrackObject>) -> (r: Self)
        ensures
            r.spec_objects() == tracks.spec_items(),
    {
        TrackSearchResults { tracks }
    }
}

/// The page converts its track objects into full tracks, leaving out those that are not full tracks.
impl PageInformation<FullTrack> for TrackSearchResults {
    closed spec fn spec_items(&self) -> Seq<FullTrack> {
        spec_filter_map(self.tracks.spec_items(), |o: TrackObject| FullTrack::from_object(o))
    }

    closed spec fn spec_next(&self) -> Option<String> {
        self.tracks.spec_next()
    }

    fn take_items(self) -> (r: Vec<FullTrack>) {
        let ghost objects = self.tracks.spec_items();
        let ghost f = |o: TrackObject| FullTrack::from_object(o);
        let mut out: Vec<FullTrack> = Vec::new();
        for obj in it: self.tracks.into_items().into_iter()
            invariant
                it.seq() == objects,
                forall|o: TrackObject| #[trigger] f(o) == FullTrack::from_object(o),
                out@ == spec_filter_map(objects.take(it.index()), f),
        {
            let ghost k = it.index();
            let ghost o = obj;
            assert(o == objects[k]);
            let converted = FullTrack::try_from(obj);
            proof {
                assert(objects.take(k + 1).drop_last() =~= objects.take(k));
                assert(objects.take(k + 1).last() == o);
            }
            match converted {
                Ok(item) => out.push(item),
                Err(_) => {},
            }
        }
        proof {
            assert(objects.take(objects.len() as int) =~= objects);
            assert(f =~= |o: TrackObject| FullTrack::from_object(o));
        }
        out
    }

    fn next(self) -> (r: Option<String>) {
        self.tracks.into_next()
    }
}

/// Whether some object on the page holds the fields of a full track.
fn has_full_track(page: &PageObject<TrackObject>) -> (r: bool)
    ensures
        r == (spec_filter_map(page.spec_items(), |o: TrackObject| FullTrack::from_object(o)).len() > 0),
{
    let ghost objects = page.spec_items();
    let ghost f = |o: TrackObject| FullTrack::from_object(o);
    proof {
        lemma_filter_map_nonempty(objects, f);
    }
    let mut i: usize = 0;
    while i < page.items().len()
        invariant
            objects == page.spec_items(),
            i <= objects.len(),
            forall|o: TrackObject| #[trigger] f(o) == FullTrack::from_object(o),
            forall|j: int| 0 <= j < i ==> (#[trigger] f(objects[j])) is None,
        decreases objects.len() - i,
    {
        if page.items()[i].is_full() {
            proof {
                assert(f(objects[i as int]) is Some);
                assert(f =~= |o: TrackObject| FullTrack::from_object(o));
                lemma_filter_map_nonempty(objects, f);
            }
            return true;
        }
        i = i + 1;
    }
    false
}

/// Continuation page of search results that contains only artists.
#[derive(Debug)]
pub struct ArtistSearchResults {
    artists: PageObject<ArtistObject>,
}

impl crate::private::Sealed for ArtistSearchResults {}

impl ArtistSearchResults {
    /// The artist objects on this page.
    pub closed spec fn spec_objects(&self) -> Seq<ArtistObject> {
        self.artists.spec_items()
    }

    /// A page of artists, as Spotify returns it.
    pub fn new(artists: PageObject<ArtistObject>) -> (r: Self)
        ensures
            r.spec_objects() == artists.spec_items(),
    {
        ArtistSearchResults { artists }
    }
}

/// The page converts its artist objects into full artists, leaving out those that are not full artists.
impl PageInformation<FullArtist> for ArtistSearchResults {
    closed spec fn spec_items(&self) -> Seq<FullArtist> {
        spec_filter_map(self.artists.spec_items(), |o: ArtistObject| FullArtist::from_object(o))
    }

    closed spec fn spec_next(&self) -> Option<String> {
        self.artists.spec_next()
    }

    fn take_items(self) -> (r: Vec<FullArtist>) {
        let ghost objects = self.artists.spec_items();
        let ghost f = |o: ArtistObject| FullArtist::from_object(o);
        let mut out: Vec<FullArtist> = Vec::new();
        for obj in it: self.artists.into_items().into_iter()
            invariant
                it.seq() == objects,
                forall|o: ArtistObject| #[trigger] f(o) == FullArtist::from_object(o),
                out@ == spec_filter_map(objects.take(it.index()), f),
        {
            let ghost k = it.index();
            let ghost o = obj;
            assert(o == objects[k]);
            let converted = FullArtist::try_from(obj);
            proof {
                assert(objects.take(k + 1).drop_last() =~= objects.take(k));
                assert(objects.take(k + 1).last() == o);
            }
            match converted {
                Ok(item) => out.push(item),
                Err(_) => {},
            }
        }
        proof {
            assert(objects.take(objects.len() as int) =~= objects);
            assert(f =~= |o: ArtistObject| FullArtist::from_object(o));
        }
        out
    }

    fn next(self) -> (r: Option<String>) {
        self.artists.into_next()
    }
}

/// Whether some object on the page holds the fields of a full artist.
fn has_full_artist(page: &PageObject<ArtistObject>) -> (r: bool)
    ensures
        r == (spec_filter_map(page.spec_items(), |o: ArtistObject| FullArtist::from_object(o)).len() > 0),
{
    let ghost objects = page.spec_items();
    let ghost f = |o: ArtistObject| FullArtist::from_object(o);
    proof {
        lemma_filter_map_nonempty(objects, f);
    }
    let mut i: usize = 0;
    while i < page.items().len()
        invariant
            objects == page.spec_items(),
            i <= objects.len(),
            forall|o: ArtistObject| #[trigger] f(o) == FullArtist::from_object(o),
            forall|j: int| 0 <= j < i ==> (#[trigger] f(objects[j])) is None,
        decreases objects.len() - i,
    {
        if page.items()[i].is_full() {
            proof {
                assert(f(objects[i as int]) is Some);
                assert(f =~= |o: ArtistObject| FullArtist::from_object(o));
                lemma_filter_map_nonempty(objects, f);
            }
            return true;
        }
        i = i + 1;
    }
    false
}

/// Continuation page of search results that contains only albums.
#[derive(Debug)]
pub struct AlbumSearchResults {
    albums: PageObject<AlbumObject>,
}

impl crate::private::Sealed for AlbumSearchResults {}

impl AlbumSearchResults {
    /// The album objects on this page.
    pub closed spec fn spec_objects(&self) -> Seq<AlbumObject> {
        self.albums.spec_items()
    }

    /// A page of albums, as Spotify returns it.
    pub fn new(albums: PageObject<AlbumObject>) -> (r: Self)
        ensures
            r.spec_objects() == albums.spec_items(),
    {
        AlbumSearchResults { albums }
    }
}

/// The page converts its album objects into full albums, leaving out those that are not full albums.
impl PageInformation<FullAlbum> for AlbumSearchResults {
    closed spec fn spec_items(&self) -> Seq<FullAlbum> {
        spec_filter_map(self.albums.spec_items(), |o: AlbumObject| FullAlbum::from_object(o))
    }

    closed spec fn spec_next(&self) -> Option<String> {
        self.albums.spec_next()
    }

    fn take_items(self) -> (r: Vec<FullAlbum>) {
        let ghost objects = self.albums.spec_items();
        let ghost f = |o: AlbumObject| FullAlbum::from_object(o);
        let mut out: Vec<FullAlbum> = Vec::new();
        for obj in it: self.albums.into_items().into_iter()
            invariant
                it.seq() == objects,
                forall|o: AlbumObject| #[trigger] f(o) == FullAlbum::from_object(o),
                out@ == spec_filter_map(objects.take(it.index()), f),
        {
            let ghost k = it.index();
            let ghost o = obj;
            assert(o == objects[k]);
            let converted = FullAlbum::try_from(obj);
            proof {
                assert(objects.take(k + 1).drop_last() =~= objects.take(k));
                assert(objects.take(k + 1).last() == o);
            }
            match converted {
                Ok(item) => out.push(item),
                Err(_) => {},
            }
        }
        proof {
            assert(objects.take(objects.len() as int) =~= objects);
            assert(f =~= |o: AlbumObject| FullAlbum::from_object(o));
        }
        out
    }

    fn next(self) -> (r: Option<String>) {
        self.albums.into_next()
    }
}

/// Whether some object on the page holds the fields of a full album.
fn has_full_album(page: &PageObject<AlbumObject>) -> (r: bool)
    ensures
        r == (spec_filter_map(page.spec_items(), |o: AlbumObject| FullAlbum::from_object(o)).len() > 0),
{
    let ghost objects = page.spec_items();
    let ghost f = |o: AlbumObject| FullAlbum::from_object(o);
    proof {
        lemma_filter_map_nonempty(objects, f);
    }
    let mut i: usize = 0;
    while i < page.items().len()
        invariant
            objects == page.spec_items(),
            i <= objects.len(),
            forall|o: AlbumObject| #[trigger] f(o) == FullAlbum::from_object(o),
            forall|j: int| 0 <= j < i ==> (#[trigger] f(objects[j])) is None,
        decreases objects.len() - i,
    {
        if page.items()[i].is_full() {
            proof {
                assert(f(objects[i as int]) is Some);
                assert(f =~= |o: AlbumObject| FullAlbum::from_object(o));
                lemma_filter_map_nonempty(objects, f);
            }
            return true;
        }
        i = i + 1;
    }
    false
}

impl SearchResults {
    /// The results as Spotify returned them.
    pub closed spec fn spec_inner(&self) -> SearchResultsObject {
        self.inner
    }

    /// Return the tracks in these search results as a [Page] of [FullTracks](FullTrack).
    ///
    /// If no tracks matched the search query, this will return None. Therefore, the returned page will always contain
    /// some items.
    pub fn tracks(self) -> (r: Option<Page<TrackSearchResults, FullTrack>>)
        ensures
            match self.spec_inner().tracks {
                Some(page) => if spec_filter_map(page.spec_items(), |o: TrackObject| FullTrack::from_object(o)).len()
                    > 0 {
                    r matches Some(p) && p.spec_inner().spec_objects() == page.spec_items()
                } else {
                    r is None
                },
                None => r is None,
            },
    {
        match self.inner.tracks {
            Some(page) => if has_full_track(&page) {
                Some(Page::new(TrackSearchResults::new(page)))
            } else {
                None
            },
            None => None,
        }
    }

    /// Return the artists in these search results as a [Page] of [FullArtists](FullArtist).
    ///
    /// If no artists matched the search query, this will return None. Therefore, the returned page will always contain
    /// some items.
    pub fn artists(self) -> (r: Option<Page<ArtistSearchResults, FullArtist>>)
        ensures
            match self.spec_inner().artists {
                Some(page) => if spec_filter_map(page.spec_items(), |o: ArtistObject| FullArtist::from_object(o)).len()
                    > 0 {
                    r matches Some(p) && p.spec_inner().spec_objects() == page.spec_items()
                } else {
                    r is None
                },
                None => r is None,
            },
    {
        match self.inner.artists {
            Some(page) => if has_full_artist(&page) {
                Some(Page::new(ArtistSearchResults::new(page)))
            } else {
                None
            },
            None => None,
        }
    }

    /// Return the albums in these search results as a [Page] of [FullAlbums](FullAlbum).
    ///
    /// If no albums matched the search query, this will return None. Therefore, the returned page will always contain
    /// some items.
    pub fn albums(self) -> (r: Option<Page<AlbumSearchResults, FullAlbum>>)
        ensures
            match self.spec_inner().albums {
                Some(page) => if spec_filter_map(page.spec_items(), |o: AlbumObject| FullAlbum::from_object(o)).len()
                    > 0 {
                    r matches Some(p) && p.spec_inner().spec_objects() == page.spec_items()
                } else {
                    r is None
                },
                None => r is None,
            },
    {
        match self.inner.albums {
            Some(page) => if has_full_album(&page) {
                Some(Page::new(AlbumSearchResults::new(page)))
            } else {
                None
            },
            None => None,
        }
    }
}


/// The items of a track search page are its track objects that convert into FullTrack values, in order: every item is the
/// conversion of one of the page's objects, there are never more items than objects, there is an item exactly when
/// some object converts, and when every object converts each one becomes the item at its own position.
pub proof fn law_track_search_page_items(page: TrackSearchResults)
    ensures
        PageInformation::<FullTrack>::spec_items(&page) == spec_filter_map(page.spec_objects(), |o: TrackObject| FullTrack::from_object(o)),
        PageInformation::<FullTrack>::spec_items(&page).len() <= page.spec_objects().len(),
        forall|j: int|
            #![trigger PageInformation::<FullTrack>::spec_items(&page)[j]]
            0 <= j < PageInformation::<FullTrack>::spec_items(&page).len() ==> exists|i: int|
                0 <= i < page.spec_objects().len() && FullTrack::from_object(#[trigger] page.spec_objects()[i]) == Some(
                    PageInformation::<FullTrack>::spec_items(&page)[j],
                ),
        (PageInformation::<FullTrack>::spec_items(&page).len() > 0) == (exists|i: int|
            0 <= i < page.spec_objects().len() && (FullTrack::from_object(#[trigger] page.spec_objects()[i])) is Some),
        (forall|i: int| 0 <= i < page.spec_objects().len() ==> (FullTrack::from_object(#[trigger] page.spec_objects()[i])) is Some)
            ==> PageInformation::<FullTrack>::spec_items(&page).len() == page.spec_objects().len() && forall|i: int|
            0 <= i < page.spec_objects().len() ==> FullTrack::from_object(#[trigger] page.spec_objects()[i]) == Some(
                PageInformation::<FullTrack>::spec_items(&page)[i],
            ),
{
    let objects = page.spec_objects();
    let f = |o: TrackObject| FullTrack::from_object(o);
    lemma_filter_map_from_items(objects, f);
    lemma_filter_map_nonempty(objects, f);
    if exists|i: int| 0 <= i < objects.len() && (FullTrack::from_object(#[trigger] objects[i])) is Some {
        let i = choose|i: int| 0 <= i < objects.len() && (FullTrack::from_object(#[trigger] objects[i])) is Some;
        assert(f(objects[i]) is Some);
    }
    if exists|i: int| 0 <= i < objects.len() && (#[trigger] f(objects[i])) is Some {
        let i = choose|i: int| 0 <= i < objects.len() && (#[trigger] f(objects[i])) is Some;
        assert((FullTrack::from_object(objects[i])) is Some);
    }
    if forall|i: int| 0 <= i < objects.len() ==> (#[trigger] f(objects[i])) is Some {
        lemma_filter_map_all(objects, f);
    }
}

/// The items of an artist search page are its artist objects that convert into FullArtist values, in order: every item is the
/// conversion of one of the page's objects, there are never more items than objects, there is an item exactly when
/// some object converts, and when every object converts each one becomes the item at its own position.
pub proof fn law_artist_search_page_items(page: ArtistSearchResults)
    ensures
        PageInformation::<FullArtist>::spec_items(&page) == spec_filter_map(page.spec_objects(), |o: ArtistObject| FullArtist::from_object(o)),
        PageInformation::<FullArtist>::spec_items(&page).len() <= page.spec_objects().len(),
        forall|j: int|
            #![trigger PageInformation::<FullArtist>::spec_items(&page)[j]]
            0 <= j < PageInformation::<FullArtist>::spec_items(&page).len() ==> exists|i: int|
                0 <= i < page.spec_objects().len() && FullArtist::from_object(#[trigger] page.spec_objects()[i]) == Some(
                    PageInformation::<FullArtist>::spec_items(&page)[j],
                ),
        (PageInformation::<FullArtist>::spec_items(&page).len() > 0) == (exists|i: int|
            0 <= i < page.spec_objects().len() && (FullArtist::from_object(#[trigger] page.spec_objects()[i])) is Some),
        (forall|i: int| 0 <= i < page.spec_objects().len() ==> (FullArtist::from_object(#[trigger] page.spec_objects()[i])) is Some)
            ==> PageInformation::<FullArtist>::spec_items(&page).len() == page.spec_objects().len() && forall|i: int|
            0 <= i < page.spec_objects().len() ==> FullArtist::from_object(#[trigger] page.spec_objects()[i]) == Some(
                PageInformation::<FullArtist>::spec_items(&page)[i],
            ),
{
    let objects = page.spec_objects();
    let f = |o: ArtistObject| FullArtist::from_object(o);
    lemma_filter_map_from_items(objects, f);
    lemma_filter_map_nonempty(objects, f);
    if exists|i: int| 0 <= i < objects.len() && (FullArtist::from_object(#[trigger] objects[i])) is Some {
        let i = choose|i: int| 0 <= i < objects.len() && (FullArtist::from_object(#[trigger] objects[i])) is Some;
        assert(f(objects[i]) is Some);
    }
    if exists|i: int| 0 <= i < objects.len() && (#[trigger] f(objects[i])) is Some {
        let i = choose|i: int| 0 <= i < objects.len() && (#[trigger] f(objects[i])) is Some;
        assert((FullArtist::from_object(objects[i])) is Some);
    }
    if forall|i: int| 0 <= i < objects.len() ==> (#[trigger] f(objects[i])) is Some {
        lemma_filter_map_all(objects, f);
    }
}

/// The items of an album search page are its album objects that convert into FullAlbum values, in order: every item is the
/// conversion of one of the page's objects, there are never more items than objects, there is an item exactly when
/// some object converts, and when every object converts each one becomes the item at its own position.
pub proof fn law_album_search_page_items(page: AlbumSearchResults)
    ensures
        PageInformation::<FullAlbum>::spec_items(&page) == spec_filter_map(page.spec_objects(), |o: AlbumObject| FullAlbum::from_object(o)),
        PageInformation::<FullAlbum>::spec_items(&page).len() <= page.spec_objects().len(),
        forall|j: int|
            #![trigger PageInformation::<FullAlbum>::spec_items(&page)[j]]
            0 <= j < PageInformation::<FullAlbum>::spec_items(&page).len() ==> exists|i: int|
                0 <= i < page.spec_objects().len() && FullAlbum::from_object(#[trigger] page.spec_objects()[i]) == Some(
                    PageInformation::<FullAlbum>::spec_items(&page)[j],
                ),
        (PageInformation::<FullAlbum>::spec_items(&page).len() > 0) == (exists|i: int|
            0 <= i < page.spec_objects().len() && (FullAlbum::from_object(#[trigger] page.spec_objects()[i])) is Some),
        (forall|i: int| 0 <= i < page.spec_objects().len() ==> (FullAlbum::from_object(#[trigger] page.spec_objects()[i])) is Some)
            ==> PageInformation::<FullAlbum>::spec_items(&page).len() == page.spec_objects().len() && forall|i: int|
            0 <= i < page.spec_objects().len() ==> FullAlbum::from_object(#[trigger] page.spec_objects()[i]) == Some(
                PageInformation::<FullAlbum>::spec_items(&page)[i],
            ),
{
    let objects = page.spec_objects();
    let f = |o: AlbumObject| FullAlbum::from_object(o);
    lemma_filter_map_from_items(objects, f);
    lemma_filter_map_nonempty(objects, f);
    if exists|i: int| 0 <= i < objects.len() && (FullAlbum::from_object(#[trigger] objects[i])) is Some {
        let i = choose|i: int| 0 <= i < objects.len() && (FullAlbum::from_object(#[trigger] objects[i])) is Some;
        assert(f(objects[i]) is Some);
    }
    if exists|i: int| 0 <= i < objects.len() && (#[trigger] f(objects[i])) is Some {
        let i = choose|i: int| 0 <= i < objects.len() && (#[trigger] f(objects[i])) is Some;
        assert((FullAlbum::from_object(objects[i])) is Some);
    }
    if forall|i: int| 0 <= i < objects.len() ==> (#[trigger] f(objects[i])) is Some {
        lemma_filter_map_all(objects, f);
    }
}


/// The search types string of one item type is that type's name, and each further type adds a comma and its name:
/// the search asks for exactly the given types, in order.
pub proof fn law_types_string(types: Seq<ItemType>, t: ItemType)
    ensures
        spec_types_string(seq![t]) == t.spec_name(),
        types.len() > 0 ==> spec_types_string(types.push(t)) == spec_types_string(types) + seq![','] + t.spec_name(),
{
    assert(spec_type_names(seq![t]) =~= seq![t.spec_name()]);
    if types.len() > 0 {
        assert(spec_type_names(types.push(t)).drop_last() =~= spec_type_names(types));
    }
}

} // verus!
