//! Pages of items, as Spotify returns long lists.

use std::marker::PhantomData;

use vstd::prelude::*;

verus! {

/// The values `f` gives for the items of `s`, in order, leaving out the items for which it gives nothing.
pub open spec fn spec_filter_map<A, B>(s: Seq<A>, f: spec_fn(A) -> Option<B>) -> Seq<B>
    decreases s.len(),
{
    if s.len() == 0 {
        seq![]
    } else {
        let rest = spec_filter_map(s.drop_last(), f);
        match f(s.last()) {
            Some(b) => rest.push(b),
            None => rest,
        }
    }
}

/// A page object returned from Spotify.
///
/// This object is only referenced through [Page] and the various wrapper types for paged information.
#[derive(Debug, Clone, PartialEq, Eq)]
pub struct PageObject<T> {
    pub items: Vec<T>,
    pub next: Option<String>,
    pub(crate) limit: usize,
    pub(crate) offset: usize,
    pub(crate) total: usize,
}

impl<T> PageObject<T> {
    /// The items on this page.
    pub closed spec fn spec_items(&self) -> Seq<T> {
        self.items@
    }

    /// The URL of the next page, if there is one.
    pub closed spec fn spec_next(&self) -> Option<String> {
        self.next
    }

    /// The items on this page.
    pub fn items(&self) -> (r: &Vec<T>)
        ensures
            r@ == self.spec_items(),
    {
        &self.items
    }

    /// The items on this page, consuming the page.
    pub fn into_items(self) -> (r: Vec<T>)
        ensures
            r@ == self.spec_items(),
    {
        self.items
    }

    /// The URL of the next page, if there is one, consuming the page.
    pub fn into_next(self) -> (r: Option<String>)
        ensures
            r == self.spec_next(),
    {
        self.next
    }

    /// A page holding `items`, with the URL of the next page if there is one, as Spotify describes it.
    pub fn new(items: Vec<T>, next: Option<String>, limit: usize, offset: usize, total: usize) -> (r: Self)
        ensures
            r.spec_items() == items@,
            r.spec_next() == next,
    {
        PageObject { items, next, limit, offset, total }
    }
}

/// A trait describing a page-like object that is returned from Spotify's API.
///
/// You do not have to use this trait directly.
pub trait PageInformation<T>: crate::private::Sealed {
    /// The items this page converts into.
    spec fn spec_items(&self) -> Seq<T>;

    /// The URL of the next page, if there is one.
    spec fn spec_next(&self) -> Option<String>;

    /// Return the items in this page while consuming the page.
    fn take_items(self) -> (r: Vec<T>)
        where Self: Sized
        ensures
            r@ == self.spec_items(),
    ;

    /// Returns the URL for the next page from this page, if it exists.
    fn next(self) -> (r: Option<String>)
        where Self: Sized
        ensures
            r == self.spec_next(),
    ;
}

/// A page of items.
#[derive(Debug)]
pub struct Page<TInner, TItem> where TInner: PageInformation<TItem> {
    pub(crate) inner: TInner,
    pub(crate) phantom: PhantomData<TItem>,
}

impl<TInner, TItem> Page<TInner, TItem> where TInner: PageInformation<TItem> {
    /// The page as Spotify returned it.
    pub closed spec fn spec_inner(&self) -> TInner {
        self.inner
    }

    /// Wraps a page Spotify returned.
    pub fn new(inner: TInner) -> (r: Self)
        ensures
            r.spec_inner() == inner,
    {
        Page { inner, phantom: PhantomData }
    }

    /// Return the items in this page while consuming the page. This helps avoid cloning the internal items, which may
    /// be quite large.
    pub fn take_items(self) -> (r: Vec<TItem>)
        ensures
            r@ == self.spec_inner().spec_items(),
    {
        self.inner.take_items()
    }

    /// The URL of the next page, consuming this page; `None` on the last page.
    pub fn next_url(self) -> (r: Option<String>)
        ensures
            r == self.spec_inner().spec_next(),
    {
        self.inner.next()
    }
}

/// `spec_filter_map` gives something exactly when `f` gives something for some item.
pub proof fn lemma_filter_map_nonempty<A, B>(s: Seq<A>, f: spec_fn(A) -> Option<B>)
    ensures
        (spec_filter_map(s, f).len() > 0) == (exists|i: int| 0 <= i < s.len() && (#[trigger] f(s[i])) is Some),
    decreases s.len(),
{
    if s.len() > 0 {
        lemma_filter_map_nonempty(s.drop_last(), f);
        if exists|i: int| 0 <= i < s.drop_last().len() && (#[trigger] f(s.drop_last()[i])) is Some {
            let i = choose|i: int| 0 <= i < s.drop_last().len() && (#[trigger] f(s.drop_last()[i])) is Some;
            assert(s[i] == s.drop_last()[i]);
        }
        if exists|i: int| 0 <= i < s.len() && (#[trigger] f(s[i])) is Some {
            let i = choose|i: int| 0 <= i < s.len() && (#[trigger] f(s[i])) is Some;
            if i < s.len() - 1 {
                assert(s.drop_last()[i] == s[i]);
            }
        }
    }
}


/// When `f` gives a value for every item, the result has one value per item, in order.
pub proof fn lemma_filter_map_all<A, B>(s: Seq<A>, f: spec_fn(A) -> Option<B>)
    requires
        forall|i: int| 0 <= i < s.len() ==> (#[trigger] f(s[i])) is Some,
    ensures
        spec_filter_map(s, f).len() == s.len(),
        forall|i: int| 0 <= i < s.len() ==> (#[trigger] spec_filter_map(s, f)[i]) == f(s[i])->Some_0,
    decreases s.len(),
{
    if s.len() > 0 {
        let t = s.drop_last();
        assert forall|i: int| 0 <= i < t.len() implies (#[trigger] f(t[i])) is Some by {
            assert(t[i] == s[i]);
        }
        lemma_filter_map_all(t, f);
        assert(f(s[s.len() - 1]) is Some);
        assert forall|i: int| 0 <= i < s.len() implies (#[trigger] spec_filter_map(s, f)[i]) == f(s[i])->Some_0 by {
            if i < s.len() - 1 {
                assert(t[i] == s[i]);
                assert(spec_filter_map(t, f)[i] == f(t[i])->Some_0);
            }
        }
    }
}

/// Every value in the result is what `f` gives for some item, and the result is never longer than the items.
pub proof fn lemma_filter_map_from_items<A, B>(s: Seq<A>, f: spec_fn(A) -> Option<B>)
    ensures
        spec_filter_map(s, f).len() <= s.len(),
        forall|j: int|
            #![trigger spec_filter_map(s, f)[j]]
            0 <= j < spec_filter_map(s, f).len() ==> exists|i: int| 0 <= i < s.len() && f(#[trigger] s[i]) == Some(
                spec_filter_map(s, f)[j],
            ),
    decreases s.len(),
{
    if s.len() > 0 {
        let t = s.drop_last();
        lemma_filter_map_from_items(t, f);
        assert forall|j: int|
            #![trigger spec_filter_map(s, f)[j]]
            0 <= j < spec_filter_map(s, f).len() implies exists|i: int| 0 <= i < s.len() && f(#[trigger] s[i]) == Some(
                spec_filter_map(s, f)[j],
            ) by {
            if j < spec_filter_map(t, f).len() {
                let i = choose|i: int| 0 <= i < t.len() && f(#[trigger] t[i]) == Some(spec_filter_map(t, f)[j]);
                assert(s[i] == t[i]);
            } else {
                assert(s[s.len() - 1] == s.last());
            }
        }
    }
}

} // verus!
