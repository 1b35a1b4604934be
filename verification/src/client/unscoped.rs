//! The endpoints that need no user's authorization: the catalog and search.

use std::borrow::Cow;

use vstd::prelude::*;

use super::object::TracksResponse;
use super::object::MARKET_QUERY;
use super::object::TRACKS_IDS_QUERY;
use super::owned;
use super::request_builder::decimal_text;
use super::request_builder::lemma_set_new_param;
use super::request_builder::spec_decimal_text;
use super::request_builder::spec_set_param;
use super::request_builder::BaseRequestBuilder;
use super::request_builder::HttpMethod;
use super::request_builder::RequestBuilder;
use super::request_builder::ResponseHandler;
use super::request_builder::TryFromEmptyResponse;
use super::API_SEARCH_ENDPOINT;
use super::API_TRACKS_ENDPOINT;
use crate::model::id::Id;
use crate::model::id::IdTrait;
use crate::model::id::TrackId;
use crate::model::search::spec_types_string;
use crate::model::search::AlbumSearchResults;
use crate::model::search::ArtistSearchResults;
use crate::model::search::SearchResultsObject;
use crate::model::search::ToTypesString;
use crate::model::search::TrackSearchResults;
use crate::model::search::DEFAULT_SEARCH_LIMIT;
use crate::model::search::DEFAULT_SEARCH_OFFSET;
use crate::model::search::DEFAULT_SEARCH_TYPES_STRING;
use crate::model::track::FullTrack;
use crate::model::CountryCode;
use crate::util::spec_join;

verus! {

pub const SEARCH_QUERY: &'static str = "q";

pub const SEARCH_TYPE: &'static str = "type";

pub const SEARCH_LIMIT: &'static str = "limit";

pub const SEARCH_OFFSET: &'static str = "offset";

pub const SEARCH_MARKET: &'static str = "market";

/// Search results are never empty: an empty response is an error.
impl TryFromEmptyResponse for SearchResultsObject {}

impl TryFromEmptyResponse for TrackSearchResults {}

impl TryFromEmptyResponse for ArtistSearchResults {}

impl TryFromEmptyResponse for AlbumSearchResults {}

/// A request builder for items in Spotify's catalog.
pub struct CatalogItemRequestBuilder<TClient, TResponse, TReturn = TResponse>(
    RequestBuilder<TClient, TResponse, (), TReturn>,
);

impl<TClient, TResponse, TReturn> CatalogItemRequestBuilder<TClient, TResponse, TReturn> {
    /// The request this builder describes.
    pub closed spec fn spec_request(&self) -> RequestBuilder<TClient, TResponse, (), TReturn> {
        self.0
    }

    /// Ask for the items as they are available in the given market.
    pub fn market(self, market: CountryCode) -> (r: Self)
        ensures
            r.spec_request().spec_query() == spec_set_param(
                self.spec_request().spec_query(),
                MARKET_QUERY@,
                market.spec_code(),
            ),
            r.spec_request().spec_method() == self.spec_request().spec_method(),
            r.spec_request().spec_base_url() == self.spec_request().spec_base_url(),
            r.spec_request().spec_response_handler() == self.spec_request().spec_response_handler(),
    {
        CatalogItemRequestBuilder(self.0.append_query(MARKET_QUERY, market.to_string()))
    }

    /// The request, to be sent.
    pub fn take_base_builder(self) -> (r: RequestBuilder<TClient, TResponse, (), TReturn>)
        ensures
            r == self.spec_request(),
    {
        self.0
    }
}

impl<TClient, TResponse, TReturn> BaseRequestBuilder for CatalogItemRequestBuilder<TClient, TResponse, TReturn> {
    open spec fn spec_reacts_to_rate_limit(&self) -> bool {
        self.spec_request().spec_react_to_rate_limit()
    }

    open spec fn spec_refreshes_access_token(&self) -> bool {
        self.spec_request().spec_auto_refresh_access_token()
    }

    fn react_to_rate_limit(self, react_to_rate_limit: bool) -> (r: Self) {
        CatalogItemRequestBuilder(self.0.react_to_rate_limit(react_to_rate_limit))
    }

    fn auto_refresh_access_token(self, auto_refresh_access_token: bool) -> (r: Self) {
        CatalogItemRequestBuilder(self.0.auto_refresh_access_token(auto_refresh_access_token))
    }
}

/// The bare IDs of the tracks, in order.
pub open spec fn spec_bare_ids(tracks: Seq<Id<TrackId>>) -> Seq<Seq<char>> {
    tracks.map_values(|t: Id<TrackId>| t.bare_id())
}

/// The bare IDs of the tracks, separated by commas.
fn join_bare_ids(tracks: &Vec<Id<'_, TrackId>>) -> (r: String)
    ensures
        r@ == spec_join(spec_bare_ids(tracks@), ','),
{
    let mut r = String::new();
    let mut i: usize = 0;
    let ghost ids = spec_bare_ids(tracks@);
    while i < tracks.len()
        invariant
            i <= tracks@.len(),
            ids == spec_bare_ids(tracks@),
            r@ == spec_join(ids.take(i as int), ','),
        decreases tracks@.len() - i,
    {
        if i > 0 {
            r.push(',');
        }
        r.append(tracks[i].as_str());
        proof {
            let next = ids.take(i + 1);
            assert(next.drop_last() =~= ids.take(i as int));
            assert(next.last() == tracks@[i as int].bare_id());
            if i == 0 {
                assert(next =~= seq![tracks@[0].bare_id()]);
            }
        }
        i = i + 1;
    }
    assert(ids.take(i as int) =~= ids);
    r
}

/// The URL of one track: the tracks endpoint, a slash and the track's bare ID.
fn track_url(track: &Id<'_, TrackId>) -> (r: String)
    ensures
        r@ == API_TRACKS_ENDPOINT@ + "/"@ + track.bare_id(),
{
    let mut url = owned(API_TRACKS_ENDPOINT);
    url.append("/");
    url.append(track.as_str());
    proof {
        reveal_strlit("/");
    }
    url
}

/// The endpoints that need no user's authorization. Each function describes the request; sending it is left to the
/// client.
pub trait UnscopedClient: Clone + Sized {
    /// Get Spotify catalog information for a single track identified by its unique Spotify ID. A track that does not
    /// exist is an error.
    fn track<'a>(&'a self, track: Id<'a, TrackId>) -> (r: CatalogItemRequestBuilder<Self, FullTrack>)
        ensures
            r.spec_request().spec_method() == HttpMethod::Get,
            r.spec_request().spec_base_url() == API_TRACKS_ENDPOINT@ + "/"@ + track.bare_id(),
            r.spec_request().spec_query().len() == 0,
            r.spec_request().spec_body() is None,
            r.spec_request().spec_response_handler() matches ResponseHandler::Track(id) && id.text() == track.text()
                && id.kind() == track.kind(),
    {
        let url = track_url(&track);
        let request = RequestBuilder::new(HttpMethod::Get, url, self.clone()).with_response_handler(
            ResponseHandler::Track(track.as_owned()),
        );
        CatalogItemRequestBuilder(request)
    }

    /// Get Spotify catalog information for multiple tracks based on their Spotify IDs.
    fn tracks<'a>(&'a self, tracks: Vec<Id<'a, TrackId>>) -> (r: CatalogItemRequestBuilder<
        Self,
        TracksResponse,
        Vec<FullTrack>,
    >)
        ensures
            r.spec_request().spec_method() == HttpMethod::Get,
            r.spec_request().spec_base_url() == API_TRACKS_ENDPOINT@,
            r.spec_request().spec_query() == seq![(TRACKS_IDS_QUERY@, spec_join(spec_bare_ids(tracks@), ','))],
            r.spec_request().spec_body() is None,
            r.spec_request().spec_response_handler() is Default,
    {
        let ids = join_bare_ids(&tracks);
        let request = RequestBuilder::new(HttpMethod::Get, owned(API_TRACKS_ENDPOINT), self.clone());
        let ghost q = request.spec_query();
        let request = request.append_query(TRACKS_IDS_QUERY, ids);
        proof {
            assert(q.push((TRACKS_IDS_QUERY@, spec_join(spec_bare_ids(tracks@), ','))) =~= seq![
                (TRACKS_IDS_QUERY@, spec_join(spec_bare_ids(tracks@), ',')),
            ]);
        }
        CatalogItemRequestBuilder(request)
    }

    /// Search for an item, with the default search types, limit and offset.
    fn search(&self, query: String) -> (r: SearchBuilder<Self>)
        ensures
            r.spec_query() == query@,
            r.spec_types() == DEFAULT_SEARCH_TYPES_STRING@,
            r.spec_limit() == DEFAULT_SEARCH_LIMIT,
            r.spec_offset() == DEFAULT_SEARCH_OFFSET,
            r.spec_market() is None,
    {
        SearchBuilder::new(self.clone(), query)
    }
}

/// A builder for a search.
pub struct SearchBuilder<TClient> {
    client: TClient,
    query: String,
    types: Cow<'static, str>,
    limit: u32,
    offset: u32,
    market: Option<String>,
}

/// The query parameters of a search, in order: the query, the types, the limit and the offset, then the market if
/// one is given.
pub open spec fn spec_search_params(
    query: Seq<char>,
    types: Seq<char>,
    limit: u32,
    offset: u32,
    market: Option<Seq<char>>,
) -> Seq<(Seq<char>, Seq<char>)> {
    let base = seq![
        (SEARCH_QUERY@, query),
        (SEARCH_TYPE@, types),
        (SEARCH_LIMIT@, spec_decimal_text(limit as nat)),
        (SEARCH_OFFSET@, spec_decimal_text(offset as nat)),
    ];
    match market {
        Some(m) => base.push((SEARCH_MARKET@, m)),
        None => base,
    }
}

impl<C> SearchBuilder<C> {
    /// The search query.
    pub closed spec fn spec_query(&self) -> Seq<char> {
        self.query@
    }

    /// The item types searched for, as Spotify's search types string.
    pub closed spec fn spec_types(&self) -> Seq<char> {
        self.types@
    }

    /// How many items each page holds.
    pub closed spec fn spec_limit(&self) -> u32 {
        self.limit
    }

    /// The index of the first result returned.
    pub closed spec fn spec_offset(&self) -> u32 {
        self.offset
    }

    /// The market the results are available in, if one is given.
    pub closed spec fn spec_market(&self) -> Option<Seq<char>> {
        match self.market {
            Some(m) => Some(m@),
            None => None,
        }
    }

    /// A search for `query` with the default search types, limit and offset.
    pub fn new(client: C, query: String) -> (r: Self)
        ensures
            r.spec_query() == query@,
            r.spec_types() == DEFAULT_SEARCH_TYPES_STRING@,
            r.spec_limit() == DEFAULT_SEARCH_LIMIT,
            r.spec_offset() == DEFAULT_SEARCH_OFFSET,
            r.spec_market() is None,
    {
        SearchBuilder {
            client,
            query,
            types: Cow::Borrowed(DEFAULT_SEARCH_TYPES_STRING),
            limit: DEFAULT_SEARCH_LIMIT,
            offset: DEFAULT_SEARCH_OFFSET,
            market: None,
        }
    }

    /// The item types to search for.
    pub fn types<T>(self, types: T) -> (r: Self) where T: ToTypesString
        ensures
            r.spec_types() == spec_types_string(types.spec_types()),
            r.spec_query() == self.spec_query(),
            r.spec_limit() == self.spec_limit(),
            r.spec_offset() == self.spec_offset(),
            r.spec_market() == self.spec_market(),
    {
        SearchBuilder { types: Cow::Owned(types.to_types_string()), ..self }
    }

    /// How many items each page of results holds.
    pub fn limit(self, limit: u32) -> (r: Self)
        ensures
            r.spec_limit() == limit,
            r.spec_query() == self.spec_query(),
            r.spec_types() == self.spec_types(),
            r.spec_offset() == self.spec_offset(),
            r.spec_market() == self.spec_market(),
    {
        SearchBuilder { limit, ..self }
    }

    /// The index of the first result returned.
    pub fn offset(self, offset: u32) -> (r: Self)
        ensures
            r.spec_offset() == offset,
            r.spec_query() == self.spec_query(),
            r.spec_types() == self.spec_types(),
            r.spec_limit() == self.spec_limit(),
            r.spec_market() == self.spec_market(),
    {
        SearchBuilder { offset, ..self }
    }

    /// Only results available in this market are returned.
    pub fn market(self, market: CountryCode) -> (r: Self)
        ensures
            r.spec_market() == Some(market.spec_code()),
            r.spec_query() == self.spec_query(),
            r.spec_types() == self.spec_types(),
            r.spec_limit() == self.spec_limit(),
            r.spec_offset() == self.spec_offset(),
    {
        SearchBuilder { market: Some(market.to_string()), ..self }
    }

    /// The search request.
    pub fn build_search_builder(&self) -> (r: RequestBuilder<C, SearchResultsObject>) where C: Clone
        ensures
            r.spec_method() == HttpMethod::Get,
            r.spec_base_url() == API_SEARCH_ENDPOINT@,
            r.spec_query() == spec_search_params(
                self.spec_query(),
                self.spec_types(),
                self.spec_limit(),
                self.spec_offset(),
                self.spec_market(),
            ),
            r.spec_body() is None,
            r.spec_response_handler() is Default,
    {
        let types: String = match &self.types {
            Cow::Borrowed(b) => owned(b),
            Cow::Owned(o) => o.clone(),
        };
        proof {
            reveal_strlit("q");
            reveal_strlit("type");
            reveal_strlit("limit");
            reveal_strlit("offset");
            reveal_strlit("market");
            assert(SEARCH_QUERY@.len() == 1 && SEARCH_TYPE@.len() == 4 && SEARCH_LIMIT@.len() == 5);
            assert(SEARCH_OFFSET@.len() == 6 && SEARCH_MARKET@.len() == 6 && SEARCH_OFFSET@[0] != SEARCH_MARKET@[0]);
        }
        let ghost limit_text = spec_decimal_text(self.limit as nat);
        let ghost offset_text = spec_decimal_text(self.offset as nat);
        let builder = RequestBuilder::new(HttpMethod::Get, owned(API_SEARCH_ENDPOINT), self.client.clone());
        proof {
            lemma_set_new_param(builder.spec_query(), SEARCH_QUERY@, self.query@);
        }
        let builder = builder.append_query(SEARCH_QUERY, self.query.clone());
        assert(builder.spec_query() =~= seq![(SEARCH_QUERY@, self.query@)]);
        proof {
            let q1 = builder.spec_query();
            assert forall|i: int| 0 <= i < q1.len() implies #[trigger] q1[i].0 != SEARCH_TYPE@ by {
                assert(q1[i].0 == SEARCH_QUERY@);
            }
            lemma_set_new_param(q1, SEARCH_TYPE@, types@);
        }
        let builder = builder.append_query(SEARCH_TYPE, types);
        let ghost q2 = builder.spec_query();
        proof {
            assert(q2.len() == 2 && q2[0].0 == SEARCH_QUERY@ && q2[1].0 == SEARCH_TYPE@);
            assert forall|i: int| 0 <= i < q2.len() implies #[trigger] q2[i].0 != SEARCH_LIMIT@ by {}
            lemma_set_new_param(q2, SEARCH_LIMIT@, limit_text);
        }
        let builder = builder.append_query(SEARCH_LIMIT, decimal_text(self.limit as u64));
        let ghost q3 = builder.spec_query();
        proof {
            assert(q3.len() == 3 && q3[0].0 == SEARCH_QUERY@ && q3[1].0 == SEARCH_TYPE@ && q3[2].0 == SEARCH_LIMIT@);
            assert forall|i: int| 0 <= i < q3.len() implies #[trigger] q3[i].0 != SEARCH_OFFSET@ by {}
            lemma_set_new_param(q3, SEARCH_OFFSET@, offset_text);
        }
        let builder = builder.append_query(SEARCH_OFFSET, decimal_text(self.offset as u64));
        let ghost q4 = builder.spec_query();
        let r = match &self.market {
            Some(market) => {
                proof {
                    assert(q4.len() == 4 && q4[0].0 == SEARCH_QUERY@ && q4[1].0 == SEARCH_TYPE@ && q4[2].0
                        == SEARCH_LIMIT@ && q4[3].0 == SEARCH_OFFSET@);
                    assert forall|i: int| 0 <= i < q4.len() implies #[trigger] q4[i].0 != SEARCH_MARKET@ by {}
                    lemma_set_new_param(q4, SEARCH_MARKET@, market@);
                }
                builder.append_query(SEARCH_MARKET, market.clone())
            },
            None => builder,
        };
        assert(r.spec_query() =~= spec_search_params(
            self.spec_query(),
            self.spec_types(),
            self.spec_limit(),
            self.spec_offset(),
            self.spec_market(),
        ));
        r
    }
}


/// The names of the search endpoint's query parameters, as Spotify documents them.
pub proof fn law_search_parameter_names()
    ensures
        SEARCH_QUERY@ == "q"@,
        SEARCH_TYPE@ == "type"@,
        SEARCH_LIMIT@ == "limit"@,
        SEARCH_OFFSET@ == "offset"@,
        SEARCH_MARKET@ == "market"@,
{
}

} // verus!
