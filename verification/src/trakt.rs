//! The metadata-search collaborator: search-result data, the canonical-ID
//! resolver, and the client that carries the bearer headers and the
//! resolution cache.

use vstd::prelude::*;

use crate::cache::{CacheKey, ResolutionCache};
use crate::decimal::{spec_decimal, u64_to_decimal};
use crate::errors::Error;
use crate::http::{HttpClient, Method, PreparedRequest, RequestBody};

verus! {

/// The two content kinds a search can be scoped to.
#[derive(Clone, Copy, PartialEq, Eq, Structural, Debug)]
pub enum MediaType {
    Movie,
    Show,
}

/// The credential pair the device-authorization flow produces: held in
/// process memory for the process lifetime, never persisted here.
pub struct TraktOAuthToken {
    pub access_token: String,
    pub refresh_token: String,
    /// Token lifetime in seconds, when the endpoint reported one.
    pub expires_in: Option<u64>,
}

/// One watchlist entry: the content-kind word of the wire format's `type`
/// member.
pub struct WatchListItem {
    pub kind: String,
}

/// The watchlist as the provider reports it.
pub struct WatchList {
    pub watchlist: Vec<WatchListItem>,
}

/// The external identifiers of one search entity; the canonical
/// cross-reference id may be absent.
pub struct IDs {
    pub imdb: Option<String>,
}

impl Clone for IDs {
    fn clone(&self) -> (r: Self)
        ensures
            r == *self,
    {
        let imdb = match &self.imdb {
            Some(s) => Some(s.clone()),
            None => None,
        };
        IDs { imdb }
    }
}

pub struct Movie {
    pub title: String,
    pub year: u32,
    pub ids: IDs,
}

impl Clone for Movie {
    fn clone(&self) -> (r: Self)
        ensures
            r == *self,
    {
        Movie { title: self.title.clone(), year: self.year, ids: self.ids.clone() }
    }
}

pub struct Show {
    pub title: String,
    pub year: u32,
    pub ids: IDs,
}

impl Clone for Show {
    fn clone(&self) -> (r: Self)
        ensures
            r == *self,
    {
        Show { title: self.title.clone(), year: self.year, ids: self.ids.clone() }
    }
}

pub struct Episode {
    pub title: String,
    pub ids: IDs,
}

impl Clone for Episode {
    fn clone(&self) -> (r: Self)
        ensures
            r == *self,
    {
        Episode { title: self.title.clone(), ids: self.ids.clone() }
    }
}

pub struct Person {
    pub name: String,
    pub ids: IDs,
}

impl Clone for Person {
    fn clone(&self) -> (r: Self)
        ensures
            r == *self,
    {
        Person { name: self.name.clone(), ids: self.ids.clone() }
    }
}

/// One movie search hit. The provider reports a fractional relevance score;
/// it is held in thousandths here.
pub struct SearchResultMovie {
    pub score_milli: u64,
    pub movie: Movie,
}

impl Clone for SearchResultMovie {
    fn clone(&self) -> (r: Self)
        ensures
            r == *self,
    {
        SearchResultMovie { score_milli: self.score_milli, movie: self.movie.clone() }
    }
}

/// One show search hit; the score is in thousandths.
pub struct SearchResultShow {
    pub score_milli: u64,
    pub show: Show,
}

impl Clone for SearchResultShow {
    fn clone(&self) -> (r: Self)
        ensures
            r == *self,
    {
        SearchResultShow { score_milli: self.score_milli, show: self.show.clone() }
    }
}

/// One episode search hit; the score is in thousandths.
pub struct SearchResultEpisode {
    pub score_milli: u64,
    pub episode: Episode,
}

impl Clone for SearchResultEpisode {
    fn clone(&self) -> (r: Self)
        ensures
            r == *self,
    {
        SearchResultEpisode { score_milli: self.score_milli, episode: self.episode.clone() }
    }
}

/// One person search hit; the score is in thousandths.
pub struct SearchResultPerson {
    pub score_milli: u64,
    pub person: Person,
}

impl Clone for SearchResultPerson {
    fn clone(&self) -> (r: Self)
        ensures
            r == *self,
    {
        SearchResultPerson { score_milli: self.score_milli, person: self.person.clone() }
    }
}

/// One entry of a search response: exactly one variant is populated, and
/// the tag alone decides which nested entity is valid.
pub enum SearchResultItem {
    Movie(SearchResultMovie),
    Show(SearchResultShow),
    Episode(SearchResultEpisode),
    Person(SearchResultPerson),
}

impl Clone for SearchResultItem {
    fn clone(&self) -> (r: Self)
        ensures
            r == *self,
    {
        match self {
            SearchResultItem::Movie(m) => SearchResultItem::Movie(m.clone()),
            SearchResultItem::Show(s) => SearchResultItem::Show(s.clone()),
            SearchResultItem::Episode(e) => SearchResultItem::Episode(e.clone()),
            SearchResultItem::Person(p) => SearchResultItem::Person(p.clone()),
        }
    }
}

/// An ordered search response, pre-ranked by the provider.
pub struct SearchResult {
    pub searchresult: Vec<SearchResultItem>,
}

impl View for SearchResult {
    type V = Seq<SearchResultItem>;

    open spec fn view(&self) -> Seq<SearchResultItem> {
        self.searchresult@
    }
}

impl Clone for SearchResult {
    fn clone(&self) -> (r: Self)
        ensures
            r@ == self@,
    {
        let mut items: Vec<SearchResultItem> = Vec::new();
        let mut i: usize = 0;
        while i < self.searchresult.len()
            invariant
                i <= self.searchresult.len(),
                items@ =~= self.searchresult@.take(i as int),
            decreases self.searchresult.len() - i,
        {
            items.push(self.searchresult[i].clone());
            proof {
                assert(self.searchresult@.take(i as int).push(self.searchresult@[i as int])
                    =~= self.searchresult@.take(i + 1 as int));
            }
            i = i + 1;
        }
        proof {
            assert(self.searchresult@.take(self.searchresult@.len() as int)
                =~= self.searchresult@);
        }
        SearchResult { searchresult: items }
    }
}

/// The identifier a search entry exposes, through the variant-dependent
/// nested path.
pub open spec fn item_imdb(item: SearchResultItem) -> Option<String> {
    match item {
        SearchResultItem::Movie(m) => m.movie.ids.imdb,
        SearchResultItem::Show(s) => s.show.ids.imdb,
        SearchResultItem::Episode(e) => e.episode.ids.imdb,
        SearchResultItem::Person(p) => p.person.ids.imdb,
    }
}

/// What a search response resolves to: the first entry's identifier; none
/// on an empty response or a first entry without one.
pub open spec fn resolve_model(items: Seq<SearchResultItem>) -> Option<String> {
    if items.len() == 0 {
        None
    } else {
        item_imdb(items[0])
    }
}

/// Resolves a search response to its canonical external identifier. The
/// response is pre-ranked, so the first entry decides; an empty response,
/// or a first entry without the identifier, resolves to nothing.
pub fn resolve(result: &SearchResult) -> (r: Option<String>)
    ensures
        r == resolve_model(result@),
{
    if result.searchresult.len() == 0 {
        None
    } else {
        let imdb = match &result.searchresult[0] {
            SearchResultItem::Movie(m) => &m.movie.ids.imdb,
            SearchResultItem::Show(s) => &s.show.ids.imdb,
            SearchResultItem::Episode(e) => &e.episode.ids.imdb,
            SearchResultItem::Person(p) => &p.person.ids.imdb,
        };
        match imdb {
            Some(s) => Some(s.clone()),
            None => None,
        }
    }
}

/// A search outcome reduced to its mathematical content: the entry sequence
/// on success, the error otherwise.
pub open spec fn outcome_view(v: Result<SearchResult, Error>) -> Result<
    Seq<SearchResultItem>,
    Error,
> {
    match v {
        Ok(sr) => Ok(sr@),
        Err(e) => Err(e),
    }
}

/// What a cached or fresh search outcome yields for one request: the
/// resolved identifier, the distinct unresolvable condition, or the stored
/// error.
pub open spec fn resolved_of(w: Result<Seq<SearchResultItem>, Error>) -> Result<String, Error> {
    match w {
        Ok(items) => match resolve_model(items) {
            Some(id) => Ok(id),
            None => Err(Error::UnresolvableContent),
        },
        Err(e) => Err(e),
    }
}

/// Clones a search outcome; the copy has the same mathematical content.
pub fn clone_outcome(v: &Result<SearchResult, Error>) -> (r: Result<SearchResult, Error>)
    ensures
        outcome_view(r) == outcome_view(*v),
{
    match v {
        Ok(sr) => Ok(sr.clone()),
        Err(e) => Err(e.clone()),
    }
}

/// Resolves a search outcome: a stored failure propagates; a response
/// resolves to its identifier or to the unresolvable condition.
pub fn resolve_outcome(outcome: &Result<SearchResult, Error>) -> (r: Result<String, Error>)
    ensures
        r == resolved_of(outcome_view(*outcome)),
{
    match outcome {
        Ok(sr) => match resolve(sr) {
            Some(id) => Ok(id),
            None => Err(Error::UnresolvableContent),
        },
        Err(e) => Err(e.clone()),
    }
}

/// The search kind a request's content kind maps to: `tv` searches shows,
/// anything else - the provider's own kind word included - searches movies.
pub open spec fn media_type_model(kind: Seq<char>) -> MediaType {
    if kind == "tv"@ {
        MediaType::Show
    } else {
        MediaType::Movie
    }
}

/// Maps a request's content-kind word to the search kind.
pub fn media_type_of(kind: &String) -> (t: MediaType)
    ensures
        t == media_type_model(kind@),
{
    let tv = String::from_str("tv");
    if *kind == tv {
        MediaType::Show
    } else {
        MediaType::Movie
    }
}

/// The query value for a search kind.
pub open spec fn kind_query_model(kind: MediaType) -> Seq<char> {
    match kind {
        MediaType::Movie => "movie"@,
        MediaType::Show => "show"@,
    }
}

/// The query value for a search kind.
pub fn kind_query_value(kind: MediaType) -> (r: String)
    ensures
        r@ == kind_query_model(kind),
{
    match kind {
        MediaType::Movie => String::from_str("movie"),
        MediaType::Show => String::from_str("show"),
    }
}

/// The search endpoint path for one numeric content id.
pub fn search_path(id: u64) -> (p: String)
    ensures
        p@ == "/search/tmdb/"@ + spec_decimal(id as nat),
{
    String::from_str("/search/tmdb/").concat(u64_to_decimal(id).as_str())
}

/// The query parameters of a search: the kind filter alone.
pub fn search_params(kind: MediaType) -> (ps: Vec<(String, String)>)
    ensures
        ps.deep_view() =~= seq![("type"@, kind_query_model(kind))],
{
    let mut ps: Vec<(String, String)> = Vec::new();
    ps.push((String::from_str("type"), kind_query_value(kind)));
    ps
}

/// The time-to-live of cached search outcomes, in seconds.
pub open spec fn spec_search_ttl_secs() -> u64 {
    300
}

/// The metadata-search client: the generic REST client under the bearer and
/// API-key headers, and the time-bounded resolution cache.
pub struct TraktClient {
    pub client: HttpClient,
    pub cache: ResolutionCache,
}

impl TraktClient {
    /// The header overrides of this client: the bearer token, the API key,
    /// and the protocol version.
    pub open spec fn header_model(token: Seq<char>, client_id: Seq<char>) -> crate::http::Pairs {
        seq![
            ("Authorization"@, "Bearer "@ + token),
            ("trakt-api-key"@, client_id),
            ("trakt-api-version"@, "2"@),
        ]
    }

    /// A client holding the given token and API client id, with an empty
    /// cache under the fixed five-minute time-to-live.
    pub fn new(token: &str, client_id: &str) -> (c: TraktClient)
        ensures
            c.client.base_url@ == "https://api.trakt.tv"@,
            c.client.headers.deep_view() =~= crate::http::default_header_model()
                + Self::header_model(token@, client_id@),
            c.cache.entries() == Map::<u128, crate::cache::CacheEntry>::empty(),
            c.cache.ttl() == spec_search_ttl_secs(),
    {
        let mut overrides: Vec<(String, String)> = Vec::new();
        let bearer = String::from_str("Bearer ").concat(token);
        overrides.push((String::from_str("Authorization"), bearer));
        overrides.push((String::from_str("trakt-api-key"), client_id.to_owned()));
        overrides.push((String::from_str("trakt-api-version"), String::from_str("2")));
        proof {
            assert(overrides.deep_view() =~= Self::header_model(token@, client_id@));
        }
        TraktClient {
            client: HttpClient::new("https://api.trakt.tv", Some(overrides)),
            cache: ResolutionCache::new(300),
        }
    }

    /// The watchlist request: a plain GET without query parameters.
    pub fn watchlist_request(&self) -> (r: PreparedRequest)
        ensures
            r.method == Method::Get,
            r.url@ == self.client.base_url@ + "/sync/watchlist/movies,shows"@,
            r.headers.deep_view() =~= self.client.headers.deep_view(),
            r.body@ == "{}"@,
    {
        let params: Vec<(String, String)> = Vec::new();
        let r = self.client.prepare(Method::Get, "/sync/watchlist/movies,shows", &params, &RequestBody::Empty);
        proof {
            assert(params.deep_view() =~= Seq::<(Seq<char>, Seq<char>)>::empty());
        }
        r
    }

    /// The search request for one content id and kind.
    pub fn search_request(&self, id: u64, kind: MediaType) -> (r: PreparedRequest)
        ensures
            r.method == Method::Get,
            r.url@ == crate::http::url_model(
                self.client.base_url@,
                "/search/tmdb/"@ + spec_decimal(id as nat),
                seq![("type"@, kind_query_model(kind))],
            ),
            r.headers.deep_view() =~= self.client.headers.deep_view(),
    {
        let path = search_path(id);
        let params = search_params(kind);
        self.client.prepare(Method::Get, path.as_str(), &params, &RequestBody::Empty)
    }

    /// Searches for one content id, through the cache: a live cached
    /// outcome - success or failure - is returned as it is, without
    /// invoking `fetch`; otherwise `fetch` runs exactly once and its
    /// outcome, whatever it was, becomes the cache entry for this key.
    pub fn search<F: FnOnce() -> Result<SearchResult, Error>>(
        &mut self,
        id: u64,
        kind: &String,
        now: u64,
        fetch: F,
    ) -> (r: Result<SearchResult, Error>)
        requires
            call_requires(fetch, ()),
        ensures
            ({
                let key = CacheKey { tmdb_id: id, kind: media_type_model(kind@) };
                &&& old(self).cache.live(key, now) ==> {
                    &&& *final(self) == *old(self)
                    &&& outcome_view(r) == outcome_view(old(self).cache.entry_of(key).value)
                }
                &&& !old(self).cache.live(key, now) ==> {
                    &&& call_ensures(fetch, (), r)
                    &&& final(self).client == old(self).client
                    &&& final(self).cache.stored_fresh(old(self).cache, key, now, outcome_view(r))
                }
            }),
    {
        let t = media_type_of(kind);
        let key = CacheKey { tmdb_id: id, kind: t };
        self.cache.lookup_or_fetch(key, now, fetch)
    }
}

} // verus!
