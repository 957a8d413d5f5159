//! The film and series catalogue (TMDB).

use vstd::prelude::*;
use vstd::string::StringExecFns;

use crate::models::{ProviderRef, ProviderRefView, SearchResult, SearchResultView, WorkType};
use crate::providers::{
    percent_encode, provider_page, url_encoded, ProviderError, ProviderErrorView, ProviderReply,
    ProviderResult, ProviderStatus, SearchProvider, SearchRequest, SearchRequestView,
};
use crate::text::{clone_opt_text, opt_text};
use crate::text::numbers::{decimal, decimal_text, extract_year, push_decimal, year_of_date};

verus! {

/// Where the catalogue answers.
pub const TMDB_API_BASE: &'static str = "https://api.themoviedb.org/3";

/// Where the catalogue keeps its cover images, 500 pixels wide.
pub const TMDB_IMAGE_BASE: &'static str = "https://image.tmdb.org/t/p/w500";

/// The name of the setting that holds the access token.
pub const TMDB_TOKEN_ENV: &'static str = "TMDB_ACCESS_TOKEN";

/// The catalogue's name in a provider reference.
pub const TMDB_SOURCE: &'static str = "tmdb";

/// One record of the catalogue's answer to a search. Films carry `title` and
/// `release_date`, series carry `name` and `first_air_date`.
#[derive(Debug, PartialEq)]
pub struct TmdbSearchResult {
    pub id: u64,
    pub title: Option<String>,
    pub release_date: Option<String>,
    pub name: Option<String>,
    pub first_air_date: Option<String>,
    pub poster_path: Option<String>,
    pub overview: Option<String>,
}

/// The text that an optional text stands for, the empty text if there is
/// none.
pub open spec fn text_or_empty(t: Option<String>) -> Seq<char> {
    match t {
        Some(s) => s@,
        None => Seq::empty(),
    }
}

/// The year of an optional date.
pub open spec fn year_of(date: Option<String>) -> Option<u16> {
    match date {
        Some(d) => year_of_date(d@),
        None => None,
    }
}

/// A copy of an optional text, the empty text if there is none.
pub fn clone_or_empty(t: &Option<String>) -> (r: String)
    ensures
        r@ == text_or_empty(*t),
{
    match t {
        Some(s) => s.clone(),
        None => String::new(),
    }
}

/// The year of an optional date.
pub fn year_of_opt(date: &Option<String>) -> (r: Option<u16>)
    ensures
        r == year_of(*date),
{
    match date {
        Some(d) => extract_year(d.as_str()),
        None => None,
    }
}

impl TmdbSearchResult {
    /// The search result that this record stands for, as a film or as a
    /// series.
    pub open spec fn as_search_result(&self, work_type: WorkType) -> SearchResultView {
        SearchResultView {
            provider_ref: ProviderRefView { source: TMDB_SOURCE@, id: decimal(self.id as nat) },
            title: if work_type == WorkType::Movie {
                text_or_empty(self.title)
            } else {
                text_or_empty(self.name)
            },
            year: if work_type == WorkType::Movie {
                year_of(self.release_date)
            } else {
                year_of(self.first_air_date)
            },
            work_type,
            cover_url: match self.poster_path {
                Some(path) => Some(TMDB_IMAGE_BASE@ + path@),
                None => None,
            },
            theme_music_url: None,
        }
    }

    /// Makes a search result of the record: title and year from the fields
    /// for films or from those for series, the cover's address from the
    /// poster path. The catalogue has no games.
    pub fn to_search_result(&self, work_type: WorkType) -> (r: SearchResult)
        requires
            work_type != WorkType::Game,
        ensures
            r@ == self.as_search_result(work_type),
    {
        let (title, year) = match work_type {
            WorkType::Movie => (clone_or_empty(&self.title), year_of_opt(&self.release_date)),
            _ => (clone_or_empty(&self.name), year_of_opt(&self.first_air_date)),
        };
        let cover_url = match &self.poster_path {
            Some(path) => {
                let mut url = TMDB_IMAGE_BASE.to_owned();
                url.append(path.as_str());
                Some(url)
            },
            None => None,
        };
        let id = decimal_text(self.id);
        SearchResult {
            provider_ref: ProviderRef::new(TMDB_SOURCE, id.as_str()),
            title,
            year,
            work_type,
            cover_url,
            theme_music_url: None,
        }
    }
}

/// The search results that records stand for, in their order.
pub open spec fn tmdb_results(records: Seq<TmdbSearchResult>, work_type: WorkType) -> Seq<
    SearchResultView,
> {
    records.map_values(|r: TmdbSearchResult| r.as_search_result(work_type))
}

/// The part of the catalogue's address that names what is searched.
pub open spec fn tmdb_endpoint(work_type: WorkType) -> Seq<char> {
    if work_type == WorkType::Movie {
        "search/movie"@
    } else {
        "search/tv"@
    }
}

/// The address that a search for `query` is sent to.
pub open spec fn tmdb_search_url(query: Seq<char>, work_type: WorkType, page: usize) -> Seq<char> {
    TMDB_API_BASE@ + "/"@ + tmdb_endpoint(work_type) + "?query="@ + url_encoded(query)
        + "&page="@ + decimal(provider_page(page)) + "&include_adult=false&language=en-US"@
}

/// The film and series catalogue, with the access token if one is set.
#[derive(Debug)]
pub struct TmdbClient {
    token: Option<String>,
}

impl Clone for TmdbClient {
    fn clone(&self) -> (r: Self)
        ensures
            r.token_view() == self.token_view(),
    {
        TmdbClient { token: clone_opt_text(&self.token) }
    }
}

impl TmdbClient {
    /// The access token, if one is set.
    pub closed spec fn token_view(&self) -> Option<Seq<char>> {
        opt_text(self.token)
    }

    /// What a search gives before anything is sent.
    pub open spec fn search_spec(&self, query: Seq<char>, work_type: WorkType, page: usize) -> Result<
        SearchRequestView,
        ProviderErrorView,
    > {
        if work_type == WorkType::Game {
            Err(ProviderErrorView::Unavailable("TMDB does not support games"@))
        } else {
            match self.token_view() {
                None => Err(ProviderErrorView::AuthError("TMDB API token not configured"@)),
                Some(token) => Ok(
                    SearchRequestView {
                        url: tmdb_search_url(query, work_type, page),
                        bearer_token: Some(token),
                    },
                ),
            }
        }
    }

    /// A client with the given access token, or without one.
    pub fn new(token: Option<String>) -> (c: Self)
        ensures
            c.token_view() == opt_text(token),
    {
        TmdbClient { token }
    }

    /// Whether an access token is set.
    pub fn is_configured(&self) -> (b: bool)
        ensures
            b == (self.token_view() is Some),
    {
        self.token.is_some()
    }

    /// `Available` with an access token, `NotConfigured` without.
    pub fn status(&self) -> (s: ProviderStatus)
        ensures
            s == if self.token_view() is Some {
                ProviderStatus::Available
            } else {
                ProviderStatus::NotConfigured
            },
    {
        if self.token.is_some() {
            ProviderStatus::Available
        } else {
            ProviderStatus::NotConfigured
        }
    }

    /// The request that searches the films for `query`.
    pub fn search_movies(&self, query: &str, page: usize) -> (r: ProviderResult<SearchRequest>)
        requires
            page < usize::MAX,
        ensures
            request_view(r) == self.search_spec(query@, WorkType::Movie, page),
    {
        self.search_internal(query, WorkType::Movie, page)
    }

    /// The request that searches the series for `query`.
    pub fn search_tv(&self, query: &str, page: usize) -> (r: ProviderResult<SearchRequest>)
        requires
            page < usize::MAX,
        ensures
            request_view(r) == self.search_spec(query@, WorkType::TvAnime, page),
    {
        self.search_internal(query, WorkType::TvAnime, page)
    }

    /// The request that searches films or series for `query`. Games are not
    /// to be had, and without an access token nothing is asked.
    pub fn search(&self, query: &str, work_type: WorkType, page: usize) -> (r: ProviderResult<
        SearchRequest,
    >)
        requires
            page < usize::MAX,
        ensures
            request_view(r) == self.search_spec(query@, work_type, page),
    {
        match work_type {
            WorkType::Movie => self.search_movies(query, page),
            WorkType::TvAnime => self.search_tv(query, page),
            WorkType::Game => Err(
                ProviderError::Unavailable("TMDB does not support games".to_owned()),
            ),
        }
    }

    /// The request for films or series: the address with the query
    /// percent-encoded and the page counted from 1, and the token.
    fn search_internal(&self, query: &str, work_type: WorkType, page: usize) -> (r: ProviderResult<
        SearchRequest,
    >)
        requires
            page < usize::MAX,
            work_type != WorkType::Game,
        ensures
            request_view(r) == self.search_spec(query@, work_type, page),
    {
        let token = match &self.token {
            Some(token) => token.clone(),
            None => {
                return Err(ProviderError::AuthError("TMDB API token not configured".to_owned()));
            },
        };
        let endpoint = match work_type {
            WorkType::Movie => "search/movie",
            _ => "search/tv",
        };
        let mut url = TMDB_API_BASE.to_owned();
        url.append("/");
        url.append(endpoint);
        url.append("?query=");
        url.append(percent_encode(query).as_str());
        url.append("&page=");
        push_decimal(&mut url, page as u64 + 1);
        url.append("&include_adult=false&language=en-US");
        Ok(SearchRequest { url, bearer_token: Some(token) })
    }

    /// Reads what came back for a search: the records as search results, or
    /// the error that a failure stands for.
    pub fn read_reply(work_type: WorkType, reply: ProviderReply<TmdbSearchResult>) -> (r:
        ProviderResult<Vec<SearchResult>>)
        requires
            work_type != WorkType::Game,
        ensures
            match reply {
                ProviderReply::Unreachable(m) => r matches Err(e) && e@
                    == ProviderErrorView::NetworkError(m@),
                ProviderReply::Refused { status, body } => r matches Err(e) && e@
                    == (ProviderErrorView::ApiError { status, message: body@ }),
                ProviderReply::Malformed(m) => r matches Err(e) && e@
                    == ProviderErrorView::ParseError(m@),
                ProviderReply::Records(records) => r matches Ok(results) && results.deep_view()
                    == tmdb_results(records@, work_type),
            },
    {
        match reply {
            ProviderReply::Unreachable(m) => Err(ProviderError::NetworkError(m)),
            ProviderReply::Refused { status, body } => Err(
                ProviderError::ApiError { status, message: body },
            ),
            ProviderReply::Malformed(m) => Err(ProviderError::ParseError(m)),
            ProviderReply::Records(records) => {
                let mut results: Vec<SearchResult> = Vec::new();
                let mut i: usize = 0;
                while i < records.len()
                    invariant
                        i <= records.len(),
                        work_type != WorkType::Game,
                        results@.len() == i,
                        forall|k: int|
                            0 <= k < i ==> results@[k]@ == records@[k].as_search_result(work_type),
                    decreases records.len() - i,
                {
                    results.push(records[i].to_search_result(work_type));
                    i = i + 1;
                }
                Ok(results)
            },
        }
    }
}

impl SearchProvider for TmdbClient {
    fn status(&self) -> (s: ProviderStatus)
        ensures
            s == if self.token_view() is Some {
                ProviderStatus::Available
            } else {
                ProviderStatus::NotConfigured
            },
    {
        TmdbClient::status(self)
    }

    fn name(&self) -> (r: &'static str)
        ensures
            r@ == "TMDB"@,
    {
        "TMDB"
    }
}

/// What a request, or the error in its place, stands for.
pub open spec fn request_view(r: ProviderResult<SearchRequest>) -> Result<
    SearchRequestView,
    ProviderErrorView,
> {
    match r {
        Ok(request) => Ok(request@),
        Err(e) => Err(e@),
    }
}

} // verus!
