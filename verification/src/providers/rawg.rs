//! The game catalogue (RAWG).

use vstd::prelude::*;
use vstd::string::StringExecFns;

use crate::models::{ProviderRef, ProviderRefView, SearchResult, SearchResultView, WorkType};
use crate::providers::{
    percent_encode, provider_page, url_encoded, ProviderError, ProviderErrorView, ProviderReply,
    ProviderResult, ProviderStatus, SearchProvider, SearchRequest, SearchRequestView,
};
use crate::providers::tmdb::{year_of, year_of_opt};
use crate::text::{chars_of, clone_opt_text, opt_text};
use crate::text::numbers::{decimal, decimal_text, push_decimal};
use crate::text::trim::{is_blank, lemma_trimmed_empty_iff_blank, trim_bounds};

verus! {

/// Where the catalogue answers.
pub const RAWG_API_BASE: &'static str = "https://api.rawg.io/api";

/// The name of the setting that holds the API key.
pub const RAWG_API_KEY_ENV: &'static str = "RAWG_API_KEY";

/// The catalogue's name in a provider reference.
pub const RAWG_SOURCE: &'static str = "rawg";

/// The number of results asked for on a page.
pub const RAWG_PAGE_SIZE: u64 = 20;

/// One game of the catalogue's answer to a search.
#[derive(Debug, PartialEq)]
pub struct RawgGame {
    pub id: u64,
    pub name: String,
    /// The release date, as year, month and day.
    pub released: Option<String>,
    pub background_image: Option<String>,
}

impl RawgGame {
    /// The search result that this game stands for.
    pub open spec fn as_search_result(&self) -> SearchResultView {
        SearchResultView {
            provider_ref: ProviderRefView { source: RAWG_SOURCE@, id: decimal(self.id as nat) },
            title: self.name@,
            year: year_of(self.released),
            work_type: WorkType::Game,
            cover_url: opt_text(self.background_image),
            theme_music_url: None,
        }
    }

    /// Makes a search result of the game: the year from the release date, the
    /// cover from the background image.
    pub fn to_search_result(&self) -> (r: SearchResult)
        ensures
            r@ == self.as_search_result(),
    {
        let id = decimal_text(self.id);
        SearchResult {
            provider_ref: ProviderRef::new(RAWG_SOURCE, id.as_str()),
            title: self.name.clone(),
            year: year_of_opt(&self.released),
            work_type: WorkType::Game,
            cover_url: clone_opt_text(&self.background_image),
            theme_music_url: None,
        }
    }
}

/// The search results that games stand for, in their order.
pub open spec fn rawg_results(games: Seq<RawgGame>) -> Seq<SearchResultView> {
    games.map_values(|g: RawgGame| g.as_search_result())
}

/// The address that a search for `query` is sent to.
pub open spec fn rawg_search_url(api_key: Seq<char>, query: Seq<char>, page: usize) -> Seq<char> {
    RAWG_API_BASE@ + "/games?key="@ + api_key + "&search="@ + url_encoded(query) + "&page="@
        + decimal(provider_page(page)) + "&page_size="@ + decimal(RAWG_PAGE_SIZE as nat)
}

/// The game catalogue, with the API key if one is set.
#[derive(Debug)]
pub struct RawgClient {
    api_key: Option<String>,
}

impl Clone for RawgClient {
    fn clone(&self) -> (r: Self)
        ensures
            r.api_key_view() == self.api_key_view(),
    {
        RawgClient { api_key: clone_opt_text(&self.api_key) }
    }
}

impl RawgClient {
    /// The API key, if one is set.
    pub closed spec fn api_key_view(&self) -> Option<Seq<char>> {
        opt_text(self.api_key)
    }

    /// What a search gives before anything is sent: an error without an API
    /// key, no request for a blank query, else the request.
    pub open spec fn search_spec(&self, query: Seq<char>, page: usize) -> Result<
        Option<SearchRequestView>,
        ProviderErrorView,
    > {
        match self.api_key_view() {
            None => Err(ProviderErrorView::AuthError("RAWG API key not configured"@)),
            Some(key) => if is_blank(query) {
                Ok(None)
            } else {
                Ok(
                    Some(
                        SearchRequestView {
                            url: rawg_search_url(key, query, page),
                            bearer_token: None,
                        },
                    ),
                )
            },
        }
    }

    /// A client with the given API key, or without one.
    pub fn new(api_key: Option<String>) -> (c: Self)
        ensures
            c.api_key_view() == opt_text(api_key),
    {
        RawgClient { api_key }
    }

    /// Whether an API key is set.
    pub fn is_configured(&self) -> (b: bool)
        ensures
            b == (self.api_key_view() is Some),
    {
        self.api_key.is_some()
    }

    /// `Available` with an API key, `NotConfigured` without.
    pub fn status(&self) -> (s: ProviderStatus)
        ensures
            s == if self.api_key_view() is Some {
                ProviderStatus::Available
            } else {
                ProviderStatus::NotConfigured
            },
    {
        if self.api_key.is_some() {
            ProviderStatus::Available
        } else {
            ProviderStatus::NotConfigured
        }
    }

    /// The request that searches the games for `query`: the address with the
    /// key, the query percent-encoded and the page counted from 1. Without an
    /// API key nothing is asked. For a blank query there is nothing to ask:
    /// the result is `Ok(None)`, and the search has no results.
    pub fn search(&self, query: &str, page: usize) -> (r: ProviderResult<Option<SearchRequest>>)
        requires
            page < usize::MAX,
        ensures
            optional_request_view(r) == self.search_spec(query@, page),
    {
        let api_key = match &self.api_key {
            Some(key) => key,
            None => {
                return Err(ProviderError::AuthError("RAWG API key not configured".to_owned()));
            },
        };
        let chars = chars_of(query);
        let (from, to) = trim_bounds(&chars, 0, chars.len());
        proof {
            assert(chars@.subrange(0, chars@.len() as int) == query@);
            lemma_trimmed_empty_iff_blank(query@);
        }
        if from == to {
            return Ok(None);
        }
        let mut url = RAWG_API_BASE.to_owned();
        url.append("/games?key=");
        url.append(api_key.as_str());
        url.append("&search=");
        url.append(percent_encode(query).as_str());
        url.append("&page=");
        push_decimal(&mut url, page as u64 + 1);
        url.append("&page_size=");
        push_decimal(&mut url, RAWG_PAGE_SIZE);
        Ok(Some(SearchRequest { url, bearer_token: None }))
    }

    /// Reads what came back for a search: the games as search results, or
    /// the error that a failure stands for.
    pub fn read_reply(reply: ProviderReply<RawgGame>) -> (r: ProviderResult<Vec<SearchResult>>)
        ensures
            match reply {
                ProviderReply::Unreachable(m) => r matches Err(e) && e@
                    == ProviderErrorView::NetworkError(m@),
                ProviderReply::Refused { status, body } => r matches Err(e) && e@
                    == (ProviderErrorView::ApiError { status, message: body@ }),
                ProviderReply::Malformed(m) => r matches Err(e) && e@
                    == ProviderErrorView::ParseError(m@),
                ProviderReply::Records(games) => r matches Ok(results) && results.deep_view()
                    == rawg_results(games@),
            },
    {
        match reply {
            ProviderReply::Unreachable(m) => Err(ProviderError::NetworkError(m)),
            ProviderReply::Refused { status, body } => Err(
                ProviderError::ApiError { status, message: body },
            ),
            ProviderReply::Malformed(m) => Err(ProviderError::ParseError(m)),
            ProviderReply::Records(games) => {
                let mut results: Vec<SearchResult> = Vec::new();
                let mut i: usize = 0;
                while i < games.len()
                    invariant
                        i <= games.len(),
                        results@.len() == i,
                        forall|k: int| 0 <= k < i ==> results@[k]@ == games@[k].as_search_result(),
                    decreases games.len() - i,
                {
                    results.push(games[i].to_search_result());
                    i = i + 1;
                }
                Ok(results)
            },
        }
    }
}

impl SearchProvider for RawgClient {
    fn status(&self) -> (s: ProviderStatus)
        ensures
            s == if self.api_key_view() is Some {
                ProviderStatus::Available
            } else {
                ProviderStatus::NotConfigured
            },
    {
        RawgClient::status(self)
    }

    fn name(&self) -> (r: &'static str)
        ensures
            r@ == "RAWG"@,
    {
        "RAWG"
    }
}

/// What an optional request, or the error in its place, stands for.
pub open spec fn optional_request_view(r: ProviderResult<Option<SearchRequest>>) -> Result<
    Option<SearchRequestView>,
    ProviderErrorView,
> {
    match r {
        Ok(Some(request)) => Ok(Some(request@)),
        Ok(None) => Ok(None),
        Err(e) => Err(e@),
    }
}

} // verus!
