//! Searching for works: in the built-in catalogue and at the providers.

pub mod fixtures;

use vstd::prelude::*;

use crate::constants::SEARCH_PAGE_SIZE;
use crate::data::fixtures::{fixture_catalogue, get_fixture_search_results};
use crate::models::{SearchResult, SearchResultView, SearchResultsPage, WorkType};
use crate::providers::{
    ProviderError, ProviderErrorView, ProviderResult, SearchRequest, SearchRequestView,
};
use crate::providers::rawg::RawgClient;
use crate::providers::tmdb::TmdbClient;
use crate::text::search::{contains_text, lowercased, text_contains, to_lowercase};

verus! {

/// Whether an entry of a catalogue answers a search: it is of the kind
/// asked for, and its title holds the query, upper and lower case taken as
/// the same. The empty query is held by every title.
pub open spec fn answers(entry: SearchResultView, query: Seq<char>, work_type: WorkType) -> bool {
    &&& entry.work_type == work_type
    &&& (query.len() == 0 || contains_text(lowercased(entry.title), lowercased(query)))
}

/// The entries of `entries` that answer a search, in their order.
pub open spec fn answering(entries: Seq<SearchResultView>, query: Seq<char>, work_type: WorkType) -> Seq<
    SearchResultView,
>
    decreases entries.len(),
{
    if entries.len() == 0 {
        Seq::empty()
    } else {
        let before = answering(entries.drop_last(), query, work_type);
        if answers(entries.last(), query, work_type) {
            before.push(entries.last())
        } else {
            before
        }
    }
}

/// The number of pages that `count` results fill.
pub open spec fn pages_for(count: nat) -> nat {
    ((count + SEARCH_PAGE_SIZE - 1) / (SEARCH_PAGE_SIZE as int)) as nat
}

/// The results on page `page` of `all`: ten to a page, none beyond the last.
pub open spec fn page_of(all: Seq<SearchResultView>, page: usize) -> Seq<SearchResultView> {
    let start = page * SEARCH_PAGE_SIZE;
    if start < all.len() {
        let end = if start + SEARCH_PAGE_SIZE < all.len() {
            start + SEARCH_PAGE_SIZE
        } else {
            all.len() as int
        };
        all.subrange(start, end)
    } else {
        Seq::empty()
    }
}

/// Whether an entry answers a search.
fn entry_answers(entry: &SearchResult, query: &str, lower_query: &str, work_type: WorkType) -> (b:
    bool)
    requires
        lower_query@ == lowercased(query@),
    ensures
        b == answers(entry@, query@, work_type),
{
    if entry.work_type != work_type {
        return false;
    }
    if query.is_empty() {
        return true;
    }
    let title = to_lowercase(entry.title.as_str());
    text_contains(title.as_str(), lower_query)
}

/// Searches the built-in catalogue for works of one kind whose title holds
/// `query`, and gives page `page` of what was found, with the number of all
/// results and of the pages they fill.
pub fn search_works(query: &str, work_type: WorkType, page: usize) -> (r: SearchResultsPage)
    ensures
        r.results.deep_view() == page_of(answering(fixture_catalogue(), query@, work_type), page),
        r.total_count == answering(fixture_catalogue(), query@, work_type).len(),
        r.page == page,
        r.total_pages == pages_for(r.total_count as nat),
{
    let fixtures = get_fixture_search_results();
    let lower_query = to_lowercase(query);
    let ghost all = fixtures.deep_view();
    let mut found: Vec<SearchResult> = Vec::new();
    let mut i: usize = 0;
    while i < fixtures.len()
        invariant
            i <= fixtures.len(),
            all == fixtures.deep_view(),
            lower_query@ == lowercased(query@),
            found.deep_view() == answering(all.take(i as int), query@, work_type),
        decreases fixtures.len() - i,
    {
        let ghost upto = all.take(i + 1);
        assert(upto.drop_last() =~= all.take(i as int));
        if entry_answers(&fixtures[i], query, lower_query.as_str(), work_type) {
            found.push(fixtures[i].clone());
        }
        i = i + 1;
    }
    assert(all.take(i as int) =~= all);
    paginate(found, page)
}

/// Page `page` of `found`, ten results to a page, with the number of all
/// results and of the pages they fill. A page beyond the last is empty.
pub fn paginate(found: Vec<SearchResult>, page: usize) -> (r: SearchResultsPage)
    ensures
        r.results.deep_view() == page_of(found.deep_view(), page),
        r.total_count == found@.len(),
        r.page == page,
        r.total_pages == pages_for(found@.len()),
{
    let total_count = found.len();
    let total_pages = total_count / SEARCH_PAGE_SIZE + if total_count % SEARCH_PAGE_SIZE == 0 {
        0
    } else {
        1
    };
    let ghost hits = found.deep_view();
    let mut results: Vec<SearchResult> = Vec::new();
    if page < total_pages {
        let start = page * SEARCH_PAGE_SIZE;
        let end = if total_count - start > SEARCH_PAGE_SIZE {
            start + SEARCH_PAGE_SIZE
        } else {
            total_count
        };
        let mut k: usize = start;
        while k < end
            invariant
                start <= k <= end <= found.len(),
                hits == found.deep_view(),
                results@.len() == k - start,
                forall|j: int| 0 <= j < k - start ==> results@[j]@ == hits[start + j],
            decreases end - k,
        {
            results.push(found[k].clone());
            k = k + 1;
        }
    }
    SearchResultsPage::new(results, total_count, page, total_pages)
}

/// How a search ended.
#[derive(Debug, PartialEq)]
pub enum SearchStatus {
    /// The provider answered.
    Success,
    /// The provider has no credential: nothing was asked.
    ProviderNotConfigured,
    /// The results are from the built-in catalogue.
    UsingFixtures,
    /// The request did not get through, or the answer could not be read.
    NetworkError(String),
    /// The provider answered with an error status, such as 401 for a
    /// credential that was refused or 429 for too many requests.
    ApiError { status: u16, message: String },
}

/// What a `SearchStatus` stands for.
pub enum SearchStatusView {
    Success,
    ProviderNotConfigured,
    UsingFixtures,
    NetworkError(Seq<char>),
    ApiError { status: u16, message: Seq<char> },
}

impl View for SearchStatus {
    type V = SearchStatusView;

    open spec fn view(&self) -> SearchStatusView {
        match *self {
            SearchStatus::Success => SearchStatusView::Success,
            SearchStatus::ProviderNotConfigured => SearchStatusView::ProviderNotConfigured,
            SearchStatus::UsingFixtures => SearchStatusView::UsingFixtures,
            SearchStatus::NetworkError(m) => SearchStatusView::NetworkError(m@),
            SearchStatus::ApiError { status, message } => SearchStatusView::ApiError {
                status,
                message: message@,
            },
        }
    }
}

impl Clone for SearchStatus {
    fn clone(&self) -> (r: Self)
        ensures
            r@ == self@,
    {
        match self {
            SearchStatus::Success => SearchStatus::Success,
            SearchStatus::ProviderNotConfigured => SearchStatus::ProviderNotConfigured,
            SearchStatus::UsingFixtures => SearchStatus::UsingFixtures,
            SearchStatus::NetworkError(m) => SearchStatus::NetworkError(m.clone()),
            SearchStatus::ApiError { status, message } => SearchStatus::ApiError {
                status: *status,
                message: message.clone(),
            },
        }
    }
}

impl SearchStatusView {
    /// Whether the search gave results to show.
    pub open spec fn has_results(self) -> bool {
        self is Success || self is UsingFixtures
    }
}

impl SearchStatus {
    /// Whether the search gave results to show.
    pub fn has_results(&self) -> (b: bool)
        ensures
            b == self@.has_results(),
    {
        match self {
            SearchStatus::Success => true,
            SearchStatus::UsingFixtures => true,
            _ => false,
        }
    }
}

/// What a search gave back.
#[derive(Debug, PartialEq)]
pub struct SearchResponse {
    pub results: Vec<SearchResult>,
    pub status: SearchStatus,
    /// The number of results on all pages, where it is known.
    pub total_count: Option<usize>,
}

/// What a `SearchResponse` stands for.
pub struct SearchResponseView {
    pub results: Seq<SearchResultView>,
    pub status: SearchStatusView,
    pub total_count: Option<usize>,
}

impl View for SearchResponse {
    type V = SearchResponseView;

    open spec fn view(&self) -> SearchResponseView {
        SearchResponseView {
            results: self.results.deep_view(),
            status: self.status@,
            total_count: self.total_count,
        }
    }
}

/// The response that stands for what a provider gave: its results with
/// `Success`, or its failure. A credential that is missing means that the
/// provider is not configured; a status of the provider is passed on; every
/// other failure is a failure of the transport, told in the error's words.
pub open spec fn response_for(
    outcome: Result<Seq<SearchResultView>, ProviderErrorView>,
) -> SearchResponseView {
    match outcome {
        Ok(results) => SearchResponseView {
            results,
            status: SearchStatusView::Success,
            total_count: Some(results.len() as usize),
        },
        Err(e) => SearchResponseView {
            results: Seq::empty(),
            status: match e {
                ProviderErrorView::AuthError(_) => SearchStatusView::ProviderNotConfigured,
                ProviderErrorView::NetworkError(m) => SearchStatusView::NetworkError(m),
                ProviderErrorView::ApiError { status, message } => SearchStatusView::ApiError {
                    status,
                    message,
                },
                ProviderErrorView::ParseError(_) => SearchStatusView::NetworkError(e.message()),
                ProviderErrorView::Unavailable(_) => SearchStatusView::NetworkError(e.message()),
            },
            total_count: None,
        },
    }
}

/// What a provider gave, as what it stands for.
pub open spec fn outcome_view(outcome: ProviderResult<Vec<SearchResult>>) -> Result<
    Seq<SearchResultView>,
    ProviderErrorView,
> {
    match outcome {
        Ok(results) => Ok(results.deep_view()),
        Err(e) => Err(e@),
    }
}

/// A response without results.
fn empty_response(status: SearchStatus) -> (r: SearchResponse)
    ensures
        r@ == (SearchResponseView { results: Seq::empty(), status: status@, total_count: None }),
{
    let r = SearchResponse { results: Vec::new(), status, total_count: None };
    assert(r.results.deep_view() =~= Seq::<SearchResultView>::empty());
    r
}

/// What the caller is to do for a search.
#[derive(Debug, PartialEq)]
pub enum SearchStep {
    /// Nothing is to be asked: this is the response.
    Done(SearchResponse),
    /// Send this request, read the reply with the provider's `read_reply`,
    /// and hand what it gives to `SearchService::conclude`.
    Ask(SearchRequest),
}

/// What a `SearchStep` stands for.
pub enum SearchStepView {
    Done(SearchResponseView),
    Ask(SearchRequestView),
}

impl View for SearchStep {
    type V = SearchStepView;

    open spec fn view(&self) -> SearchStepView {
        match *self {
            SearchStep::Done(r) => SearchStepView::Done(r@),
            SearchStep::Ask(r) => SearchStepView::Ask(r@),
        }
    }
}

/// The providers, each for its kinds of work: films and series are looked
/// up in one catalogue, games in another.
#[derive(Debug)]
pub struct SearchService {
    pub tmdb: TmdbClient,
    pub rawg: RawgClient,
}

impl Clone for SearchService {
    fn clone(&self) -> (r: Self)
        ensures
            r.tmdb.token_view() == self.tmdb.token_view(),
            r.rawg.api_key_view() == self.rawg.api_key_view(),
    {
        SearchService { tmdb: self.tmdb.clone(), rawg: self.rawg.clone() }
    }
}

impl SearchService {
    /// Whether the provider for `work_type` has its credential.
    pub open spec fn configured_for(&self, work_type: WorkType) -> bool {
        if work_type == WorkType::Game {
            self.rawg.api_key_view() is Some
        } else {
            self.tmdb.token_view() is Some
        }
    }

    /// What `search` gives.
    pub open spec fn search_spec(&self, query: Seq<char>, work_type: WorkType, page: usize) -> SearchStepView {
        if !self.configured_for(work_type) {
            SearchStepView::Done(response_for(Err(not_configured_error(work_type))))
        } else if work_type == WorkType::Game {
            match self.rawg.search_spec(query, page) {
                Ok(Some(request)) => SearchStepView::Ask(request),
                Ok(None) => SearchStepView::Done(response_for(Ok(Seq::empty()))),
                Err(e) => SearchStepView::Done(response_for(Err(e))),
            }
        } else {
            match self.tmdb.search_spec(query, work_type, page) {
                Ok(request) => SearchStepView::Ask(request),
                Err(e) => SearchStepView::Done(response_for(Err(e))),
            }
        }
    }

    /// The providers with the credentials given.
    pub fn new(tmdb_token: Option<String>, rawg_api_key: Option<String>) -> (s: Self)
        ensures
            s.tmdb.token_view() == crate::text::opt_text(tmdb_token),
            s.rawg.api_key_view() == crate::text::opt_text(rawg_api_key),
    {
        SearchService { tmdb: TmdbClient::new(tmdb_token), rawg: RawgClient::new(rawg_api_key) }
    }

    /// Whether the provider for `work_type` has its credential.
    pub fn is_configured(&self, work_type: WorkType) -> (b: bool)
        ensures
            b == self.configured_for(work_type),
    {
        match work_type {
            WorkType::Game => self.rawg.is_configured(),
            _ => self.tmdb.is_configured(),
        }
    }

    /// The first half of a search: the request to send to the provider for
    /// `work_type`, or the response where nothing is to be asked. Without the
    /// provider's credential the response says that it is not configured.
    pub fn search(&self, query: &str, work_type: WorkType, page: usize) -> (r: SearchStep)
        requires
            page < usize::MAX,
        ensures
            r@ == self.search_spec(query@, work_type, page),
    {
        if !self.is_configured(work_type) {
            return SearchStep::Done(empty_response(SearchStatus::ProviderNotConfigured));
        }
        match work_type {
            WorkType::Game => match self.rawg.search(query, page) {
                Ok(Some(request)) => SearchStep::Ask(request),
                Ok(None) => {
                    let none: Vec<SearchResult> = Vec::new();
                    assert(none.deep_view() =~= Seq::<SearchResultView>::empty());
                    SearchStep::Done(SearchService::conclude(Ok(none)))
                },
                Err(e) => SearchStep::Done(SearchService::conclude(Err(e))),
            },
            _ => match self.tmdb.search(query, work_type, page) {
                Ok(request) => SearchStep::Ask(request),
                Err(e) => SearchStep::Done(SearchService::conclude(Err(e))),
            },
        }
    }

    /// The second half of a search: the response that stands for what the
    /// provider gave.
    pub fn conclude(outcome: ProviderResult<Vec<SearchResult>>) -> (r: SearchResponse)
        ensures
            r@ == response_for(outcome_view(outcome)),
    {
        match outcome {
            Ok(results) => {
                let total = results.len();
                SearchResponse {
                    results,
                    status: SearchStatus::Success,
                    total_count: Some(total),
                }
            },
            Err(e) => {
                let status = match e {
                    ProviderError::AuthError(_) => SearchStatus::ProviderNotConfigured,
                    ProviderError::NetworkError(m) => SearchStatus::NetworkError(m),
                    ProviderError::ApiError { status, message } => SearchStatus::ApiError {
                        status,
                        message,
                    },
                    ProviderError::ParseError(_) => SearchStatus::NetworkError(e.message()),
                    ProviderError::Unavailable(_) => SearchStatus::NetworkError(e.message()),
                };
                empty_response(status)
            },
        }
    }

    /// A search in the built-in catalogue: page `page` of the works of one
    /// kind whose title holds `query`, marked as coming from there.
    pub fn search_fixtures(query: &str, work_type: WorkType, page: usize) -> (r: SearchResponse)
        ensures
            r@ == (SearchResponseView {
                results: page_of(answering(fixture_catalogue(), query@, work_type), page),
                status: SearchStatusView::UsingFixtures,
                total_count: Some(
                    answering(fixture_catalogue(), query@, work_type).len() as usize,
                ),
            }),
    {
        let found = search_works(query, work_type, page);
        SearchResponse {
            results: found.results,
            status: SearchStatus::UsingFixtures,
            total_count: Some(found.total_count),
        }
    }
}

/// The error that stands for a provider without its credential.
pub open spec fn not_configured_error(work_type: WorkType) -> ProviderErrorView {
    if work_type == WorkType::Game {
        ProviderErrorView::AuthError("RAWG API key not configured"@)
    } else {
        ProviderErrorView::AuthError("TMDB API token not configured"@)
    }
}

} // verus!
