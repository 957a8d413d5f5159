//! The search behind the title field: which searches run, and whose results
//! count.
//!
//! Every request gets a version. The caller waits out the debounce, asks the
//! provider, and brings the response back under the version it was given; a
//! response whose version is no longer the newest is dropped. So a search
//! that was overtaken by typing can never replace newer results.

use vstd::prelude::*;
use vstd::string::StringExecFns;

use crate::app_state::{has_mnemon_for, AppState};
use crate::constants::{SEARCH_DEBOUNCE_MS, SEARCH_MIN_CHARS};
use crate::data::{SearchResponse, SearchResponseView, SearchStatus, SearchStatusView};
use crate::forms::MnemonForm;
use crate::models::{SearchResult, SearchResultView, WorkType};
use crate::models::search::clone_results;
use crate::text::char_count;
use crate::text::numbers::{decimal, push_decimal};
use crate::types::{bump, next_version};

verus! {

/// What the caller is to do for a request.
#[derive(Clone, Copy, Debug, PartialEq, Eq, Structural)]
pub enum SearchPlan {
    /// Nothing is searched for.
    Nothing,
    /// Wait `debounce_ms` milliseconds; if the version is still current then
    /// (`is_current`), search, and bring the response to `apply` under the
    /// same version.
    Search { version: u64, debounce_ms: u32 },
}

/// What an optional status stands for.
pub open spec fn opt_status_view(s: Option<SearchStatus>) -> Option<SearchStatusView> {
    match s {
        Some(status) => Some(status@),
        None => None,
    }
}

/// What a `SearchSession` stands for.
pub struct SearchSessionView {
    /// The version of the newest request.
    pub version: u64,
    /// The results that are offered.
    pub results: Seq<SearchResultView>,
    /// Whether the list of results is open.
    pub show_results: bool,
    /// Whether a search is under way.
    pub is_searching: bool,
    /// How the last search that counted ended.
    pub status: Option<SearchStatusView>,
    /// Whether the user picked a work that has a mnemon already. It stays
    /// until the user changes what is searched for.
    pub existing_work_error: bool,
}

/// Whether `query` is too short to be searched for without being forced:
/// it has characters, but fewer than three.
pub open spec fn too_short(query: Seq<char>) -> bool {
    0 < query.len() < SEARCH_MIN_CHARS
}

/// The milliseconds to wait before a search: none for a forced search and
/// for the empty query, else the debounce time.
pub open spec fn debounce_for(query: Seq<char>, forced: bool) -> u32 {
    if forced || query.len() == 0 {
        0
    } else {
        SEARCH_DEBOUNCE_MS
    }
}

impl SearchSessionView {
    /// Whether a request leads to a search.
    pub open spec fn searches(self, query: Seq<char>, work_type: Option<WorkType>, forced: bool) -> bool {
        work_type is Some && (forced || !too_short(query))
    }

    /// The session after a request.
    pub open spec fn requested(self, query: Seq<char>, work_type: Option<WorkType>, forced: bool) -> SearchSessionView {
        let version = next_version(self.version);
        if work_type is None {
            SearchSessionView { version, ..self }
        } else if !forced && too_short(query) {
            SearchSessionView {
                version,
                results: Seq::empty(),
                show_results: false,
                is_searching: false,
                ..self
            }
        } else {
            SearchSessionView { version, is_searching: true, status: None, ..self }
        }
    }

    /// The session after the response to the request of version `version`
    /// has come in.
    pub open spec fn applied(self, version: u64, response: SearchResponseView) -> SearchSessionView {
        if version != self.version {
            self
        } else {
            SearchSessionView {
                results: if response.status.has_results() {
                    response.results
                } else {
                    Seq::empty()
                },
                show_results: true,
                is_searching: false,
                status: Some(response.status),
                ..self
            }
        }
    }

    /// Whether the list of results stays open when the title field loses the
    /// focus: it does while it shows why a search failed.
    pub open spec fn stays_open(self) -> bool {
        match self.status {
            Some(SearchStatusView::NetworkError(_)) => true,
            Some(SearchStatusView::ApiError { .. }) => true,
            Some(SearchStatusView::ProviderNotConfigured) => true,
            _ => false,
        }
    }

    /// What is said above the results, if anything: why the search failed,
    /// or that nothing was found.
    pub open spec fn message(self, title: Seq<char>) -> Option<Seq<char>> {
        match self.status {
            Some(SearchStatusView::ProviderNotConfigured) => Some(
                "Provider not configured. Enter title manually below."@,
            ),
            Some(SearchStatusView::ApiError { status, .. }) => Some(
                if status == 401 {
                    "Invalid API key. Please check your API key in Settings."@
                } else if status == 429 {
                    "Rate limit exceeded. Please try again later."@
                } else {
                    "API error ("@ + decimal(status as nat)
                        + "). Please check your API key in Settings."@
                },
            ),
            Some(SearchStatusView::NetworkError(m)) => Some(
                "Network error: "@ + m + ". You can enter the title manually."@,
            ),
            _ => if self.results.len() == 0 && !self.is_searching {
                if title.len() > 0 {
                    Some("No results found for \""@ + title + "\". You can enter it manually."@)
                } else {
                    Some("Type to search or enter title manually."@)
                }
            } else {
                None
            },
        }
    }
}

/// The state of the search behind the title field.
#[derive(Debug)]
pub struct SearchSession {
    version: u64,
    results: Vec<SearchResult>,
    show_results: bool,
    is_searching: bool,
    status: Option<SearchStatus>,
    existing_work_error: bool,
}

impl View for SearchSession {
    type V = SearchSessionView;

    closed spec fn view(&self) -> SearchSessionView {
        SearchSessionView {
            version: self.version,
            results: self.results.deep_view(),
            show_results: self.show_results,
            is_searching: self.is_searching,
            status: opt_status_view(self.status),
            existing_work_error: self.existing_work_error,
        }
    }
}

impl SearchSession {
    /// A session in which nothing was searched for yet.
    pub fn new() -> (s: Self)
        ensures
            s@ == (SearchSessionView {
                version: 0,
                results: Seq::empty(),
                show_results: false,
                is_searching: false,
                status: None,
                existing_work_error: false,
            }),
    {
        let s = SearchSession {
            version: 0,
            results: Vec::new(),
            show_results: false,
            is_searching: false,
            status: None,
            existing_work_error: false,
        };
        assert(s.results.deep_view() =~= Seq::<SearchResultView>::empty());
        s
    }

    /// The version of the newest request.
    pub fn version(&self) -> (v: u64)
        ensures
            v == self@.version,
    {
        self.version
    }

    /// A copy of the results that are offered.
    pub fn results(&self) -> (r: Vec<SearchResult>)
        ensures
            r.deep_view() == self@.results,
    {
        clone_results(&self.results)
    }

    /// Whether the list of results is open.
    pub fn show_results(&self) -> (b: bool)
        ensures
            b == self@.show_results,
    {
        self.show_results
    }

    /// Whether a search is under way.
    pub fn is_searching(&self) -> (b: bool)
        ensures
            b == self@.is_searching,
    {
        self.is_searching
    }

    /// A copy of how the last search that counted ended.
    pub fn status(&self) -> (s: Option<SearchStatus>)
        ensures
            opt_status_view(s) == self@.status,
    {
        match &self.status {
            Some(status) => Some(status.clone()),
            None => None,
        }
    }

    /// Whether the user picked a work that has a mnemon already.
    pub fn existing_work_error(&self) -> (b: bool)
        ensures
            b == self@.existing_work_error,
    {
        self.existing_work_error
    }

    /// A request to search for `query` among the works of kind `work_type`:
    /// the text has changed, the field was entered, or, with `forced`, Enter
    /// was pressed. Every request overtakes the ones before it. Nothing is
    /// searched for while no kind is chosen. A query of one or two characters
    /// is not searched for unless forced: the results are cleared and their
    /// list is closed instead. Otherwise the caller is to search, after the
    /// debounce time, or at once where the search is forced or the query is
    /// empty.
    pub fn request(&mut self, query: &str, work_type: Option<WorkType>, forced: bool) -> (plan:
        SearchPlan)
        ensures
            final(self)@ == old(self)@.requested(query@, work_type, forced),
            plan == if old(self)@.searches(query@, work_type, forced) {
                SearchPlan::Search {
                    version: final(self)@.version,
                    debounce_ms: debounce_for(query@, forced),
                }
            } else {
                SearchPlan::Nothing
            },
    {
        self.version = bump(self.version);
        if work_type.is_none() {
            return SearchPlan::Nothing;
        }
        let length = char_count(query);
        if !forced && 0 < length && length < SEARCH_MIN_CHARS {
            self.results = Vec::new();
            self.show_results = false;
            self.is_searching = false;
            assert(self.results.deep_view() =~= Seq::<SearchResultView>::empty());
            return SearchPlan::Nothing;
        }
        self.is_searching = true;
        self.status = None;
        let debounce_ms = if forced || length == 0 {
            0
        } else {
            SEARCH_DEBOUNCE_MS
        };
        SearchPlan::Search { version: self.version, debounce_ms }
    }

    /// Whether the request of version `version` is still the newest. The
    /// caller asks this after every wait, and drops a search that is not.
    pub fn is_current(&self, version: u64) -> (b: bool)
        ensures
            b == (version == self@.version),
    {
        version == self.version
    }

    /// Takes in the response to the request of version `version`. A response
    /// to a request that was overtaken is dropped: nothing changes. Otherwise
    /// the search is over, its status is kept, the list of results is opened,
    /// and it holds the results of the response, or nothing where the search
    /// failed. The result says whether the response was taken in.
    pub fn apply(&mut self, version: u64, response: SearchResponse) -> (applied: bool)
        ensures
            applied == (version == old(self)@.version),
            final(self)@ == old(self)@.applied(version, response@),
    {
        if version != self.version {
            return false;
        }
        self.is_searching = false;
        if response.status.has_results() {
            self.results = response.results;
        } else {
            self.results = Vec::new();
            assert(self.results.deep_view() =~= Seq::<SearchResultView>::empty());
        }
        self.status = Some(response.status);
        self.show_results = true;
        true
    }

    /// The user has picked `result` from the list. A work that has a mnemon
    /// already is refused: the form stays as it is and the error is raised.
    /// Otherwise the form is filled from the result and the error is
    /// lowered. Either way the list is closed. The result says whether the
    /// pick was taken.
    pub fn select(&mut self, form: &mut MnemonForm, journal: &AppState, result: &SearchResult) -> (taken:
        bool)
        ensures
            taken == !has_mnemon_for(journal@, result@.provider_ref),
            final(self)@ == (SearchSessionView {
                existing_work_error: !taken,
                show_results: false,
                ..old(self)@
            }),
            final(form)@ == if taken {
                old(form)@.filled_from(result@)
            } else {
                old(form)@
            },
    {
        self.show_results = false;
        if journal.has_mnemon_for_provider_ref(&result.provider_ref) {
            self.existing_work_error = true;
            false
        } else {
            form.fill_from(result);
            self.existing_work_error = false;
            true
        }
    }

    /// The user has typed into the title field: the error is lowered.
    pub fn title_changed(&mut self)
        ensures
            final(self)@ == (SearchSessionView { existing_work_error: false, ..old(self)@ }),
    {
        self.existing_work_error = false;
    }

    /// The user has chosen another kind of work: the error is lowered, the
    /// results and the status are cleared, and the list is closed.
    pub fn work_type_changed(&mut self)
        ensures
            final(self)@ == (SearchSessionView {
                existing_work_error: false,
                results: Seq::empty(),
                show_results: false,
                status: None,
                ..old(self)@
            }),
    {
        self.existing_work_error = false;
        self.results = Vec::new();
        self.show_results = false;
        self.status = None;
        assert(self.results.deep_view() =~= Seq::<SearchResultView>::empty());
    }

    /// The title field lost the focus a moment ago, when the newest request
    /// had the version `version`. If no request has come since, the list of
    /// results is closed, unless it shows why a search failed.
    pub fn blurred(&mut self, version: u64)
        ensures
            final(self)@ == if version == old(self)@.version && !old(self)@.stays_open() {
                SearchSessionView { show_results: false, ..old(self)@ }
            } else {
                old(self)@
            },
    {
        if version != self.version {
            return ;
        }
        let stays_open = match &self.status {
            Some(SearchStatus::NetworkError(_)) => true,
            Some(SearchStatus::ApiError { .. }) => true,
            Some(SearchStatus::ProviderNotConfigured) => true,
            _ => false,
        };
        if !stays_open {
            self.show_results = false;
        }
    }

    /// What is said above the results, if anything: a message of its own
    /// for a provider that is not configured, for a credential that was
    /// refused (401), for too many requests (429), for any other status, and
    /// for a failure of the network; else, where there are no results and no
    /// search is under way, that nothing was found for `title`.
    pub fn message(&self, title: &str) -> (r: Option<String>)
        ensures
            crate::text::opt_text(r) == self@.message(title@),
    {
        match &self.status {
            Some(SearchStatus::ProviderNotConfigured) => Some(
                "Provider not configured. Enter title manually below.".to_owned(),
            ),
            Some(SearchStatus::ApiError { status, message: _ }) => {
                if *status == 401 {
                    Some("Invalid API key. Please check your API key in Settings.".to_owned())
                } else if *status == 429 {
                    Some("Rate limit exceeded. Please try again later.".to_owned())
                } else {
                    let mut r = "API error (".to_owned();
                    push_decimal(&mut r, *status as u64);
                    r.append("). Please check your API key in Settings.");
                    Some(r)
                }
            },
            Some(SearchStatus::NetworkError(m)) => {
                let mut r = "Network error: ".to_owned();
                r.append(m.as_str());
                r.append(". You can enter the title manually.");
                Some(r)
            },
            _ => {
                if self.results.len() == 0 && !self.is_searching {
                    if title.is_empty() {
                        Some("Type to search or enter title manually.".to_owned())
                    } else {
                        let mut r = "No results found for \"".to_owned();
                        r.append(title);
                        r.append("\". You can enter it manually.");
                        Some(r)
                    }
                } else {
                    None
                }
            },
        }
    }
}

/// Search staleness: of two requests, one after the other, only the second
/// counts. The response to the first is dropped whenever it arrives, before
/// the response to the second or after it, and so is a search that wakes
/// from its debounce under the first version.
pub proof fn lemma_overtaken_search_is_dropped(
    s: SearchSessionView,
    first_query: Seq<char>,
    second_query: Seq<char>,
    work_type: Option<WorkType>,
    first_forced: bool,
    second_forced: bool,
    first_response: SearchResponseView,
    second_response: SearchResponseView,
)
    ensures
        ({
            let first = s.requested(first_query, work_type, first_forced);
            let second = first.requested(second_query, work_type, second_forced);
            let shown = second.applied(second.version, second_response);
            &&& first.version != second.version
            &&& second.applied(first.version, first_response) == second
            &&& shown.applied(first.version, first_response) == shown
            &&& shown.status == Some(second_response.status)
            &&& second_response.status.has_results() ==> shown.results == second_response.results
        }),
{
}

} // verus!
