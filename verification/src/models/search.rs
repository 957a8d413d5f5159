//! What a search at a provider gives back.

use vstd::prelude::*;

use crate::models::provider::{ProviderRef, ProviderRefView};
use crate::models::work::WorkType;
use crate::text::{clone_opt_text, opt_text};

verus! {

/// What a `SearchResult` stands for.
pub struct SearchResultView {
    pub provider_ref: ProviderRefView,
    pub title: Seq<char>,
    pub year: Option<u16>,
    pub work_type: WorkType,
    pub cover_url: Option<Seq<char>>,
    pub theme_music_url: Option<Seq<char>>,
}

/// One hit of a search: all that is needed to make a work of it.
#[derive(Debug, PartialEq)]
pub struct SearchResult {
    pub provider_ref: ProviderRef,
    pub title: String,
    pub year: Option<u16>,
    pub work_type: WorkType,
    pub cover_url: Option<String>,
    pub theme_music_url: Option<String>,
}

impl View for SearchResult {
    type V = SearchResultView;

    open spec fn view(&self) -> SearchResultView {
        SearchResultView {
            provider_ref: self.provider_ref@,
            title: self.title@,
            year: self.year,
            work_type: self.work_type,
            cover_url: opt_text(self.cover_url),
            theme_music_url: opt_text(self.theme_music_url),
        }
    }
}

impl DeepView for SearchResult {
    type V = SearchResultView;

    open spec fn deep_view(&self) -> SearchResultView {
        self@
    }
}

impl Clone for SearchResult {
    fn clone(&self) -> (r: Self)
        ensures
            r@ == self@,
    {
        SearchResult {
            provider_ref: self.provider_ref.clone(),
            title: self.title.clone(),
            year: self.year,
            work_type: self.work_type,
            cover_url: clone_opt_text(&self.cover_url),
            theme_music_url: clone_opt_text(&self.theme_music_url),
        }
    }
}

/// A copy of a list of search results.
pub fn clone_results(v: &Vec<SearchResult>) -> (c: Vec<SearchResult>)
    ensures
        c.deep_view() == v.deep_view(),
{
    let mut c: Vec<SearchResult> = Vec::new();
    let mut i: usize = 0;
    while i < v.len()
        invariant
            i <= v.len(),
            c@.len() == i,
            forall|k: int| 0 <= k < i ==> c@[k]@ == v@[k]@,
        decreases v.len() - i,
    {
        c.push(v[i].clone());
        i = i + 1;
    }
    c
}

/// One page of search results, with what is known of the other pages.
#[derive(Debug)]
pub struct SearchResultsPage {
    /// The results on this page.
    pub results: Vec<SearchResult>,
    /// The number of results on all pages together.
    pub total_count: usize,
    /// The number of this page, counted from 0.
    pub page: usize,
    /// The number of pages.
    pub total_pages: usize,
}

impl Clone for SearchResultsPage {
    fn clone(&self) -> (r: Self)
        ensures
            r.results.deep_view() == self.results.deep_view(),
            r.total_count == self.total_count,
            r.page == self.page,
            r.total_pages == self.total_pages,
    {
        SearchResultsPage {
            results: clone_results(&self.results),
            total_count: self.total_count,
            page: self.page,
            total_pages: self.total_pages,
        }
    }
}

impl SearchResultsPage {
    /// A page made of the given parts.
    pub fn new(results: Vec<SearchResult>, total_count: usize, page: usize, total_pages: usize) -> (r:
        Self)
        ensures
            r.results == results,
            r.total_count == total_count,
            r.page == page,
            r.total_pages == total_pages,
    {
        SearchResultsPage { results, total_count, page, total_pages }
    }

    /// Whether a page follows this one.
    pub fn has_next_page(&self) -> (b: bool)
        ensures
            b == (self.page + 1 < self.total_pages),
    {
        self.total_pages > 0 && self.page < self.total_pages - 1
    }

    /// Whether a page comes before this one.
    pub fn has_previous_page(&self) -> (b: bool)
        ensures
            b == (self.page > 0),
    {
        self.page > 0
    }

    /// Whether this page holds no result.
    pub fn is_empty(&self) -> (b: bool)
        ensures
            b == (self.results@.len() == 0),
    {
        self.results.len() == 0
    }
}

} // verus!
