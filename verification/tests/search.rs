use mnemon::app_state::AppState;
use mnemon::data::fixtures::{
    get_fixture_search_results, get_game_fixtures, get_movie_fixtures, get_tv_fixtures,
};
use mnemon::data::{search_works, SearchResponse, SearchService, SearchStatus};
use mnemon::forms::MnemonForm;
use mnemon::models::{Mnemon, ProviderRef, SearchResult, SearchResultsPage, Work, WorkType};
use mnemon::search_session::{SearchPlan, SearchSession};

fn result(id: &str, title: &str) -> SearchResult {
    SearchResult {
        provider_ref: ProviderRef::new("tmdb", id),
        title: title.to_string(),
        year: Some(2001),
        work_type: WorkType::Movie,
        cover_url: Some("cover".to_string()),
        theme_music_url: None,
    }
}

fn success(titles: &[&str]) -> SearchResponse {
    SearchResponse {
        results: titles.iter().map(|t| result("1", t)).collect(),
        status: SearchStatus::Success,
        total_count: Some(titles.len()),
    }
}

fn titles(session: &SearchSession) -> Vec<String> {
    session.results().into_iter().map(|r| r.title).collect()
}

#[test]
fn fixtures_are_films_series_and_games() {
    let all = get_fixture_search_results();
    assert_eq!(all.len(), 39);
    assert_eq!(get_movie_fixtures().len(), 15);
    assert_eq!(get_tv_fixtures().len(), 12);
    let games = get_game_fixtures();
    assert_eq!(games.len(), 12);
    assert!(all[..15].iter().all(|r| r.work_type == WorkType::Movie));
    assert!(all[15..27].iter().all(|r| r.work_type == WorkType::TvAnime));
    assert_eq!(&all[27..], &games[..]);
    assert!(games.iter().all(|r| r.work_type == WorkType::Game));
    assert!(games.iter().all(|r| r.provider_ref.provider_source == "igdb"));
    assert!(all.iter().all(|r| r.theme_music_url.is_none() && r.cover_url.is_some() && r.year.is_some()));
    assert_eq!(all[0].provider_ref, ProviderRef::new("tmdb", "129"));
    assert_eq!(all[0].title, "Spirited Away");
    assert_eq!(all[0].year, Some(2001));
    assert_eq!(
        all[0].cover_url,
        Some("https://image.tmdb.org/t/p/w500/39wmItIWsg5sZMyRUHLkWBcuVCM.jpg".to_string())
    );
    assert_eq!(all[38].title, "Stardew Valley");
    assert_eq!(all[38].provider_ref, ProviderRef::new("igdb", "25076"));
}

#[test]
fn search_works_matches_titles_without_regard_to_case() {
    let page = search_works("SPIRIT", WorkType::Movie, 0);
    assert_eq!(page.total_count, 1);
    assert_eq!(page.total_pages, 1);
    assert_eq!(page.page, 0);
    assert_eq!(page.results.len(), 1);
    assert_eq!(page.results[0].title, "Spirited Away");
    assert!(!page.is_empty());
    assert!(!page.has_next_page());
    assert!(!page.has_previous_page());

    let none = search_works("spirit", WorkType::Game, 0);
    assert_eq!(none.total_count, 0);
    assert_eq!(none.total_pages, 0);
    assert!(none.is_empty());

    let the: Vec<String> =
        search_works("the ", WorkType::Movie, 0).results.into_iter().map(|r| r.title).collect();
    assert_eq!(
        the,
        vec![
            "The Grand Budapest Hotel",
            "The Shawshank Redemption",
            "The Godfather",
            "The Dark Knight",
            "The Green Mile"
        ]
    );
}

#[test]
fn search_works_pages_by_ten() {
    let first = search_works("", WorkType::Movie, 0);
    assert_eq!(first.total_count, 15);
    assert_eq!(first.total_pages, 2);
    assert_eq!(first.results.len(), 10);
    assert_eq!(first.results[0].title, "Spirited Away");
    assert_eq!(first.results[9].title, "The Dark Knight");
    assert!(first.has_next_page());
    let second = search_works("", WorkType::Movie, 1);
    assert_eq!(second.results.len(), 5);
    assert_eq!(second.results[0].title, "The Green Mile");
    assert_eq!(second.results[4].title, "Gladiator");
    assert!(!second.has_next_page());
    assert!(second.has_previous_page());
    let beyond = search_works("", WorkType::Movie, 2);
    assert!(beyond.is_empty());
    assert_eq!(beyond.total_count, 15);
    assert_eq!(beyond.page, 2);
    let far = search_works("", WorkType::Movie, usize::MAX);
    assert!(far.is_empty());
    assert_eq!(far.total_pages, 2);
    let games = search_works("", WorkType::Game, 1);
    assert_eq!(games.total_pages, 2);
    assert_eq!(games.results.len(), 2);
}

#[test]
fn pages_know_their_neighbours() {
    let page = SearchResultsPage::new(vec![], 25, 1, 3);
    assert!(page.has_next_page());
    assert!(page.has_previous_page());
    assert!(page.is_empty());
    assert!(!SearchResultsPage::new(vec![], 25, 2, 3).has_next_page());
    assert!(!SearchResultsPage::new(vec![], 0, 0, 0).has_next_page());
    assert!(!SearchResultsPage::new(vec![], 0, usize::MAX, usize::MAX).has_next_page());
    assert!(!SearchResultsPage::new(vec![], 0, 0, 0).has_previous_page());
    let copy = SearchResultsPage::new(vec![result("1", "a")], 1, 0, 1).clone();
    assert_eq!(copy.results, vec![result("1", "a")]);
    assert_eq!((copy.total_count, copy.page, copy.total_pages), (1, 0, 1));
}

#[test]
fn fixture_search_is_marked_as_such() {
    let response = SearchService::search_fixtures("hades", WorkType::Game, 0);
    assert_eq!(response.status, SearchStatus::UsingFixtures);
    assert_eq!(response.total_count, Some(1));
    assert_eq!(response.results.len(), 1);
    assert_eq!(response.results[0].title, "Hades");
}

#[test]
fn only_the_newest_search_is_applied() {
    let mut session = SearchSession::new();
    let first = session.request("A", Some(WorkType::Movie), true);
    let second = session.request("AB", Some(WorkType::Movie), true);
    let (v1, v2) = match (first, second) {
        (
            SearchPlan::Search { version: v1, debounce_ms: d1 },
            SearchPlan::Search { version: v2, debounce_ms: d2 },
        ) => {
            assert_eq!(d1, 0);
            assert_eq!(d2, 0);
            (v1, v2)
        }
        other => panic!("unexpected {:?}", other),
    };
    assert_ne!(v1, v2);
    assert!(!session.is_current(v1));
    assert!(session.is_current(v2));
    assert!(session.is_searching());

    assert!(!session.apply(v1, success(&["from A"])));
    assert!(titles(&session).is_empty());
    assert!(session.is_searching());
    assert!(!session.show_results());

    assert!(session.apply(v2, success(&["from AB"])));
    assert_eq!(titles(&session), vec!["from AB"]);
    assert!(!session.is_searching());
    assert!(session.show_results());
    assert_eq!(session.status(), Some(SearchStatus::Success));

    assert!(!session.apply(v1, success(&["late A"])));
    assert_eq!(titles(&session), vec!["from AB"]);
}

#[test]
fn typing_on_overtakes_a_search_that_waits_out_its_debounce() {
    let mut session = SearchSession::new();
    let waiting = match session.request("Spir", Some(WorkType::Movie), false) {
        SearchPlan::Search { version, debounce_ms: 300 } => version,
        other => panic!("unexpected {:?}", other),
    };
    let newest = match session.request("Spiri", Some(WorkType::Movie), false) {
        SearchPlan::Search { version, debounce_ms: 300 } => version,
        other => panic!("unexpected {:?}", other),
    };
    assert!(!session.is_current(waiting));
    assert!(session.is_current(newest));
    assert!(session.apply(newest, success(&["Spirited Away"])));
    assert!(!session.apply(waiting, success(&["Spiral"])));
    assert_eq!(titles(&session), vec!["Spirited Away"]);
}

#[test]
fn short_queries_are_not_searched_unless_forced() {
    let mut session = SearchSession::new();
    let plan = session.request("Spirited", Some(WorkType::Movie), false);
    let version = match plan {
        SearchPlan::Search { version, debounce_ms: 300 } => version,
        other => panic!("unexpected {:?}", other),
    };
    assert!(session.apply(version, success(&["Spirited Away"])));
    assert!(session.show_results());

    assert_eq!(session.request("Sp", Some(WorkType::Movie), false), SearchPlan::Nothing);
    assert!(titles(&session).is_empty());
    assert!(!session.show_results());
    assert!(!session.is_searching());
    assert!(!session.is_current(version));

    match session.request("Sp", Some(WorkType::Movie), true) {
        SearchPlan::Search { version, debounce_ms } => {
            assert_eq!(debounce_ms, 0);
            assert_eq!(version, session.version());
        }
        other => panic!("unexpected {:?}", other),
    }
    match session.request("", Some(WorkType::Movie), false) {
        SearchPlan::Search { debounce_ms, .. } => assert_eq!(debounce_ms, 0),
        other => panic!("unexpected {:?}", other),
    }
    match session.request("éèà", Some(WorkType::Movie), false) {
        SearchPlan::Search { debounce_ms, .. } => assert_eq!(debounce_ms, 300),
        other => panic!("unexpected {:?}", other),
    }
    assert_eq!(session.request("éè", Some(WorkType::Movie), false), SearchPlan::Nothing);
}

#[test]
fn nothing_is_searched_without_a_work_type() {
    let mut session = SearchSession::new();
    let before = session.version();
    assert_eq!(session.request("Spirited", None, true), SearchPlan::Nothing);
    assert_ne!(session.version(), before);
    assert!(!session.is_searching());
}

#[test]
fn failed_searches_clear_the_results_and_say_why() {
    let cases: Vec<(SearchStatus, &str)> = vec![
        (
            SearchStatus::ProviderNotConfigured,
            "Provider not configured. Enter title manually below.",
        ),
        (
            SearchStatus::ApiError { status: 401, message: "unauthorized".to_string() },
            "Invalid API key. Please check your API key in Settings.",
        ),
        (
            SearchStatus::ApiError { status: 429, message: "too many".to_string() },
            "Rate limit exceeded. Please try again later.",
        ),
        (
            SearchStatus::ApiError { status: 503, message: "down".to_string() },
            "API error (503). Please check your API key in Settings.",
        ),
        (
            SearchStatus::NetworkError("timed out".to_string()),
            "Network error: timed out. You can enter the title manually.",
        ),
    ];
    for (status, message) in cases {
        let mut session = SearchSession::new();
        let version = match session.request("query", Some(WorkType::Movie), true) {
            SearchPlan::Search { version, .. } => version,
            other => panic!("unexpected {:?}", other),
        };
        let response =
            SearchResponse { results: vec![result("1", "stray")], status: status.clone(), total_count: None };
        assert!(session.apply(version, response));
        assert!(titles(&session).is_empty());
        assert!(session.show_results());
        assert_eq!(session.status(), Some(status));
        assert_eq!(session.message("query"), Some(message.to_string()));
        session.blurred(version);
        assert!(session.show_results());
    }
}

#[test]
fn messages_for_empty_results() {
    let mut session = SearchSession::new();
    assert_eq!(session.message(""), Some("Type to search or enter title manually.".to_string()));
    assert_eq!(
        session.message("Akira"),
        Some("No results found for \"Akira\". You can enter it manually.".to_string())
    );
    let version = match session.request("Akira", Some(WorkType::Movie), false) {
        SearchPlan::Search { version, .. } => version,
        other => panic!("unexpected {:?}", other),
    };
    assert_eq!(session.message("Akira"), None);
    session.apply(version, success(&["Akira"]));
    assert_eq!(session.message("Akira"), None);
    let fixtures = SearchResponse { results: vec![], status: SearchStatus::UsingFixtures, total_count: Some(0) };
    let version = match session.request("Akira", Some(WorkType::Movie), true) {
        SearchPlan::Search { version, .. } => version,
        other => panic!("unexpected {:?}", other),
    };
    session.apply(version, fixtures);
    assert_eq!(
        session.message("Akira"),
        Some("No results found for \"Akira\". You can enter it manually.".to_string())
    );
}

#[test]
fn blur_closes_the_list_unless_overtaken() {
    let mut session = SearchSession::new();
    let version = match session.request("Akira", Some(WorkType::Movie), true) {
        SearchPlan::Search { version, .. } => version,
        other => panic!("unexpected {:?}", other),
    };
    session.apply(version, success(&["Akira"]));
    session.blurred(version.wrapping_sub(1));
    assert!(session.show_results());
    session.blurred(version);
    assert!(!session.show_results());
    assert_eq!(titles(&session), vec!["Akira"]);
}

fn journal_with_spirited_away() -> AppState {
    let mut state = AppState::new();
    let work = Work::from_provider(
        WorkType::Movie,
        "Spirited Away".to_string(),
        Some(2001),
        None,
        None,
        ProviderRef::new("tmdb", "129"),
    );
    let id = state.add_work(work);
    state.add_mnemon(Mnemon::new(id, None, vec![], vec![]));
    state
}

#[test]
fn picking_a_remembered_work_is_refused() {
    let state = journal_with_spirited_away();
    let mut session = SearchSession::new();
    let mut form = MnemonForm::default();
    form.set_work_type(WorkType::Movie);
    form.set_title("spir".to_string());
    let version = match session.request("spir", Some(WorkType::Movie), false) {
        SearchPlan::Search { version, .. } => version,
        other => panic!("unexpected {:?}", other),
    };
    session.apply(version, success(&["Spirited Away"]));
    let before = form.clone();

    assert!(!session.select(&mut form, &state, &result("129", "Spirited Away")));
    assert!(session.existing_work_error());
    assert!(!session.show_results());
    assert_eq!(form, before);

    let version = match session.request("spiri", Some(WorkType::Movie), false) {
        SearchPlan::Search { version, .. } => version,
        other => panic!("unexpected {:?}", other),
    };
    assert!(session.existing_work_error());
    session.apply(version, success(&["Spirited Away"]));
    assert!(session.existing_work_error());
    session.title_changed();
    assert!(!session.existing_work_error());

    assert!(!session.select(&mut form, &state, &result("129", "Spirited Away")));
    assert!(session.select(&mut form, &state, &result("130", "Another")));
    assert!(!session.existing_work_error());
    assert!(!session.show_results());
    assert_eq!(form.title, "Another");
    assert_eq!(form.year, "2001");
    assert_eq!(form.provider_ref, Some(ProviderRef::new("tmdb", "130")));
    assert_eq!(form.cover_url, Some("cover".to_string()));
    assert_eq!(form.theme_music_url, None);
    assert_eq!(form.work_type, Some(WorkType::Movie));
}

#[test]
fn changing_the_work_type_clears_the_search() {
    let state = journal_with_spirited_away();
    let mut session = SearchSession::new();
    let mut form = MnemonForm::default();
    let version = match session.request("spir", Some(WorkType::Movie), true) {
        SearchPlan::Search { version, .. } => version,
        other => panic!("unexpected {:?}", other),
    };
    session.apply(version, success(&["Spirited Away"]));
    session.select(&mut form, &state, &result("129", "Spirited Away"));
    assert!(session.existing_work_error());
    session.work_type_changed();
    assert!(!session.existing_work_error());
    assert!(titles(&session).is_empty());
    assert!(!session.show_results());
    assert_eq!(session.status(), None);
    assert_eq!(session.version(), version);
}

#[test]
fn paginate_cuts_pages_of_ten() {
    let found: Vec<SearchResult> = (0..23).map(|i| result(&i.to_string(), "t")).collect();
    let ids = |page: &SearchResultsPage| -> Vec<String> {
        page.results.iter().map(|r| r.provider_ref.provider_id.clone()).collect()
    };
    let first = mnemon::data::paginate(found.clone(), 0);
    assert_eq!((first.total_count, first.total_pages, first.page), (23, 3, 0));
    assert_eq!(ids(&first), (0..10).map(|i| i.to_string()).collect::<Vec<_>>());
    let third = mnemon::data::paginate(found.clone(), 2);
    assert_eq!(ids(&third), vec!["20", "21", "22"]);
    assert!(mnemon::data::paginate(found.clone(), 3).is_empty());
    let exact = mnemon::data::paginate(found[..20].to_vec(), 1);
    assert_eq!(exact.total_pages, 2);
    assert_eq!(exact.results.len(), 10);
    let empty = mnemon::data::paginate(vec![], 0);
    assert_eq!((empty.total_count, empty.total_pages), (0, 0));
    assert!(empty.is_empty());
}
