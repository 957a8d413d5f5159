use mnemon::data::{SearchResponse, SearchService, SearchStatus, SearchStep};
use mnemon::models::{ProviderRef, SearchResult, WorkType};
use mnemon::providers::rawg::{RawgClient, RawgGame};
use mnemon::providers::tmdb::{TmdbClient, TmdbSearchResult};
use mnemon::providers::{ProviderError, ProviderReply, ProviderStatus, SearchProvider, SearchRequest};

#[test]
fn rawg_test_year_extraction() {
    let game = RawgGame {
        id: 123,
        name: "Test Game".to_string(),
        released: Some("2021-03-15".to_string()),
        background_image: Some("https://example.com/image.jpg".to_string()),
    };

    let search_result = game.to_search_result();
    assert_eq!(search_result.year, Some(2021));
    assert_eq!(search_result.title, "Test Game");
    assert_eq!(search_result.cover_url, Some("https://example.com/image.jpg".to_string()));
}

#[test]
fn test_no_release_date() {
    let game = RawgGame {
        id: 456,
        name: "Unknown Date Game".to_string(),
        released: None,
        background_image: None,
    };

    let search_result = game.to_search_result();
    assert_eq!(search_result.year, None);
    assert_eq!(search_result.cover_url, None);
}

#[test]
fn tmdb_test_year_extraction() {
    let result = TmdbSearchResult {
        id: 123,
        title: Some("Test Movie".to_string()),
        release_date: Some("2024-03-15".to_string()),
        name: None,
        first_air_date: None,
        poster_path: Some("/abc123.jpg".to_string()),
        overview: None,
    };

    let search_result = result.to_search_result(WorkType::Movie);
    assert_eq!(search_result.year, Some(2024));
    assert_eq!(search_result.title, "Test Movie");
    assert_eq!(
        search_result.cover_url,
        Some("https://image.tmdb.org/t/p/w500/abc123.jpg".to_string())
    );
}

#[test]
fn rawg_result_names_the_game_at_its_provider() {
    let game = RawgGame {
        id: 3498,
        name: "Grand Theft Auto V".to_string(),
        released: Some("2013-09-17".to_string()),
        background_image: None,
    };
    let r = game.to_search_result();
    assert_eq!(r.provider_ref, ProviderRef::new("rawg", "3498"));
    assert_eq!(r.work_type, WorkType::Game);
    assert_eq!(r.theme_music_url, None);
    let zero = RawgGame { id: 0, name: String::new(), released: None, background_image: None };
    assert_eq!(zero.to_search_result().provider_ref.provider_id, "0");
    let big = RawgGame { id: u64::MAX, name: String::new(), released: None, background_image: None };
    assert_eq!(big.to_search_result().provider_ref.provider_id, "18446744073709551615");
}

#[test]
fn tmdb_series_use_name_and_first_air_date() {
    let record = TmdbSearchResult {
        id: 1396,
        title: Some("wrong".to_string()),
        release_date: Some("1999-01-01".to_string()),
        name: Some("Breaking Bad".to_string()),
        first_air_date: Some("2008-01-20".to_string()),
        poster_path: None,
        overview: Some("chemistry".to_string()),
    };
    let r = record.to_search_result(WorkType::TvAnime);
    assert_eq!(r.title, "Breaking Bad");
    assert_eq!(r.year, Some(2008));
    assert_eq!(r.cover_url, None);
    assert_eq!(r.provider_ref, ProviderRef::new("tmdb", "1396"));
    let film = record.to_search_result(WorkType::Movie);
    assert_eq!(film.title, "wrong");
    assert_eq!(film.year, Some(1999));
}

#[test]
fn tmdb_missing_title_is_empty() {
    let record = TmdbSearchResult {
        id: 5,
        title: None,
        release_date: None,
        name: None,
        first_air_date: None,
        poster_path: None,
        overview: None,
    };
    let r = record.to_search_result(WorkType::Movie);
    assert_eq!(r.title, "");
    assert_eq!(r.year, None);
}

fn year_of(date: &str) -> Option<u16> {
    let game = RawgGame {
        id: 1,
        name: String::new(),
        released: Some(date.to_string()),
        background_image: None,
    };
    game.to_search_result().year
}

#[test]
fn year_is_what_stands_before_the_first_hyphen() {
    assert_eq!(year_of("2021-03-15"), Some(2021));
    assert_eq!(year_of("1999"), Some(1999));
    assert_eq!(year_of("0-1-2"), Some(0));
    assert_eq!(year_of("0042-01-01"), Some(42));
    assert_eq!(year_of("+2001-01-01"), Some(2001));
    assert_eq!(year_of("65535-01-01"), Some(65535));
    assert_eq!(year_of("65536-01-01"), None);
    assert_eq!(year_of("99999999999999999999-01-01"), None);
    assert_eq!(year_of(""), None);
    assert_eq!(year_of("-2021"), None);
    assert_eq!(year_of("+"), None);
    assert_eq!(year_of("+-1"), None);
    assert_eq!(year_of("20a1-01-01"), None);
    assert_eq!(year_of(" 2021-01-01"), None);
    assert_eq!(year_of("２０２１-01-01"), None);
    for date in ["2021-03-15", "", "-1", "+7", "65536", "007", "1e3", "12 "] {
        let expected = date.split('-').next().and_then(|y| y.parse::<u16>().ok());
        assert_eq!(year_of(date), expected);
    }
}

#[test]
fn tmdb_client_without_token_is_not_configured() {
    let client = TmdbClient::new(None);
    assert!(!client.is_configured());
    assert_eq!(client.status(), ProviderStatus::NotConfigured);
    assert_eq!(
        client.search("spirited", WorkType::Movie, 0),
        Err(ProviderError::AuthError("TMDB API token not configured".to_string()))
    );
    assert_eq!(SearchProvider::name(&client), "TMDB");
    assert_eq!(SearchProvider::status(&client), ProviderStatus::NotConfigured);
}

#[test]
fn tmdb_request_holds_the_encoded_query_and_the_token() {
    let client = TmdbClient::new(Some("tok".to_string()));
    assert!(client.is_configured());
    assert_eq!(client.status(), ProviderStatus::Available);
    let request = client.search("Spirited Away & more/é", WorkType::Movie, 0).unwrap();
    assert_eq!(
        request,
        SearchRequest {
            url: "https://api.themoviedb.org/3/search/movie?query=Spirited%20Away%20%26%20more%2F%C3%A9&page=1&include_adult=false&language=en-US".to_string(),
            bearer_token: Some("tok".to_string()),
        }
    );
    let tv = client.search_tv("a-b_c.d~e", 41).unwrap();
    assert_eq!(
        tv.url,
        "https://api.themoviedb.org/3/search/tv?query=a-b_c.d~e&page=42&include_adult=false&language=en-US"
    );
    assert_eq!(client.search_movies("x", 2).unwrap().url, client.search("x", WorkType::Movie, 2).unwrap().url);
    assert_eq!(
        client.search("zelda", WorkType::Game, 0),
        Err(ProviderError::Unavailable("TMDB does not support games".to_string()))
    );
}

#[test]
fn rawg_request_and_blank_query() {
    let none = RawgClient::new(None);
    assert!(!none.is_configured());
    assert_eq!(none.status(), ProviderStatus::NotConfigured);
    assert_eq!(
        none.search("zelda", 0),
        Err(ProviderError::AuthError("RAWG API key not configured".to_string()))
    );
    let client = RawgClient::new(Some("KEY".to_string()));
    assert_eq!(client.status(), ProviderStatus::Available);
    assert_eq!(SearchProvider::name(&client), "RAWG");
    assert_eq!(client.search("", 0), Ok(None));
    assert_eq!(client.search("  \t\n", 3), Ok(None));
    let request = client.search("hollow knight", 1).unwrap().unwrap();
    assert_eq!(
        request,
        SearchRequest {
            url: "https://api.rawg.io/api/games?key=KEY&search=hollow%20knight&page=2&page_size=20"
                .to_string(),
            bearer_token: None,
        }
    );
}

#[test]
fn replies_become_results_or_errors() {
    let records = vec![
        RawgGame { id: 1, name: "A".to_string(), released: Some("2001-01-01".to_string()), background_image: None },
        RawgGame { id: 2, name: "B".to_string(), released: None, background_image: Some("img".to_string()) },
    ];
    let results = RawgClient::read_reply(ProviderReply::Records(records)).unwrap();
    assert_eq!(results.len(), 2);
    assert_eq!(results[0].title, "A");
    assert_eq!(results[0].year, Some(2001));
    assert_eq!(results[1].provider_ref, ProviderRef::new("rawg", "2"));
    assert_eq!(results[1].cover_url, Some("img".to_string()));

    assert_eq!(
        RawgClient::read_reply(ProviderReply::Unreachable("offline".to_string())),
        Err(ProviderError::NetworkError("offline".to_string()))
    );
    assert_eq!(
        RawgClient::read_reply(ProviderReply::Refused { status: 429, body: "slow down".to_string() }),
        Err(ProviderError::ApiError { status: 429, message: "slow down".to_string() })
    );
    assert_eq!(
        TmdbClient::read_reply(WorkType::Movie, ProviderReply::Malformed("eof".to_string())),
        Err(ProviderError::ParseError("eof".to_string()))
    );
    let films = TmdbClient::read_reply(
        WorkType::Movie,
        ProviderReply::Records(vec![TmdbSearchResult {
            id: 129,
            title: Some("Spirited Away".to_string()),
            release_date: Some("2001-07-20".to_string()),
            name: None,
            first_air_date: None,
            poster_path: Some("/p.jpg".to_string()),
            overview: None,
        }]),
    )
    .unwrap();
    assert_eq!(films.len(), 1);
    assert_eq!(films[0].provider_ref, ProviderRef::new("tmdb", "129"));
    assert_eq!(films[0].cover_url, Some("https://image.tmdb.org/t/p/w500/p.jpg".to_string()));
}

#[test]
fn provider_errors_in_words() {
    assert_eq!(ProviderError::NetworkError("down".to_string()).message(), "Network error: down");
    assert_eq!(
        ProviderError::ApiError { status: 401, message: "no".to_string() }.message(),
        "API error (401): no"
    );
    assert_eq!(ProviderError::ParseError("eof".to_string()).message(), "Parse error: eof");
    assert_eq!(ProviderError::AuthError("key".to_string()).message(), "Auth error: key");
    assert_eq!(
        ProviderError::Unavailable("later".to_string()).message(),
        "Provider unavailable: later"
    );
}

fn result(title: &str) -> SearchResult {
    SearchResult {
        provider_ref: ProviderRef::new("tmdb", "1"),
        title: title.to_string(),
        year: None,
        work_type: WorkType::Movie,
        cover_url: None,
        theme_music_url: None,
    }
}

#[test]
fn service_classifies_what_the_provider_gave() {
    let ok = SearchService::conclude(Ok(vec![result("a"), result("b")]));
    assert_eq!(ok.status, SearchStatus::Success);
    assert_eq!(ok.results.len(), 2);
    assert_eq!(ok.total_count, Some(2));

    let cases = vec![
        (ProviderError::AuthError("x".to_string()), SearchStatus::ProviderNotConfigured),
        (ProviderError::NetworkError("x".to_string()), SearchStatus::NetworkError("x".to_string())),
        (
            ProviderError::ApiError { status: 401, message: "m".to_string() },
            SearchStatus::ApiError { status: 401, message: "m".to_string() },
        ),
        (
            ProviderError::ParseError("x".to_string()),
            SearchStatus::NetworkError("Parse error: x".to_string()),
        ),
        (
            ProviderError::Unavailable("x".to_string()),
            SearchStatus::NetworkError("Provider unavailable: x".to_string()),
        ),
    ];
    for (error, status) in cases {
        let response = SearchService::conclude(Err(error));
        assert_eq!(response, SearchResponse { results: vec![], status, total_count: None });
    }
}

#[test]
fn service_asks_the_provider_for_the_kind_of_work() {
    let service = SearchService::new(Some("tok".to_string()), None);
    assert!(service.is_configured(WorkType::Movie));
    assert!(service.is_configured(WorkType::TvAnime));
    assert!(!service.is_configured(WorkType::Game));
    match service.search("akira", WorkType::Movie, 0) {
        SearchStep::Ask(request) => {
            assert_eq!(
                request.url,
                "https://api.themoviedb.org/3/search/movie?query=akira&page=1&include_adult=false&language=en-US"
            );
            assert_eq!(request.bearer_token, Some("tok".to_string()));
        }
        other => panic!("unexpected {:?}", other),
    }
    assert_eq!(
        service.search("zelda", WorkType::Game, 0),
        SearchStep::Done(SearchResponse {
            results: vec![],
            status: SearchStatus::ProviderNotConfigured,
            total_count: None,
        })
    );
    let games = SearchService::new(None, Some("K".to_string()));
    assert_eq!(
        games.search("   ", WorkType::Game, 0),
        SearchStep::Done(SearchResponse {
            results: vec![],
            status: SearchStatus::Success,
            total_count: Some(0),
        })
    );
    match games.search("zelda", WorkType::Game, 0) {
        SearchStep::Ask(request) => assert_eq!(request.bearer_token, None),
        other => panic!("unexpected {:?}", other),
    }
    assert_eq!(
        games.search("akira", WorkType::Movie, 0),
        SearchStep::Done(SearchResponse {
            results: vec![],
            status: SearchStatus::ProviderNotConfigured,
            total_count: None,
        })
    );
}
