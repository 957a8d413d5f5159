use mnemon::add_flow::{save_edit, save_form, FormError};
use mnemon::app_state::AppState;
use mnemon::forms::{join_lines, year_to_text, MnemonForm};
use mnemon::models::{Mnemon, ProviderRef, SearchResult, Work, WorkOrigin, WorkType};

fn form(work_type: Option<WorkType>, title: &str) -> MnemonForm {
    let mut f = MnemonForm::default();
    f.work_type = work_type;
    f.title = title.to_string();
    f
}

fn strings(v: &[&str]) -> Vec<String> {
    v.iter().map(|s| s.to_string()).collect()
}

#[test]
fn default_form_is_empty() {
    let f = MnemonForm::default();
    assert_eq!(f.work_type, None);
    assert_eq!(f.title, "");
    assert_eq!(f.year, "");
    assert_eq!(f.provider_ref, None);
    assert_eq!(f.finished_date, "");
    assert!(f.feelings.is_empty());
    assert_eq!(f.notes, "");
    assert!(!f.is_step1_valid());
}

#[test]
fn step_one_needs_a_type_and_a_title() {
    assert!(form(Some(WorkType::Movie), "Akira").is_step1_valid());
    assert!(form(Some(WorkType::Movie), "  A ").is_step1_valid());
    assert!(!form(Some(WorkType::Movie), "").is_step1_valid());
    assert!(!form(Some(WorkType::Movie), " \t\n\u{a0}\u{3000}").is_step1_valid());
    assert!(!form(None, "Akira").is_step1_valid());
}

#[test]
fn notes_are_the_trimmed_lines_that_are_not_empty() {
    let mut f = MnemonForm::default();
    f.notes = "  first note \n\n\tsecond\r\n   \nthird".to_string();
    assert_eq!(f.parse_notes(), strings(&["first note", "second", "third"]));
    f.notes = String::new();
    assert!(f.parse_notes().is_empty());
    f.notes = "\n\n \n".to_string();
    assert!(f.parse_notes().is_empty());
    f.notes = "one line".to_string();
    assert_eq!(f.parse_notes(), strings(&["one line"]));
    f.notes = "a\nb\n".to_string();
    assert_eq!(f.parse_notes(), strings(&["a", "b"]));
    for text in ["x\ny", " a \r\n b ", "\n", "", "a\n\nb\n", "é \n ü"] {
        f.notes = text.to_string();
        let expected: Vec<String> =
            text.lines().map(|s| s.trim().to_string()).filter(|s| !s.is_empty()).collect();
        assert_eq!(f.parse_notes(), expected);
    }
}

#[test]
fn finished_date_is_none_when_nothing_was_typed() {
    let mut f = MnemonForm::default();
    assert_eq!(f.parse_finished_date(), None);
    f.finished_date = "2024-05-01".to_string();
    assert_eq!(f.parse_finished_date(), Some("2024-05-01".to_string()));
    f.finished_date = " ".to_string();
    assert_eq!(f.parse_finished_date(), Some(" ".to_string()));
}

#[test]
fn year_is_trimmed_and_parsed() {
    let mut f = MnemonForm::default();
    for (text, expected) in [
        ("2001", Some(2001u16)),
        (" 1999 ", Some(1999)),
        ("", None),
        ("   ", None),
        ("abcd", None),
        ("70000", None),
        ("65535", Some(65535)),
        ("+12", Some(12)),
        ("-12", None),
        ("12 34", None),
    ] {
        f.year = text.to_string();
        assert_eq!(f.parse_year(), expected);
        assert_eq!(f.parse_year(), text.trim().parse::<u16>().ok());
    }
}

#[test]
fn year_input_takes_digits_only() {
    let mut f = MnemonForm::default();
    assert!(f.set_year("1987".to_string()));
    assert_eq!(f.year, "1987");
    assert!(!f.set_year("19x7".to_string()));
    assert_eq!(f.year, "1987");
    assert!(!f.set_year("١٩٨٧".to_string()));
    assert!(!f.set_year(" 1".to_string()));
    assert!(f.set_year(String::new()));
    assert_eq!(f.year, "");
}

#[test]
fn typing_drops_what_came_from_the_provider() {
    let mut f = MnemonForm::default();
    f.set_work_type(WorkType::Movie);
    f.fill_from(&SearchResult {
        provider_ref: ProviderRef::new("tmdb", "129"),
        title: "Spirited Away".to_string(),
        year: Some(2001),
        work_type: WorkType::Movie,
        cover_url: Some("c".to_string()),
        theme_music_url: Some("m".to_string()),
    });
    assert_eq!(f.title, "Spirited Away");
    assert_eq!(f.year, "2001");
    assert_eq!(f.provider_ref, Some(ProviderRef::new("tmdb", "129")));
    assert_eq!(f.cover_url, Some("c".to_string()));
    assert_eq!(f.theme_music_url, Some("m".to_string()));

    let mut typed = f.clone();
    typed.set_title("Spirited Awa".to_string());
    assert_eq!(typed.title, "Spirited Awa");
    assert_eq!(typed.year, "");
    assert_eq!(typed.provider_ref, None);
    assert_eq!(typed.cover_url, None);
    assert_eq!(typed.theme_music_url, None);
    assert_eq!(typed.work_type, Some(WorkType::Movie));

    f.set_work_type(WorkType::TvAnime);
    assert_eq!(f.work_type, Some(WorkType::TvAnime));
    assert_eq!(f.title, "Spirited Away");
    assert_eq!(f.year, "2001");
    assert_eq!(f.provider_ref, None);
    assert_eq!(f.cover_url, None);
    assert_eq!(f.theme_music_url, None);

    let mut g = MnemonForm::default();
    g.fill_from(&SearchResult {
        provider_ref: ProviderRef::new("rawg", "1"),
        title: "No year".to_string(),
        year: None,
        work_type: WorkType::Game,
        cover_url: None,
        theme_music_url: None,
    });
    assert_eq!(g.year, "");
}

#[test]
fn feelings_toggle_up_to_five() {
    let mut f = MnemonForm::default();
    for name in ["Cozy", "Epic", "Chill", "Somber", "Uplifting"] {
        assert!(f.can_add_feeling());
        f.toggle_feeling(name);
    }
    assert_eq!(f.feelings, strings(&["Cozy", "Epic", "Chill", "Somber", "Uplifting"]));
    assert!(!f.can_add_feeling());
    f.toggle_feeling("Nostalgic");
    assert_eq!(f.feelings.len(), 5);
    assert!(!f.has_feeling("Nostalgic"));
    assert!(f.has_feeling("Chill"));
    f.toggle_feeling("Chill");
    assert_eq!(f.feelings, strings(&["Cozy", "Epic", "Somber", "Uplifting"]));
    f.toggle_feeling("Nostalgic");
    assert_eq!(f.feelings, strings(&["Cozy", "Epic", "Somber", "Uplifting", "Nostalgic"]));
    f.toggle_feeling("Cozy");
    f.toggle_feeling("Nostalgic");
    assert_eq!(f.feelings, strings(&["Epic", "Somber", "Uplifting"]));
}

#[test]
fn toggling_takes_out_every_copy() {
    let mut f = MnemonForm::default();
    f.feelings = strings(&["Cozy", "Epic", "Cozy"]);
    f.toggle_feeling("Cozy");
    assert_eq!(f.feelings, strings(&["Epic"]));
}

#[test]
fn edit_form_shows_the_mnemon_and_its_work() {
    let mut work = Work::from_provider(
        WorkType::TvAnime,
        "Cowboy Bebop".to_string(),
        Some(1998),
        Some("cover".to_string()),
        None,
        ProviderRef::new("tmdb", "1355"),
    );
    work.id = 7;
    let mnemon = Mnemon::new(
        7,
        Some("2020-02-02".to_string()),
        strings(&["Chill"]),
        strings(&["See you", "space cowboy"]),
    );
    let f = MnemonForm::from_mnemon_for_edit(&mnemon, &work);
    assert_eq!(f.work_type, Some(WorkType::TvAnime));
    assert_eq!(f.title, "Cowboy Bebop");
    assert_eq!(f.year, "1998");
    assert_eq!(f.provider_ref, Some(ProviderRef::new("tmdb", "1355")));
    assert_eq!(f.cover_url, Some("cover".to_string()));
    assert_eq!(f.theme_music_url, None);
    assert_eq!(f.finished_date, "2020-02-02");
    assert_eq!(f.feelings, strings(&["Chill"]));
    assert_eq!(f.notes, "See you\nspace cowboy");
    assert_eq!(f.parse_notes(), mnemon.notes);

    let bare = Mnemon::new(7, None, vec![], vec![]);
    let manual = Work::from_manual(WorkType::Game, "Tetris".to_string(), None);
    let g = MnemonForm::from_mnemon_for_edit(&bare, &manual);
    assert_eq!(g.year, "");
    assert_eq!(g.finished_date, "");
    assert_eq!(g.notes, "");
}

#[test]
fn lines_and_years_as_text() {
    assert_eq!(join_lines(&vec![]), "");
    assert_eq!(join_lines(&strings(&["a"])), "a");
    assert_eq!(join_lines(&strings(&["a", "", "b"])), "a\n\nb");
    assert_eq!(year_to_text(None), "");
    assert_eq!(year_to_text(Some(0)), "0");
    assert_eq!(year_to_text(Some(2024)), "2024");
    assert_eq!(year_to_text(Some(65535)), "65535");
}

#[test]
fn saving_a_typed_form_makes_a_work_and_a_mnemon() {
    let mut journal = AppState::new();
    let mut f = form(Some(WorkType::Game), "Tetris");
    f.year = " 1984 ".to_string();
    f.cover_url = Some("ignored".to_string());
    f.finished_date = "1990-01-01".to_string();
    f.feelings = strings(&["Nostalgic"]);
    f.notes = "blocks\n  fall ".to_string();
    let saved = save_form(&mut journal, &f).unwrap();
    assert_eq!(saved.position, 0);
    let work = saved.new_work.clone().unwrap();
    assert_eq!(work.id, saved.work_id);
    assert_eq!(work.title_en, "Tetris");
    assert_eq!(work.work_type, WorkType::Game);
    assert_eq!(work.release_year, Some(1984));
    assert_eq!(work.origin, WorkOrigin::Manual);
    assert_eq!(work.provider_ref, None);
    assert_eq!(work.cover_image_local_uri, None);
    assert_eq!(saved.mnemon.work_id, saved.work_id);
    assert_eq!(saved.mnemon.finished_date, Some("1990-01-01".to_string()));
    assert_eq!(saved.mnemon.feelings, strings(&["Nostalgic"]));
    assert_eq!(saved.mnemon.notes, strings(&["blocks", "fall"]));
    assert_eq!(journal.works(), &vec![work]);
    assert_eq!(journal.mnemons(), &vec![saved.mnemon]);
    assert_eq!(journal.get_mnemons_with_works().len(), 1);
}

#[test]
fn saving_reuses_the_work_of_the_same_provider_entity() {
    let mut journal = AppState::new();
    let mut f = form(Some(WorkType::Movie), "Spirited Away");
    f.provider_ref = Some(ProviderRef::new("tmdb", "129"));
    f.cover_url = Some("cover".to_string());
    f.theme_music_url = Some("music".to_string());
    f.year = "2001".to_string();
    let first = save_form(&mut journal, &f).unwrap();
    let work = first.new_work.clone().unwrap();
    assert_eq!(work.origin, WorkOrigin::Provider);
    assert_eq!(work.provider_ref, Some(ProviderRef::new("tmdb", "129")));
    assert_eq!(work.cover_image_local_uri, Some("cover".to_string()));
    assert_eq!(work.theme_music_local_uri, Some("music".to_string()));
    assert!(journal.has_mnemon_for_provider_ref(&ProviderRef::new("tmdb", "129")));

    f.title = "Spirited Away again".to_string();
    let second = save_form(&mut journal, &f).unwrap();
    assert_eq!(second.new_work, None);
    assert_eq!(second.work_id, first.work_id);
    assert_eq!(second.position, 1);
    assert_eq!(journal.works().len(), 1);
    assert_eq!(journal.mnemons().len(), 2);
    assert_eq!(journal.get_shuffled_index(1), Some(1));

    f.provider_ref = Some(ProviderRef::new("tmdb", "130"));
    let third = save_form(&mut journal, &f).unwrap();
    assert!(third.new_work.is_some());
    assert_ne!(third.work_id, first.work_id);
    assert_eq!(journal.works().len(), 2);
}

#[test]
fn forms_that_name_no_work_are_refused() {
    let mut journal = AppState::new();
    assert_eq!(save_form(&mut journal, &form(None, "Akira")), Err(FormError::MissingWorkType));
    assert_eq!(save_form(&mut journal, &form(None, "")), Err(FormError::MissingWorkType));
    assert_eq!(save_form(&mut journal, &form(Some(WorkType::Movie), " ")), Err(FormError::EmptyTitle));
    assert!(journal.works().is_empty());
    assert_eq!(journal.mnemons_count(), 0);
}

#[test]
fn saving_an_edit_replaces_date_feelings_and_notes() {
    let mut journal = AppState::new();
    let saved = save_form(&mut journal, &form(Some(WorkType::Movie), "Akira")).unwrap();
    let mut f = form(Some(WorkType::Game), "ignored");
    f.finished_date = "1988-07-16".to_string();
    f.feelings = strings(&["Epic"]);
    f.notes = "neo\ntokyo".to_string();
    let edited = save_edit(&mut journal, saved.mnemon.id, &f).unwrap();
    assert_eq!(edited.id, saved.mnemon.id);
    assert_eq!(edited.work_id, saved.work_id);
    assert_eq!(edited.created_at, saved.mnemon.created_at);
    assert_eq!(edited.finished_date, Some("1988-07-16".to_string()));
    assert_eq!(edited.feelings, strings(&["Epic"]));
    assert_eq!(edited.notes, strings(&["neo", "tokyo"]));
    assert_eq!(journal.mnemons(), &vec![edited]);
    assert_eq!(journal.works()[0].title_en, "Akira");
    assert_eq!(save_edit(&mut journal, 12345, &f), None);
}
