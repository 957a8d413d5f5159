use mnemon::constants::{
    HERO_AUTO_CYCLE_MS, HERO_TRANSITION_MS, HERO_TRANSITION_SETTLE_MS, MANUAL_NAV_COOLDOWN_MS,
    MAX_FEELINGS, SEARCH_DEBOUNCE_MS, SEARCH_MIN_CHARS, SEARCH_PAGE_SIZE, UNDO_TIMEOUT_MS,
};
use mnemon::app_state::AppState;
use mnemon::models::{ProviderRef, WorkOrigin, WorkType};
use mnemon::settings::{
    clear_all_settings, get_rawg_api_key, get_tmdb_token, is_rawg_configured, is_tmdb_configured,
    load_rawg_api_key, load_tmdb_token, save_rawg_api_key, save_tmdb_token, ApiTokenSettings,
    SettingsStore,
};
use mnemon::storage::{PersistedData, StorageError, StoredAsset};
use mnemon::text::{chars_of, same_text, text_between, text_of};
use mnemon::text::numbers::{decimal_text, extract_year};
use mnemon::text::search::text_contains;
use mnemon::text::trim::{is_blank_text, space_mask, trim_flags, trimmed_text};
use mnemon::feelings::{feelings, is_feeling};
use mnemon::utils::{
    calculate_reading_time, count_runs, count_words, is_mobile_device, ken_burns_variant,
    next_note_index, shuffled_notes,
};

#[test]
fn defaults_of_the_timing() {
    assert_eq!(HERO_AUTO_CYCLE_MS, 10_000);
    assert_eq!(HERO_TRANSITION_MS, 600);
    assert_eq!(HERO_TRANSITION_SETTLE_MS, 50);
    assert_eq!(MANUAL_NAV_COOLDOWN_MS, 5000);
    assert_eq!(UNDO_TIMEOUT_MS, 5000);
    assert_eq!(SEARCH_DEBOUNCE_MS, 300);
    assert_eq!(SEARCH_MIN_CHARS, 3);
    assert_eq!(SEARCH_PAGE_SIZE, 10);
    assert_eq!(MAX_FEELINGS, 5);
}

#[test]
fn work_types_have_icon_and_label() {
    assert_eq!(WorkType::Movie.icon(), "🎬");
    assert_eq!(WorkType::TvAnime.icon(), "📺");
    assert_eq!(WorkType::Game.icon(), "🎮");
    assert_eq!(WorkType::Movie.label(), "Movie");
    assert_eq!(WorkType::TvAnime.label(), "TV/Anime");
    assert_eq!(WorkType::Game.label(), "Game");
    assert_ne!(WorkOrigin::Provider, WorkOrigin::Manual);
}

#[test]
fn provider_refs_match_on_source_and_id() {
    let a = ProviderRef::new("tmdb", "129");
    assert_eq!(a.provider_source, "tmdb");
    assert_eq!(a.provider_id, "129");
    assert!(a.matches(&ProviderRef::new("tmdb", "129")));
    assert!(a.matches(&a.clone()));
    assert!(!a.matches(&ProviderRef::new("tmdb", "130")));
    assert!(!a.matches(&ProviderRef::new("rawg", "129")));
    assert!(!a.matches(&ProviderRef::new("TMDB", "129")));
    assert!(!a.matches(&ProviderRef::new("tmdb", "")));
}

#[test]
fn reading_time_is_a_second_for_four_words_within_bounds() {
    assert_eq!(calculate_reading_time(""), 3000);
    assert_eq!(calculate_reading_time("one"), 3000);
    assert_eq!(calculate_reading_time("a b c d e f g h i j k l"), 3000);
    assert_eq!(calculate_reading_time("a b c d e f g h i j k l m"), 4000);
    assert_eq!(calculate_reading_time("a b c d e f g h i j k l m n o p"), 4000);
    assert_eq!(calculate_reading_time(&"word ".repeat(20)), 5000);
    assert_eq!(calculate_reading_time(&"word ".repeat(28)), 7000);
    assert_eq!(calculate_reading_time(&"word ".repeat(29)), 8000);
    assert_eq!(calculate_reading_time(&"word ".repeat(32)), 8000);
    assert_eq!(calculate_reading_time(&"word ".repeat(33)), 8000);
    assert_eq!(calculate_reading_time(&"word\n".repeat(5000)), 8000);
}

#[test]
fn words_are_runs_without_white_space() {
    assert_eq!(count_words(""), 0);
    assert_eq!(count_words("   \n\t"), 0);
    assert_eq!(count_words("one"), 1);
    assert_eq!(count_words("  one  two\tthree\nfour  "), 4);
    assert_eq!(count_words("a\u{a0}b\u{3000}c"), 3);
    for text in ["x", " x y ", "hello, world!  again", "\u{2003}em space", ""] {
        assert_eq!(count_words(text), text.split_whitespace().count());
    }
}

#[test]
fn notes_take_turns() {
    assert_eq!(next_note_index(0, 1), 0);
    assert_eq!(next_note_index(0, 2), 1);
    assert_eq!(next_note_index(1, 2), 0);
    assert_eq!(next_note_index(7, 3), 2);
    assert_eq!(next_note_index(usize::MAX, 4), 0);
}

#[test]
fn narrow_touch_devices_are_mobile() {
    assert!(is_mobile_device(Some(767), 1));
    assert!(is_mobile_device(Some(320), 5));
    assert!(!is_mobile_device(Some(768), 5));
    assert!(!is_mobile_device(Some(1920), 5));
    assert!(!is_mobile_device(Some(320), 0));
    assert!(!is_mobile_device(None, 5));
}

#[test]
fn text_helpers() {
    assert_eq!(chars_of("héllo"), vec!['h', 'é', 'l', 'l', 'o']);
    assert_eq!(text_of(&vec!['a', 'ß', 'c']), "aßc");
    assert_eq!(text_between(&vec!['a', 'b', 'c', 'd'], 1, 3), "bc");
    assert_eq!(text_between(&vec!['a', 'b'], 2, 2), "");
    assert_eq!(trimmed_text("  a b \n"), "a b");
    assert_eq!(trimmed_text("\u{a0}x\u{2003}"), "x");
    assert_eq!(trimmed_text("   "), "");
    assert_eq!(trimmed_text(""), "");
    assert_eq!(trimmed_text("x"), "x");
    assert!(is_blank_text(""));
    assert!(is_blank_text(" \t\r\n"));
    assert!(!is_blank_text(" . "));
    assert_eq!(decimal_text(0), "0");
    assert_eq!(decimal_text(9), "9");
    assert_eq!(decimal_text(10), "10");
    assert_eq!(decimal_text(1234567890), "1234567890");
    assert_eq!(decimal_text(u64::MAX), u64::MAX.to_string());
    assert_eq!(extract_year("1987-06-05"), Some(1987));
    assert_eq!(extract_year("nineteen"), None);
    assert!(same_text("abc", "abc"));
    assert!(!same_text("abc", "abd"));
    assert!(!same_text("abc", "ab"));
    assert!(same_text("", ""));
    assert!(text_contains("spirited away", "away"));
    assert!(text_contains("spirited away", "spirited away"));
    assert!(text_contains("spirited away", ""));
    assert!(text_contains("", ""));
    assert!(!text_contains("spirited away", "aways"));
    assert!(!text_contains("", "a"));
    assert!(!text_contains("aab", "abb"));
    assert!(text_contains("aaab", "aab"));
}

#[test]
fn settings_keep_trimmed_credentials() {
    let mut store = SettingsStore::new();
    assert!(!is_tmdb_configured(&store));
    assert!(!is_rawg_configured(&store));
    assert_eq!(load_tmdb_token(&store), None);

    assert!(save_tmdb_token(&mut store, "  token-1 \n"));
    assert_eq!(store.tmdb_token, Some("token-1".to_string()));
    assert_eq!(load_tmdb_token(&store), Some("token-1".to_string()));
    assert_eq!(get_tmdb_token(&store), Some("token-1".to_string()));
    assert!(is_tmdb_configured(&store));
    assert!(!is_rawg_configured(&store));

    assert!(save_rawg_api_key(&mut store, "key"));
    assert_eq!(load_rawg_api_key(&store), Some("key".to_string()));
    assert_eq!(get_rawg_api_key(&store), Some("key".to_string()));
    assert!(is_rawg_configured(&store));

    assert!(save_tmdb_token(&mut store, "   "));
    assert_eq!(store.tmdb_token, None);
    assert!(!is_tmdb_configured(&store));
    assert!(is_rawg_configured(&store));

    assert!(clear_all_settings(&mut store));
    assert_eq!(store, SettingsStore::new());
}

#[test]
fn empty_entries_and_missing_storage_give_nothing() {
    let store = SettingsStore {
        available: true,
        tmdb_token: Some(String::new()),
        rawg_api_key: Some(" ".to_string()),
    };
    assert_eq!(load_tmdb_token(&store), None);
    assert_eq!(load_rawg_api_key(&store), Some(" ".to_string()));

    let mut gone = SettingsStore::unavailable();
    assert!(!save_tmdb_token(&mut gone, "token"));
    assert!(!save_rawg_api_key(&mut gone, "key"));
    assert!(!clear_all_settings(&mut gone));
    assert_eq!(gone, SettingsStore::unavailable());
    let odd = SettingsStore { available: false, tmdb_token: Some("t".to_string()), rawg_api_key: None };
    assert_eq!(load_tmdb_token(&odd), None);
    assert!(!is_tmdb_configured(&odd));
}

#[test]
fn settings_dialog_loads_and_saves() {
    let mut store = SettingsStore::new();
    let empty = ApiTokenSettings::load(&store);
    assert_eq!(empty, ApiTokenSettings::default());
    assert!(!empty.has_tmdb());
    assert!(!empty.has_rawg());

    let dialog = ApiTokenSettings { tmdb_token: " t ".to_string(), rawg_api_key: "  ".to_string() };
    assert!(dialog.has_tmdb());
    assert!(!dialog.has_rawg());
    assert!(dialog.save(&mut store));
    assert_eq!(store.tmdb_token, Some("t".to_string()));
    assert_eq!(store.rawg_api_key, None);
    let loaded = ApiTokenSettings::load(&store);
    assert_eq!(loaded, ApiTokenSettings { tmdb_token: "t".to_string(), rawg_api_key: String::new() });
    assert!(!dialog.save(&mut SettingsStore::unavailable()));
}

#[test]
fn storage_errors_in_words() {
    assert_eq!(StorageError::DatabaseError("x".to_string()).message(), "Database error: x");
    assert_eq!(StorageError::SerializeError("x".to_string()).message(), "Serialize error: x");
    assert_eq!(StorageError::DeserializeError("x".to_string()).message(), "Deserialize error: x");
    assert_eq!(StorageError::TransactionError("x".to_string()).message(), "Transaction error: x");
    assert_eq!(StorageError::StoreError("".to_string()).message(), "Store error: ");
    let asset = StoredAsset {
        id: "a".to_string(),
        mime_type: "image/png".to_string(),
        data_base64: "AAAA".to_string(),
    };
    let copy = asset.clone();
    assert_eq!((copy.id, copy.mime_type, copy.data_base64), (asset.id, asset.mime_type, asset.data_base64));
    let empty = PersistedData::empty();
    assert!(empty.works.is_empty() && empty.mnemons.is_empty());
}

#[test]
fn loading_shuffles_the_display_order() {
    let mut state = AppState::new();
    let mnemons = (0..60u128).map(|i| mnemon::models::Mnemon::new(i, None, vec![], vec![])).collect();
    state.load_from_storage(PersistedData { works: vec![], mnemons });
    let order: Vec<usize> = state.shuffled_indices().clone();
    let identity: Vec<usize> = (0..60).collect();
    assert_ne!(order, identity);
    let mut sorted = order.clone();
    sorted.sort();
    assert_eq!(sorted, identity);
}

#[test]
fn twelve_feelings_are_offered() {
    let all = feelings();
    assert_eq!(all.len(), 12);
    let names: Vec<&str> = all.iter().map(|f| f.0).collect();
    assert_eq!(
        names,
        vec![
            "Nostalgic",
            "Cozy",
            "Melancholic",
            "Epic",
            "Wholesome",
            "Bittersweet",
            "Heartwarming",
            "Chill",
            "Adventurous",
            "Uplifting",
            "Mysterious",
            "Somber"
        ]
    );
    assert_eq!(all[1], ("Cozy", "☕"));
    assert!(all.iter().all(|f| !f.1.is_empty()));
    for name in names {
        assert!(is_feeling(name));
    }
    assert!(!is_feeling("cozy"));
    assert!(!is_feeling(""));
    assert!(!is_feeling("Angry"));
}

#[test]
fn background_animation_follows_the_identifier() {
    assert_eq!(ken_burns_variant(0), 1);
    assert_eq!(ken_burns_variant(5), 6);
    assert_eq!(ken_burns_variant(6), 1);
    assert_eq!(ken_burns_variant(u128::MAX), (u128::MAX % 6) as u8 + 1);
}

#[test]
fn shuffled_notes_hold_every_note_once() {
    assert!(shuffled_notes(&vec![]).is_empty());
    assert_eq!(shuffled_notes(&vec!["only".to_string()]), vec!["only".to_string()]);
    let notes: Vec<String> = (0..40).map(|i| format!("note {}", i)).collect();
    let shown = shuffled_notes(&notes);
    assert_ne!(shown, notes);
    let mut sorted = shown.clone();
    sorted.sort();
    let mut expected = notes.clone();
    expected.sort();
    assert_eq!(sorted, expected);
    let doubled = vec!["a".to_string(), "a".to_string(), "b".to_string()];
    let mut shown = shuffled_notes(&doubled);
    shown.sort();
    assert_eq!(shown, doubled);
}

#[test]
fn flags_are_trimmed_and_runs_counted() {
    let flags = vec![true, true, false, true, false, false, true];
    assert_eq!(trim_flags(&flags, 0, 7), (2, 6));
    assert_eq!(trim_flags(&flags, 3, 7), (4, 6));
    assert_eq!(trim_flags(&flags, 0, 2), (2, 2));
    assert_eq!(trim_flags(&flags, 2, 3), (2, 3));
    assert_eq!(trim_flags(&flags, 4, 4), (4, 4));
    assert_eq!(count_runs(&flags), 2);
    assert_eq!(count_runs(&vec![]), 0);
    assert_eq!(count_runs(&vec![false]), 1);
    assert_eq!(count_runs(&vec![true, true]), 0);
    assert_eq!(count_runs(&vec![false, true, false, true, false]), 3);
    assert_eq!(
        space_mask(&vec!['a', ' ', '\n', 'é', '\u{a0}']),
        vec![false, true, true, false, true]
    );
}
