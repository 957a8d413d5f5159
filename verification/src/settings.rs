//! The credentials for the providers, as the user has set them.
//!
//! The credentials live in the browser's local storage under two keys. The
//! journal works on a `SettingsStore`, which stands for those two entries;
//! the caller fills it from the storage and writes it back.

use vstd::prelude::*;

use crate::text::{clone_opt_text, opt_text};
use crate::text::trim::{is_blank, is_blank_text, trimmed, trimmed_text};

verus! {

/// The key under which the access token for films and series is kept.
pub const TMDB_TOKEN_KEY: &'static str = "mnemon_tmdb_access_token";

/// The key under which the API key for games is kept.
pub const RAWG_API_KEY_KEY: &'static str = "mnemon_rawg_api_key";

/// What a `SettingsStore` stands for.
pub struct SettingsStoreView {
    /// Whether there is a storage to keep anything in.
    pub available: bool,
    /// The entry under `TMDB_TOKEN_KEY`, if there is one.
    pub tmdb_token: Option<Seq<char>>,
    /// The entry under `RAWG_API_KEY_KEY`, if there is one.
    pub rawg_api_key: Option<Seq<char>>,
}

/// The two entries of the local storage that hold the credentials.
#[derive(Debug, PartialEq)]
pub struct SettingsStore {
    pub available: bool,
    pub tmdb_token: Option<String>,
    pub rawg_api_key: Option<String>,
}

impl View for SettingsStore {
    type V = SettingsStoreView;

    open spec fn view(&self) -> SettingsStoreView {
        SettingsStoreView {
            available: self.available,
            tmdb_token: opt_text(self.tmdb_token),
            rawg_api_key: opt_text(self.rawg_api_key),
        }
    }
}

impl Clone for SettingsStore {
    fn clone(&self) -> (r: Self)
        ensures
            r@ == self@,
    {
        SettingsStore {
            available: self.available,
            tmdb_token: clone_opt_text(&self.tmdb_token),
            rawg_api_key: clone_opt_text(&self.rawg_api_key),
        }
    }
}

impl SettingsStore {
    /// A storage with nothing in it.
    pub fn new() -> (s: Self)
        ensures
            s@ == (SettingsStoreView { available: true, tmdb_token: None, rawg_api_key: None }),
    {
        SettingsStore { available: true, tmdb_token: None, rawg_api_key: None }
    }

    /// No storage: nothing can be kept and nothing is found.
    pub fn unavailable() -> (s: Self)
        ensures
            s@ == (SettingsStoreView { available: false, tmdb_token: None, rawg_api_key: None }),
    {
        SettingsStore { available: false, tmdb_token: None, rawg_api_key: None }
    }
}

/// The entry that a credential is kept as: the credential trimmed, and no
/// entry for a blank one.
pub open spec fn entry_for(credential: Seq<char>) -> Option<Seq<char>> {
    if is_blank(credential) {
        None
    } else {
        Some(trimmed(credential))
    }
}

/// The credential that an entry holds: none for a missing entry, for an
/// empty one, and without a storage.
pub open spec fn credential_in(available: bool, entry: Option<Seq<char>>) -> Option<Seq<char>> {
    match entry {
        Some(text) => if available && text.len() > 0 {
            Some(text)
        } else {
            None
        },
        None => None,
    }
}

/// The entry that a credential is kept as.
fn entry_of(credential: &str) -> (r: Option<String>)
    ensures
        opt_text(r) == entry_for(credential@),
{
    if is_blank_text(credential) {
        None
    } else {
        Some(trimmed_text(credential))
    }
}

/// The credential that an entry holds.
fn credential_of(available: bool, entry: &Option<String>) -> (r: Option<String>)
    ensures
        opt_text(r) == credential_in(available, opt_text(*entry)),
{
    match entry {
        Some(text) => {
            if available && !text.as_str().is_empty() {
                Some(text.clone())
            } else {
                None
            }
        },
        None => None,
    }
}

/// Keeps the access token for films and series: trimmed, and a blank one
/// removes the entry. Without a storage nothing is kept and the result is
/// `false`.
pub fn save_tmdb_token(store: &mut SettingsStore, token: &str) -> (saved: bool)
    ensures
        saved == old(store)@.available,
        final(store)@ == if saved {
            SettingsStoreView { tmdb_token: entry_for(token@), ..old(store)@ }
        } else {
            old(store)@
        },
{
    if !store.available {
        return false;
    }
    store.tmdb_token = entry_of(token);
    true
}

/// The access token for films and series, if one is kept.
pub fn load_tmdb_token(store: &SettingsStore) -> (r: Option<String>)
    ensures
        opt_text(r) == credential_in(store@.available, store@.tmdb_token),
{
    credential_of(store.available, &store.tmdb_token)
}

/// Keeps the API key for games: trimmed, and a blank one removes the entry.
/// Without a storage nothing is kept and the result is `false`.
pub fn save_rawg_api_key(store: &mut SettingsStore, api_key: &str) -> (saved: bool)
    ensures
        saved == old(store)@.available,
        final(store)@ == if saved {
            SettingsStoreView { rawg_api_key: entry_for(api_key@), ..old(store)@ }
        } else {
            old(store)@
        },
{
    if !store.available {
        return false;
    }
    store.rawg_api_key = entry_of(api_key);
    true
}

/// The API key for games, if one is kept.
pub fn load_rawg_api_key(store: &SettingsStore) -> (r: Option<String>)
    ensures
        opt_text(r) == credential_in(store@.available, store@.rawg_api_key),
{
    credential_of(store.available, &store.rawg_api_key)
}

/// Whether an access token for films and series is kept.
pub fn is_tmdb_configured(store: &SettingsStore) -> (b: bool)
    ensures
        b == (credential_in(store@.available, store@.tmdb_token) is Some),
{
    load_tmdb_token(store).is_some()
}

/// Whether an API key for games is kept.
pub fn is_rawg_configured(store: &SettingsStore) -> (b: bool)
    ensures
        b == (credential_in(store@.available, store@.rawg_api_key) is Some),
{
    load_rawg_api_key(store).is_some()
}

/// The access token for films and series, if one is kept.
pub fn get_tmdb_token(store: &SettingsStore) -> (r: Option<String>)
    ensures
        opt_text(r) == credential_in(store@.available, store@.tmdb_token),
{
    load_tmdb_token(store)
}

/// The API key for games, if one is kept.
pub fn get_rawg_api_key(store: &SettingsStore) -> (r: Option<String>)
    ensures
        opt_text(r) == credential_in(store@.available, store@.rawg_api_key),
{
    load_rawg_api_key(store)
}

/// Removes both entries. Without a storage nothing changes and the result is
/// `false`.
pub fn clear_all_settings(store: &mut SettingsStore) -> (cleared: bool)
    ensures
        cleared == old(store)@.available,
        final(store)@ == if cleared {
            SettingsStoreView { tmdb_token: None, rawg_api_key: None, ..old(store)@ }
        } else {
            old(store)@
        },
{
    if !store.available {
        return false;
    }
    store.tmdb_token = None;
    store.rawg_api_key = None;
    true
}

/// The text of an optional credential, empty if there is none.
pub open spec fn credential_text(credential: Option<Seq<char>>) -> Seq<char> {
    match credential {
        Some(text) => text,
        None => Seq::empty(),
    }
}

/// The credentials as the settings dialog shows them.
#[derive(Debug, PartialEq)]
pub struct ApiTokenSettings {
    pub tmdb_token: String,
    pub rawg_api_key: String,
}

impl Clone for ApiTokenSettings {
    fn clone(&self) -> (r: Self)
        ensures
            r.tmdb_token@ == self.tmdb_token@,
            r.rawg_api_key@ == self.rawg_api_key@,
    {
        ApiTokenSettings {
            tmdb_token: self.tmdb_token.clone(),
            rawg_api_key: self.rawg_api_key.clone(),
        }
    }
}

impl Default for ApiTokenSettings {
    fn default() -> (s: Self)
        ensures
            s.tmdb_token@.len() == 0,
            s.rawg_api_key@.len() == 0,
    {
        ApiTokenSettings { tmdb_token: String::new(), rawg_api_key: String::new() }
    }
}

impl ApiTokenSettings {
    /// The credentials that are kept, each empty if there is none.
    pub fn load(store: &SettingsStore) -> (s: Self)
        ensures
            s.tmdb_token@ == credential_text(credential_in(store@.available, store@.tmdb_token)),
            s.rawg_api_key@ == credential_text(
                credential_in(store@.available, store@.rawg_api_key),
            ),
    {
        ApiTokenSettings {
            tmdb_token: match load_tmdb_token(store) {
                Some(token) => token,
                None => String::new(),
            },
            rawg_api_key: match load_rawg_api_key(store) {
                Some(key) => key,
                None => String::new(),
            },
        }
    }

    /// Keeps both credentials as they stand in the dialog. The result says
    /// whether both were kept.
    pub fn save(&self, store: &mut SettingsStore) -> (saved: bool)
        ensures
            saved == old(store)@.available,
            final(store)@ == if saved {
                SettingsStoreView {
                    tmdb_token: entry_for(self.tmdb_token@),
                    rawg_api_key: entry_for(self.rawg_api_key@),
                    ..old(store)@
                }
            } else {
                old(store)@
            },
    {
        let tmdb_saved = save_tmdb_token(store, self.tmdb_token.as_str());
        let rawg_saved = save_rawg_api_key(store, self.rawg_api_key.as_str());
        tmdb_saved && rawg_saved
    }

    /// Whether an access token for films and series stands in the dialog.
    pub fn has_tmdb(&self) -> (b: bool)
        ensures
            b == !is_blank(self.tmdb_token@),
    {
        !is_blank_text(self.tmdb_token.as_str())
    }

    /// Whether an API key for games stands in the dialog.
    pub fn has_rawg(&self) -> (b: bool)
        ensures
            b == !is_blank(self.rawg_api_key@),
    {
        !is_blank_text(self.rawg_api_key.as_str())
    }
}

} // verus!
