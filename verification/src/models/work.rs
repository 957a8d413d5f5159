//! Works: the films, series and games that mnemons are about.

use vstd::prelude::*;

use crate::models::provider::{clone_opt_ref, opt_ref_view, ProviderRef, ProviderRefView};
use crate::sources::{fresh_id, is_random_id, now_millis};
use crate::text::{clone_opt_text, opt_text};

verus! {

/// The kind of a work.
#[derive(Clone, Copy, Debug, PartialEq, Eq, Structural)]
pub enum WorkType {
    Movie,
    TvAnime,
    Game,
}

impl WorkType {
    /// The emoji shown for this kind of work.
    pub fn icon(&self) -> (r: &'static str)
        ensures
            r@ == match *self {
                WorkType::Movie => "🎬"@,
                WorkType::TvAnime => "📺"@,
                WorkType::Game => "🎮"@,
            },
    {
        match self {
            WorkType::Movie => "🎬",
            WorkType::TvAnime => "📺",
            WorkType::Game => "🎮",
        }
    }

    /// The name shown for this kind of work.
    pub fn label(&self) -> (r: &'static str)
        ensures
            r@ == match *self {
                WorkType::Movie => "Movie"@,
                WorkType::TvAnime => "TV/Anime"@,
                WorkType::Game => "Game"@,
            },
    {
        match self {
            WorkType::Movie => "Movie",
            WorkType::TvAnime => "TV/Anime",
            WorkType::Game => "Game",
        }
    }
}

/// Where the data of a work came from.
#[derive(Clone, Copy, Debug, PartialEq, Eq, Structural)]
pub enum WorkOrigin {
    /// Taken over from a search result of a provider.
    Provider,
    /// Typed in by the user.
    Manual,
}

/// What a `Work` stands for.
pub struct WorkView {
    pub id: u128,
    pub work_type: WorkType,
    pub title_en: Seq<char>,
    pub release_year: Option<u16>,
    pub cover_image_local_uri: Option<Seq<char>>,
    pub theme_music_local_uri: Option<Seq<char>>,
    pub provider_ref: Option<ProviderRefView>,
    pub origin: WorkOrigin,
    pub created_at: i64,
}

/// A film, a series or a game. Several mnemons may be about one work.
#[derive(Debug, PartialEq)]
pub struct Work {
    /// The work's identifier, fixed when it is made.
    pub id: u128,
    pub work_type: WorkType,
    /// The English title.
    pub title_en: String,
    pub release_year: Option<u16>,
    pub cover_image_local_uri: Option<String>,
    pub theme_music_local_uri: Option<String>,
    /// Where the work was found, if it came from a provider.
    pub provider_ref: Option<ProviderRef>,
    pub origin: WorkOrigin,
    /// When the work was made, in milliseconds since 1970.
    pub created_at: i64,
}

impl View for Work {
    type V = WorkView;

    open spec fn view(&self) -> WorkView {
        WorkView {
            id: self.id,
            work_type: self.work_type,
            title_en: self.title_en@,
            release_year: self.release_year,
            cover_image_local_uri: opt_text(self.cover_image_local_uri),
            theme_music_local_uri: opt_text(self.theme_music_local_uri),
            provider_ref: opt_ref_view(self.provider_ref),
            origin: self.origin,
            created_at: self.created_at,
        }
    }
}

impl DeepView for Work {
    type V = WorkView;

    open spec fn deep_view(&self) -> WorkView {
        self@
    }
}

impl Clone for Work {
    fn clone(&self) -> (r: Self)
        ensures
            r@ == self@,
    {
        Work {
            id: self.id,
            work_type: self.work_type,
            title_en: self.title_en.clone(),
            release_year: self.release_year,
            cover_image_local_uri: clone_opt_text(&self.cover_image_local_uri),
            theme_music_local_uri: clone_opt_text(&self.theme_music_local_uri),
            provider_ref: clone_opt_ref(&self.provider_ref),
            origin: self.origin,
            created_at: self.created_at,
        }
    }
}

impl Work {
    /// A new work taken over from a provider's search result. Its identifier
    /// is drawn at random and its creation time is the time of the call.
    pub fn from_provider(
        work_type: WorkType,
        title: String,
        release_year: Option<u16>,
        cover_url: Option<String>,
        theme_music_url: Option<String>,
        provider_ref: ProviderRef,
    ) -> (w: Self)
        ensures
            is_random_id(w@.id),
            w@ == (WorkView {
                id: w@.id,
                work_type,
                title_en: title@,
                release_year,
                cover_image_local_uri: opt_text(cover_url),
                theme_music_local_uri: opt_text(theme_music_url),
                provider_ref: Some(provider_ref@),
                origin: WorkOrigin::Provider,
                created_at: w@.created_at,
            }),
    {
        Work {
            id: fresh_id(),
            work_type,
            title_en: title,
            release_year,
            cover_image_local_uri: cover_url,
            theme_music_local_uri: theme_music_url,
            provider_ref: Some(provider_ref),
            origin: WorkOrigin::Provider,
            created_at: now_millis(),
        }
    }

    /// A new work typed in by the user. Its identifier is drawn at random and
    /// its creation time is the time of the call.
    pub fn from_manual(work_type: WorkType, title: String, release_year: Option<u16>) -> (w: Self)
        ensures
            is_random_id(w@.id),
            w@ == (WorkView {
                id: w@.id,
                work_type,
                title_en: title@,
                release_year,
                cover_image_local_uri: None,
                theme_music_local_uri: None,
                provider_ref: None,
                origin: WorkOrigin::Manual,
                created_at: w@.created_at,
            }),
    {
        Work {
            id: fresh_id(),
            work_type,
            title_en: title,
            release_year,
            cover_image_local_uri: None,
            theme_music_local_uri: None,
            provider_ref: None,
            origin: WorkOrigin::Manual,
            created_at: now_millis(),
        }
    }
}

} // verus!
