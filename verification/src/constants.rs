//! Timing, search and form limits shared by the whole journal.

use vstd::prelude::*;

verus! {

/// Milliseconds a slide stays up before the slideshow advances by itself.
pub const HERO_AUTO_CYCLE_MS: u32 = 10_000;

/// Milliseconds a slide transition takes.
pub const HERO_TRANSITION_MS: u32 = 600;

/// Milliseconds the details panel takes to slide in or out.
pub const DETAILS_TRANSITION_MS: u32 = 400;

/// Milliseconds the undo toast stays before the deletion becomes final.
pub const UNDO_TIMEOUT_MS: u32 = 5000;

/// Milliseconds between the end of a transition and the return to rest.
pub const HERO_TRANSITION_SETTLE_MS: u32 = 50;

/// Milliseconds after a navigation by hand during which the slideshow does
/// not advance by itself.
pub const MANUAL_NAV_COOLDOWN_MS: u32 = 5000;

/// The shortest time a note is shown, in milliseconds.
pub const NOTE_MIN_READING_TIME_MS: u64 = 3_000;

/// The longest time a note is shown, in milliseconds.
pub const NOTE_MAX_READING_TIME_MS: u64 = 8_000;

/// Milliseconds a note takes to fade.
pub const NOTE_FADE_TRANSITION_MS: u32 = 500;

/// The words a reader is taken to read in a second.
pub const WORDS_PER_SECOND: u64 = 4;

/// The number of characters from which a query is searched for without
/// being forced.
pub const SEARCH_MIN_CHARS: usize = 3;

/// Milliseconds of quiet after typing before a search starts.
pub const SEARCH_DEBOUNCE_MS: u32 = 300;

/// The number of search results on a page.
pub const SEARCH_PAGE_SIZE: usize = 10;

/// The most feelings a mnemon may have.
pub const MAX_FEELINGS: usize = 5;

/// The number of feelings that can be chosen from.
pub const FEELINGS_COUNT: usize = 12;

/// Pixels a touch must move before it is taken for a horizontal or a
/// vertical gesture.
pub const GESTURE_LOCK_THRESHOLD: i32 = 20;

/// Pixels a touch must have moved along its axis to count as a swipe.
pub const SWIPE_THRESHOLD: i32 = 50;

/// The viewport width, in pixels, from which a device is no longer taken for
/// a mobile one.
pub const MOBILE_BREAKPOINT_PX: i32 = 768;

} // verus!
