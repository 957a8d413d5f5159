//! A memory journal for films, series and games: the state behind the slideshow.
//!
//! The journal keeps works and the memories ("mnemons") written about them,
//! shows the memories in a shuffled order, and decides what the slideshow, the
//! search field and the undo toast do next. Timers, storage and the network
//! belong to the caller: every function here takes plain values and returns
//! plain values.

pub mod add_flow;
pub mod app_state;
pub mod carousel;
pub mod constants;
pub mod data;
pub mod display_order;
pub mod feelings;
pub mod find;
pub mod forms;
pub mod gestures;
pub mod models;
pub mod providers;
pub mod search_session;
pub mod settings;
pub mod sources;
pub mod storage;
pub mod text;
pub mod touch_gesture;
pub mod types;
pub mod undo;
pub mod utils;
