//! A day-by-day todo tracker: the entity model, the dense position ordering
//! of each list, the day lifecycle and the screen navigation, all verified,
//! on top of an SQLite store reached through `rusqlite`.

pub mod store;
pub mod app;
pub mod daily;
pub mod day;
pub mod keys;
pub mod laws;
pub mod ordering;
pub mod stats;
pub mod text;
pub mod todo;
pub mod ui;
