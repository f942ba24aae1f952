//! Core logic of a music library player: the playback queue, advanced track
//! search over tags, and the in-memory track/tag index.
pub mod constants;
pub mod fx;
pub mod util;
pub mod playback;
pub mod search;
pub mod tag;
pub mod traits;
pub mod event;
pub mod outcome;
pub mod ui;
