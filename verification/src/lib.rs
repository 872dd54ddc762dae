//! Subtitle tracks: positional change tracking between versions of a track,
//! caption extraction from third-party transcript markup, export, and the
//! decisions of the track store.

pub mod bridge;
pub mod entry;
pub mod export;
pub mod captions;
pub mod diff;
pub mod percent;
pub mod records;
pub mod scraper;
pub mod settings;
pub mod status;
pub mod store;
pub mod store_model;
pub mod text;
pub mod timecode;
pub mod users;
pub mod web;
