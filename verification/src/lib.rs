//! Verified core of a media watch-progress tracker: the media model, the
//! episode lists read from a chapter directory, the media list with its
//! name rules, and the decision logic of the application's screens.

pub mod text;
pub mod media;
pub mod sort;
pub mod error;
pub mod episode;
pub mod episode_list;
pub mod media_list;
pub mod search;
pub mod utils;
pub mod gui;
pub mod config;
pub mod dialogs;
