//! The decision logic of the application's screens and dialogs.

pub mod dialog;
pub mod loading;
pub mod page;
pub mod app;
pub mod series_edit;
