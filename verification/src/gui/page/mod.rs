//! The pages of the application: each keeps its state and decides what a
//! message does to it.

pub mod confirm;
pub mod error;
pub mod warning;
pub mod media_edit;
pub mod main;
