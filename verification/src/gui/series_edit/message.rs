//! What can happen on the series edit screen.

use vstd::prelude::*;
use crate::episode_list::Episodes;
use crate::error::ErrorKind;
use crate::gui::page::confirm::Msg as ConfirmPageMsg;
use crate::gui::page::warning::Msg as WarningPageMsg;

verus! {

/// A message to the series edit screen: a user action, or the answer to
/// work the screen asked for.
pub enum Message {
    Back,
    Delete(usize),
    Watch { path: String },
    NameChanged(String),
    /// The file of the series has moved for its rename to this name.
    FileMoved(String),
    /// The text of the season field.
    SeasonChanged(String),
    /// The text of the episode field.
    EpisodeChanged(String),
    SeasonPathChanged(String),
    SeasonPathSelect,
    /// The folder the user picked.
    SeasonPathSelected(String),
    SeasonInc,
    SeasonDec,
    EpisodeInc,
    EpisodeDec,
    OpenSeasonDirectory,
    /// The season directory to open is not a directory.
    SeasonDirectoryMissing,
    ConfirmScreen(ConfirmPageMsg),
    Warning(WarningPageMsg),
    NextSeasonPath(Result<String, ErrorKind>),
    EpisodesLoaded(Result<Episodes, ErrorKind>),
}

} // verus!
