//! What can happen on the media edit page.

use vstd::prelude::*;
use crate::episode_list::EpisodeList;
use crate::error::ErrorKind;
use crate::gui::page::confirm::Msg as ConfirmPageMsg;
use crate::gui::page::warning::Msg as WarningPageMsg;

verus! {

/// A message to the media edit page: a user action, or the answer to an
/// effect the page asked for.
pub enum Msg {
    Back,
    Delete(usize),
    Watch { path: String },
    NameChanged(String),
    /// The file of the media has moved for its rename to this name.
    MediaFileMoved(String),
    ChapterChanged(u8),
    EpisodeChanged(u8),
    ChapterPathChanged(String),
    ChapterPathSelect,
    /// The folder the user picked, as a URL.
    ChapterPathSelected(String),
    OpenChapterDirectory,
    /// The chapter directory to open is not a directory.
    ChapterDirectoryMissing,
    ConfirmScreen(ConfirmPageMsg),
    Warning(WarningPageMsg),
    OpenDialogCanceled,
    OpenDialogError(String),
    NextChapterPath(Result<String, ErrorKind>),
    EpisodeListLoaded(Result<EpisodeList, ErrorKind>),
    CheckOverflow(Result<EpisodeList, ErrorKind>),
}

impl Msg {
    pub fn watch(path: String) -> (res: Msg)
        ensures
            res == (Msg::Watch { path }),
    {
        Msg::Watch { path }
    }
}

} // verus!
