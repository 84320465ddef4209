//! What can happen in the application.

use vstd::prelude::*;
use crate::error::ErrorKind;
use crate::gui::page::confirm::Msg as ConfirmPageMsg;
use crate::gui::page::error::Msg as ErrorPageMsg;
use crate::gui::page::main::Msg as MainPageMsg;
use crate::gui::page::media_edit::message::Msg as MediaEditPageMsg;
use crate::media::Media;
use crate::media_list::MediaList;

verus! {

/// A message to the application.
pub enum Msg {
    MainScreen(MainPageMsg),
    MediaEditScreen(MediaEditPageMsg),
    ConfirmScreen(ConfirmPageMsg),
    ErrorScreen(ErrorPageMsg),
    /// The media read from the data directory, and the error met while
    /// reading, if any.
    MediaLoaded(MediaList, Option<ErrorKind>),
    SelectMedia(String),
    CreateMedia,
    Loading,
    /// The files of the data directory, listed to name a new media.
    MediaDirListed(Result<Vec<String>, ErrorKind>),
    /// The file of a new media is written.
    MediaCreated(Media),
    /// Work done for the application failed.
    EffectFailed(ErrorKind),
}

} // verus!
