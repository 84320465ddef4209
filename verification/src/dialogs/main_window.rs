//! The window listing the serials.

use vstd::prelude::*;
use crate::dialogs::serial_edit_dialog::Serial;

verus! {

pub enum Message {
    AddSerial,
    ChangeSerial(usize),
}

/// Lists the serials, each with a button to change it.
pub struct MainWindow {
    media: Vec<Serial>,
}

impl MainWindow {
    pub fn new(media: Vec<Serial>) -> (res: MainWindow)
        ensures
            res.serials() == media@,
    {
        MainWindow { media }
    }

    pub closed spec fn serials(&self) -> Seq<Serial> {
        self.media@
    }

    /// The message of the button next to the serial at `id`.
    pub fn change_message(&self, id: usize) -> (res: Option<Message>)
        ensures
            id < self.serials().len() ==> res == Some(Message::ChangeSerial(id)),
            id >= self.serials().len() ==> res is None,
    {
        if id < self.media.len() {
            Some(Message::ChangeSerial(id))
        } else {
            None
        }
    }
}

} // verus!
