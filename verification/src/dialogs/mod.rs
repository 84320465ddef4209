//! The dialogs of the serial tracker: the list of serials, the edit dialog
//! and the error dialog.

pub mod error_dialog;
pub mod main_window;
pub mod serial_edit_dialog;

use vstd::prelude::*;
use error_dialog::ErrorDialog;
use main_window::MainWindow;
use serial_edit_dialog::{Kind, Serial, SerialEditDialog, SerialEditDialogView, SerialError};

verus! {

/// The dialog shown.
pub enum Dialog {
    MainWindow(MainWindow),
    SerialChange(SerialEditDialog),
    Error(ErrorDialog),
}

impl Dialog {
    /// The list of `media`.
    pub fn main_window(media: Vec<Serial>) -> (res: Dialog)
        ensures
            res matches Dialog::MainWindow(w) && w.serials() == media@,
    {
        Dialog::MainWindow(MainWindow::new(media))
    }

    /// The dialog adding a new serial.
    pub fn add_serial() -> (res: Result<Dialog, SerialError>)
        ensures
            res matches Ok(Dialog::SerialChange(d))
                && d@ == (SerialEditDialogView { kind: Kind::New, name: Seq::empty(), season: 1, seria: 1 }),
    {
        match SerialEditDialog::new() {
            Ok(d) => Ok(Dialog::SerialChange(d)),
            Err(e) => Err(e),
        }
    }

    /// The dialog changing `serial`, at `id`.
    pub fn change_serial(serial: &Serial, id: usize) -> (res: Dialog)
        requires
            serial.current_season >= 1,
            serial.current_seria >= 1,
        ensures
            res matches Dialog::SerialChange(d) && d@ == (SerialEditDialogView {
                kind: Kind::Change { id },
                name: serial.name@,
                season: serial.current_season,
                seria: serial.current_seria,
            }),
    {
        Dialog::SerialChange(SerialEditDialog::change(serial, id))
    }

    /// The dialog showing `message`.
    pub fn error(message: String) -> (res: Dialog)
        ensures
            res matches Dialog::Error(d) && d.text() == message@,
    {
        Dialog::Error(ErrorDialog::new(message))
    }
}

} // verus!
