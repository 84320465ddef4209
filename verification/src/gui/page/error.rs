//! The page showing an error.

use vstd::prelude::*;
use crate::error::Error;
use crate::gui::dialog::IDialog;

verus! {

/// The user dismissed the error; `fatal` tells whether the application
/// closes.
pub enum Msg {
    OkPressed { fatal: bool },
}

/// Shows an error.
pub struct ErrorPage {
    pub error: Error,
}

/// The error page, as a screen.
pub type ErrorScreen = ErrorPage;

impl ErrorPage {
    pub fn from_error(error: Error) -> (res: ErrorPage)
        ensures
            res.error == error,
    {
        ErrorPage { error }
    }

    /// The message the page's button sends.
    pub fn ok_message(&self) -> (res: Msg)
        ensures
            res == (Msg::OkPressed { fatal: self.error.critical }),
    {
        Msg::OkPressed { fatal: self.error.critical }
    }

    /// The text of the error.
    pub fn body(&self) -> (res: String)
        ensures
            res@ == self.error.kind.spec_message(),
    {
        self.error.message()
    }
}

impl IDialog for ErrorPage {
    open spec fn spec_title(&self) -> Seq<char> {
        if self.error.critical { "Fatal error"@ } else { "Error"@ }
    }

    fn title(&self) -> (res: String) {
        if self.error.critical {
            String::from_str("Fatal error")
        } else {
            String::from_str("Error")
        }
    }
}

} // verus!
