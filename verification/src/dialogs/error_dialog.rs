//! The dialog showing an error.

use vstd::prelude::*;
use vstd::string::*;

verus! {

pub enum Message {
    OkPressed,
}

/// Shows an error message.
pub struct ErrorDialog {
    message: String,
}

impl ErrorDialog {
    pub fn new(message: String) -> (res: ErrorDialog)
        ensures
            res.text() == message@,
    {
        ErrorDialog { message }
    }

    pub closed spec fn text(&self) -> Seq<char> {
        self.message@
    }

    /// The line shown: the message after "Error: ".
    pub fn body(&self) -> (res: String)
        ensures
            res@ == "Error: "@ + self.text(),
    {
        let mut s = String::from_str("Error: ");
        s.append(self.message.as_str());
        s
    }
}

} // verus!
