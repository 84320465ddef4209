//! The page asking the user to confirm an action.

use vstd::prelude::*;
use crate::gui::dialog::{Dialog, HaveKind, IDialog};

verus! {

/// The user's answer.
pub enum Msg {
    Confirm,
    Cancel,
}

/// Asks to confirm the action described by `kind`.
pub struct ConfirmPage<T> {
    pub kind: T,
}

impl<T> ConfirmPage<T> {
    pub open spec fn spec_new(kind: T) -> ConfirmPage<T> {
        ConfirmPage { kind }
    }

    pub fn new(kind: T) -> (res: ConfirmPage<T>)
        ensures
            res == Self::spec_new(kind),
    {
        ConfirmPage { kind }
    }
}

impl<T> HaveKind for ConfirmPage<T> {
    type Kind = T;

    open spec fn spec_kind(&self) -> T {
        self.kind
    }

    fn kind(&self) -> (res: &T) {
        &self.kind
    }
}

impl<T> IDialog for ConfirmPage<T> {
    open spec fn spec_title(&self) -> Seq<char> {
        "Delte media"@
    }

    fn title(&self) -> (res: String) {
        String::from_str("Delte media")
    }
}

/// The confirmation dialog of a page.
pub type ConfirmDlg<T> = Dialog<ConfirmPage<T>>;

/// The confirmation page, as a screen.
pub type ConfirmScrn<T> = ConfirmPage<T>;

/// A confirmation dialog shown for `kind`.
pub fn confirm_dialog<T>(kind: T) -> (res: ConfirmDlg<T>)
    ensures
        res@ == Some(ConfirmPage::spec_new(kind)),
{
    Dialog::new(ConfirmPage::new(kind))
}

impl<T> From<T> for ConfirmPage<T> {
    /// The page for `value`.
    fn from(value: T) -> (res: ConfirmPage<T>) {
        ConfirmPage::new(value)
    }
}

impl<T> vstd::std_specs::convert::FromSpecImpl<T> for ConfirmPage<T> {
    open spec fn obeys_from_spec() -> bool {
        true
    }

    open spec fn from_spec(v: T) -> ConfirmPage<T> {
        ConfirmPage { kind: v }
    }
}

impl<T> Dialog<ConfirmPage<T>> {
    /// The dialog shown for `kind`.
    pub fn from_kind(kind: T) -> (res: ConfirmDlg<T>)
        ensures
            res@ == Some(ConfirmPage::spec_new(kind)),
    {
        Dialog::new(ConfirmPage::from(kind))
    }
}

} // verus!
