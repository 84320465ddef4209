//! A warning shown above a page until the user closes it.

use vstd::prelude::*;
use crate::gui::dialog::{Dialog, HaveKind, IDialog};

verus! {

pub enum Msg {
    Close,
}

/// Warns about what `kind` describes.
pub struct WarningPage<T> {
    pub kind: T,
}

impl<T> WarningPage<T> {
    pub open spec fn spec_new(kind: T) -> WarningPage<T> {
        WarningPage { kind }
    }

    pub fn new(kind: T) -> (res: WarningPage<T>)
        ensures
            res == Self::spec_new(kind),
    {
        WarningPage { kind }
    }
}

impl<T> HaveKind for WarningPage<T> {
    type Kind = T;

    open spec fn spec_kind(&self) -> T {
        self.kind
    }

    fn kind(&self) -> (res: &T) {
        &self.kind
    }
}

impl<T> IDialog for WarningPage<T> {
    open spec fn spec_title(&self) -> Seq<char> {
        "Warning"@
    }

    fn title(&self) -> (res: String) {
        String::from_str("Warning")
    }
}

/// The warning of a page.
pub type WarningDlg<T> = Dialog<WarningPage<T>>;

/// The warning page, as a screen.
pub type WarningScrn<T> = WarningPage<T>;

pub type WarningScreen<T> = WarningPage<T>;

/// A warning shown for `kind`.
pub fn warning_dialog<T>(kind: T) -> (res: WarningDlg<T>)
    ensures
        res@ == Some(WarningPage::spec_new(kind)),
{
    Dialog::new(WarningPage::new(kind))
}

impl<T> From<T> for WarningPage<T> {
    /// The page for `value`.
    fn from(value: T) -> (res: WarningPage<T>) {
        WarningPage::new(value)
    }
}

impl<T> vstd::std_specs::convert::FromSpecImpl<T> for WarningPage<T> {
    open spec fn obeys_from_spec() -> bool {
        true
    }

    open spec fn from_spec(v: T) -> WarningPage<T> {
        WarningPage { kind: v }
    }
}

impl<T> Dialog<WarningPage<T>> {
    /// The dialog shown for `kind`.
    pub fn from_kind(kind: T) -> (res: WarningDlg<T>)
        ensures
            res@ == Some(WarningPage::spec_new(kind)),
    {
        Dialog::new(WarningPage::from(kind))
    }
}

} // verus!
