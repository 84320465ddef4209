//! What the application asks to confirm, and what it waits for.

use vstd::prelude::*;
use vstd::string::*;
use crate::gui::loading::LoadingKind as LoadingKindTrait;

verus! {

/// An action the application asks the user to confirm.
pub enum ConfirmKind {
    DeleteMedia { name: String, id: usize },
}

/// What a confirmation is about: the name and the position of the media.
pub enum ConfirmKindView {
    DeleteMedia { name: Seq<char>, id: nat },
}

impl View for ConfirmKind {
    type V = ConfirmKindView;

    open spec fn view(&self) -> ConfirmKindView {
        match self {
            ConfirmKind::DeleteMedia { name, id } => ConfirmKindView::DeleteMedia { name: name@, id: *id as nat },
        }
    }
}

impl ConfirmKind {
    pub open spec fn spec_message(&self) -> Seq<char> {
        match self {
            ConfirmKind::DeleteMedia { name, .. } => "You actually want to delete media \""@ + name@
                + "\" from the list?"@,
        }
    }

    /// The question shown to the user.
    pub fn message(&self) -> (res: String)
        ensures
            res@ == self.spec_message(),
    {
        match self {
            ConfirmKind::DeleteMedia { name, .. } => {
                let mut s = String::from_str("You actually want to delete media \"");
                s.append(name.as_str());
                s.append("\" from the list?");
                s
            },
        }
    }
}

/// What the application loads in the background.
#[derive(PartialEq, Eq, Structural)]
pub enum LoadingKind {
    ReadMedia,
}

impl LoadingKindTrait for LoadingKind {
    fn same_kind(&self, other: &Self) -> (res: bool) {
        *self == *other
    }
}

} // verus!
