//! What the media edit page asks to confirm or warns about.

use vstd::prelude::*;
use vstd::string::*;
use crate::text::{decimal, push_decimal};

verus! {

/// The text `format!("{:?}", std::path::Path::new(path))` writes: the path
/// quoted, with special characters escaped.
pub uninterp spec fn spec_debug_path(path: Seq<char>) -> Seq<char>;

/// Formats a path with `Debug`, as `std` does. The text is a function of the
/// path alone.
#[verifier::external_body]
pub(crate) fn debug_path(path: &str) -> (res: String)
    ensures
        res@ == spec_debug_path(path@),
{
    format!("{:?}", std::path::Path::new(path))
}

/// An action the media edit page asks the user to confirm.
pub enum ConfirmKind {
    /// Use `path` as the directory of the next chapter.
    SwitchToNextChapter { path: String },
    /// The chapter has `episodes_on_disk` episodes; move to the next chapter.
    EpisodesOverflow { episodes_on_disk: usize },
}

impl ConfirmKind {
    pub fn switch_to_next_chapter(path: String) -> (res: ConfirmKind)
        ensures
            res == (ConfirmKind::SwitchToNextChapter { path }),
    {
        ConfirmKind::SwitchToNextChapter { path }
    }

    pub fn episode_overflow(episodes_on_disk: usize) -> (res: ConfirmKind)
        ensures
            res == (ConfirmKind::EpisodesOverflow { episodes_on_disk }),
    {
        ConfirmKind::EpisodesOverflow { episodes_on_disk }
    }

    pub fn clone_kind(&self) -> (res: ConfirmKind)
        ensures
            res == *self,
    {
        match self {
            ConfirmKind::SwitchToNextChapter { path } => ConfirmKind::SwitchToNextChapter { path: path.clone() },
            ConfirmKind::EpisodesOverflow { episodes_on_disk } => ConfirmKind::EpisodesOverflow {
                episodes_on_disk: *episodes_on_disk,
            },
        }
    }

    pub open spec fn spec_message(&self) -> Seq<char> {
        match self {
            ConfirmKind::SwitchToNextChapter { path } => "Proposed path to next chapter: "@ + spec_debug_path(path@),
            ConfirmKind::EpisodesOverflow { episodes_on_disk } => "Seems like "@ + decimal(*episodes_on_disk as nat)
                + " episode is a last of it chapter. Switch to the next chapter?"@,
        }
    }

    /// The question shown to the user.
    pub fn message(&self) -> (res: String)
        ensures
            res@ == self.spec_message(),
    {
        match self {
            ConfirmKind::SwitchToNextChapter { path } => {
                let mut s = String::from_str("Proposed path to next chapter: ");
                let quoted = debug_path(path.as_str());
                s.append(quoted.as_str());
                s
            },
            ConfirmKind::EpisodesOverflow { episodes_on_disk } => {
                let mut s = String::from_str("Seems like ");
                push_decimal(&mut s, *episodes_on_disk as u64);
                s.append(" episode is a last of it chapter. Switch to the next chapter?");
                s
            },
        }
    }
}

/// What the media edit page warns about.
#[derive(PartialEq, Eq, Structural)]
pub enum WarningKind {
    NameUsed,
    WrongChapterPath,
}

impl WarningKind {
    pub open spec fn spec_message(&self) -> Seq<char> {
        match self {
            WarningKind::NameUsed => "Name must be unique"@,
            WarningKind::WrongChapterPath => "Wrong chapter path"@,
        }
    }

    /// The text of the warning.
    pub fn message(&self) -> (res: String)
        ensures
            res@ == self.spec_message(),
    {
        match self {
            WarningKind::NameUsed => String::from_str("Name must be unique"),
            WarningKind::WrongChapterPath => String::from_str("Wrong chapter path"),
        }
    }
}

} // verus!
