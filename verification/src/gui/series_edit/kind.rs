//! What the series edit screen asks to confirm or warns about.

use vstd::prelude::*;
use vstd::string::*;
use crate::gui::page::media_edit::kind::{debug_path, spec_debug_path};
use crate::text::{decimal, push_decimal};

verus! {

/// An action the series edit screen asks the user to confirm.
pub enum ConfirmKind {
    /// Use `next_season_path` as the directory of the next season.
    SwitchToNextSeason { next_season_path: String },
    /// The season has `series_on_disk` episodes; move to the next season.
    EpisodesOverflow { series_on_disk: usize },
}

impl ConfirmKind {
    pub fn switch_to_next_season(next_season_path: String) -> (res: ConfirmKind)
        ensures
            res == (ConfirmKind::SwitchToNextSeason { next_season_path }),
    {
        ConfirmKind::SwitchToNextSeason { next_season_path }
    }

    pub fn episode_overflow(series_on_disk: usize) -> (res: ConfirmKind)
        ensures
            res == (ConfirmKind::EpisodesOverflow { series_on_disk }),
    {
        ConfirmKind::EpisodesOverflow { series_on_disk }
    }

    pub fn clone_kind(&self) -> (res: ConfirmKind)
        ensures
            res == *self,
    {
        match self {
            ConfirmKind::SwitchToNextSeason { next_season_path } => ConfirmKind::SwitchToNextSeason {
                next_season_path: next_season_path.clone(),
            },
            ConfirmKind::EpisodesOverflow { series_on_disk } => ConfirmKind::EpisodesOverflow {
                series_on_disk: *series_on_disk,
            },
        }
    }

    pub open spec fn spec_message(&self) -> Seq<char> {
        match self {
            ConfirmKind::SwitchToNextSeason { next_season_path } => "Proposed path to next season: "@
                + spec_debug_path(next_season_path@),
            ConfirmKind::EpisodesOverflow { series_on_disk } => "Seems like "@ + decimal(*series_on_disk as nat)
                + " episode is a last of it season. Switch to the next season?"@,
        }
    }

    /// The question shown to the user.
    pub fn message(&self) -> (res: String)
        ensures
            res@ == self.spec_message(),
    {
        match self {
            ConfirmKind::SwitchToNextSeason { next_season_path } => {
                let mut s = String::from_str("Proposed path to next season: ");
                let quoted = debug_path(next_season_path.as_str());
                s.append(quoted.as_str());
                s
            },
            ConfirmKind::EpisodesOverflow { series_on_disk } => {
                let mut s = String::from_str("Seems like ");
                push_decimal(&mut s, *series_on_disk as u64);
                s.append(" episode is a last of it season. Switch to the next season?");
                s
            },
        }
    }
}

/// What the series edit screen warns about.
#[derive(PartialEq, Eq, Structural)]
pub enum WarningKind {
    SeasonCanNotBeZero,
    EpisodeCanNotBeZero,
    NameUsed,
    WrongSeasonPath,
}

impl WarningKind {
    pub open spec fn spec_message(&self) -> Seq<char> {
        match self {
            WarningKind::SeasonCanNotBeZero => "Season can not be zero"@,
            WarningKind::EpisodeCanNotBeZero => "Episode can not be zero"@,
            WarningKind::NameUsed => "Name must be unique"@,
            WarningKind::WrongSeasonPath => "Wrong season path"@,
        }
    }

    /// The text of the warning.
    pub fn message(&self) -> (res: String)
        ensures
            res@ == self.spec_message(),
    {
        match self {
            WarningKind::SeasonCanNotBeZero => String::from_str("Season can not be zero"),
            WarningKind::EpisodeCanNotBeZero => String::from_str("Episode can not be zero"),
            WarningKind::NameUsed => String::from_str("Name must be unique"),
            WarningKind::WrongSeasonPath => String::from_str("Wrong season path"),
        }
    }
}

} // verus!
