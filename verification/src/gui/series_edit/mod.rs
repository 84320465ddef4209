//! The screen where the user edits one series: its name, the season and
//! episode reached, and the season's directory.

pub mod kind;
pub mod message;

use vstd::prelude::*;
use vstd::string::*;
use crate::episode_list::Episodes;
use crate::error::ErrorKind;
use crate::gui::dialog::Dialog;
use crate::gui::page::confirm::{ConfirmDlg, Msg as ConfirmPageMsg};
use crate::gui::page::media_edit::{Effect, EffectView, LoadedEpisodesView, effect_views, episodes_count, result_view};
use crate::gui::page::warning::{WarningDlg, Msg as WarningPageMsg};
use crate::media::{MediaView, spec_renamed};
use crate::media_list::{MediaList, counters_positive, name_used, name_used_by_other};
use crate::text::{parse_nonzero_u8, spec_parse_nonzero_u8};
use kind::{ConfirmKind, WarningKind};
use message::Message;

verus! {

/// The episodes of the season, as far as they are known.
pub enum SeasonEpisodes {
    Loading,
    Loaded(Episodes),
    Failed(ErrorKind),
}

impl View for SeasonEpisodes {
    type V = LoadedEpisodesView;

    open spec fn view(&self) -> LoadedEpisodesView {
        match self {
            SeasonEpisodes::Loading => LoadedEpisodesView::Loading,
            SeasonEpisodes::Loaded(l) => LoadedEpisodesView::Loaded(l@),
            SeasonEpisodes::Failed(e) => LoadedEpisodesView::Failed(*e),
        }
    }
}

/// The episodes an answer brings.
pub open spec fn season_episodes_view(r: Result<Episodes, ErrorKind>) -> LoadedEpisodesView {
    match r {
        Ok(l) => LoadedEpisodesView::Loaded(l@),
        Err(e) => LoadedEpisodesView::Failed(e),
    }
}

/// What the series edit screen shows besides the series itself.
pub struct SeriesEditScreenView {
    pub confirm: Option<ConfirmKind>,
    pub warning: Option<WarningKind>,
    pub series_id: nat,
    pub episodes: LoadedEpisodesView,
    pub buffer_name: Seq<char>,
}

/// The screen where the user edits the series at `editable_series_id` of a
/// list of series. A series is kept as a media: its season is the chapter
/// and its season directory the chapter directory.
pub struct SeriesEditScreen {
    confirm_screen: ConfirmDlg<ConfirmKind>,
    warning: WarningDlg<WarningKind>,
    editable_series_id: usize,
    episodes: SeasonEpisodes,
    buffer_name: String,
}

impl View for SeriesEditScreen {
    type V = SeriesEditScreenView;

    closed spec fn view(&self) -> SeriesEditScreenView {
        SeriesEditScreenView {
            confirm: match self.confirm_screen@ {
                Some(p) => Some(p.kind),
                None => None,
            },
            warning: match self.warning@ {
                Some(p) => Some(p.kind),
                None => None,
            },
            series_id: self.editable_series_id as nat,
            episodes: self.episodes@,
            buffer_name: self.buffer_name@,
        }
    }
}

/// A screen state, the list of series and what the screen answers.
pub type SeriesOutcome = (SeriesEditScreenView, Seq<MediaView>, Result<Seq<EffectView>, ErrorKind>);

/// The screen opened for the series at `id`: no dialog, the episodes
/// loading, and the name of the series in the name field.
pub open spec fn new_screen_view(list: Seq<MediaView>, id: int) -> SeriesEditScreenView {
    SeriesEditScreenView {
        confirm: None,
        warning: None,
        series_id: id as nat,
        episodes: LoadedEpisodesView::Loading,
        buffer_name: list[id].name,
    }
}

/// The series gets the season directory `p`: it is saved and the episodes
/// of `p` are read.
pub open spec fn series_set_season_path(s: SeriesEditScreenView, list: Seq<MediaView>, p: Seq<char>) -> SeriesOutcome {
    let id = s.series_id as int;
    (
        s,
        list.update(id, MediaView { chapter_path: p, ..list[id] }),
        Ok(seq![EffectView::SaveMedia { id: s.series_id }, EffectView::LoadEpisodes { chapter_path: p }]),
    )
}

/// The series gets the season `v`, and is saved.
pub open spec fn series_set_season(s: SeriesEditScreenView, list: Seq<MediaView>, v: nat) -> SeriesOutcome {
    let id = s.series_id as int;
    (s, list.update(id, MediaView { chapter: v, ..list[id] }), Ok(seq![EffectView::SaveMedia { id: s.series_id }]))
}

/// The series gets the episode `v`, and is saved.
pub open spec fn series_store_episode(s: SeriesEditScreenView, list: Seq<MediaView>, v: nat) -> SeriesOutcome {
    let id = s.series_id as int;
    (s, list.update(id, MediaView { episode: v, ..list[id] }), Ok(seq![EffectView::SaveMedia { id: s.series_id }]))
}

/// The user moves the series to episode `v`. Going back, or a series with no
/// season directory, just stores it; going forward waits for the episodes
/// to be known and asks to switch season when the season has fewer.
pub open spec fn series_set_episode(s: SeriesEditScreenView, list: Seq<MediaView>, v: nat) -> SeriesOutcome {
    let m = list[s.series_id as int];
    if m.chapter_path.len() == 0 || v <= m.episode {
        series_store_episode(s, list, v)
    } else {
        match episodes_count(s.episodes) {
            None => (s, list, Ok(Seq::empty())),
            Some(c) => if c < v {
                (
                    SeriesEditScreenView { confirm: Some(ConfirmKind::EpisodesOverflow { series_on_disk: c as usize }), ..s },
                    list,
                    Ok(Seq::empty()),
                )
            } else {
                series_store_episode(s, list, v)
            },
        }
    }
}

/// The series moves to the next season (staying at 255 there) at episode 1;
/// when it has a season directory the next directory is looked for.
pub open spec fn series_increase_season(s: SeriesEditScreenView, list: Seq<MediaView>) -> SeriesOutcome {
    let id = s.series_id as int;
    let m = list[id];
    let next: nat = if m.chapter < 255 { m.chapter + 1 } else { 255 };
    let saves = seq![EffectView::SaveMedia { id: s.series_id }, EffectView::SaveMedia { id: s.series_id }];
    (
        s,
        list.update(id, MediaView { episode: 1, chapter: next, ..m }),
        Ok(
            if m.chapter_path.len() == 0 {
                saves
            } else {
                saves.push(EffectView::FindNextChapterPath { chapter_path: m.chapter_path })
            },
        ),
    )
}

/// What a message does to the screen and to the list of series, and what
/// the screen answers.
pub open spec fn series_edit_step(s: SeriesEditScreenView, list: Seq<MediaView>, msg: Message) -> SeriesOutcome {
    let id = s.series_id as int;
    let m = list[id];
    let none = Ok(Seq::<EffectView>::empty());
    match msg {
        Message::Back => (s, list, none),
        Message::Delete(_) => (s, list, none),
        Message::Watch { .. } => (s, list, none),
        Message::NameChanged(v) => {
            let s1 = SeriesEditScreenView { buffer_name: v@, ..s };
            if name_used(list, v@) {
                (SeriesEditScreenView { warning: Some(WarningKind::NameUsed), ..s1 }, list, none)
            } else {
                let warning = if s.warning == Some(WarningKind::NameUsed) { None } else { s.warning };
                (
                    SeriesEditScreenView { warning, ..s1 },
                    list,
                    Ok(seq![EffectView::MoveMediaFile { from: m.dest_path, to: spec_renamed(m, v@).dest_path, name: v@ }]),
                )
            }
        },
        Message::FileMoved(v) => if name_used_by_other(list, id, v@) {
            (s, list, Err(ErrorKind::MediaNameIsUsed { name: v }))
        } else {
            (s, list.update(id, spec_renamed(m, v@)), Ok(seq![EffectView::SaveMedia { id: s.series_id }]))
        },
        Message::SeasonChanged(v) => if v@.len() == 0 {
            series_set_season(s, list, 1)
        } else {
            match spec_parse_nonzero_u8(v@) {
                Some(n) => series_set_season(s, list, n as nat),
                None => (s, list, none),
            }
        },
        Message::EpisodeChanged(v) => if v@.len() == 0 {
            series_store_episode(s, list, 1)
        } else {
            match spec_parse_nonzero_u8(v@) {
                Some(n) => series_set_episode(s, list, n as nat),
                None => (s, list, none),
            }
        },
        Message::SeasonPathChanged(v) => series_set_season_path(s, list, v@),
        Message::SeasonPathSelect => (s, list, Ok(seq![EffectView::SelectChapterFolder])),
        Message::SeasonPathSelected(v) => series_set_season_path(s, list, v@),
        Message::SeasonInc => series_increase_season(s, list),
        Message::SeasonDec => if m.chapter <= 1 {
            (SeriesEditScreenView { warning: Some(WarningKind::SeasonCanNotBeZero), ..s }, list, none)
        } else {
            series_set_season(s, list, (m.chapter - 1) as nat)
        },
        Message::EpisodeInc => series_set_episode(s, list, if m.episode < 255 { m.episode + 1 } else { 255 }),
        Message::EpisodeDec => if m.episode <= 1 {
            (SeriesEditScreenView { warning: Some(WarningKind::EpisodeCanNotBeZero), ..s }, list, none)
        } else {
            series_store_episode(s, list, (m.episode - 1) as nat)
        },
        Message::OpenSeasonDirectory => (s, list, Ok(seq![EffectView::OpenChapterDirectory { chapter_path: m.chapter_path }])),
        Message::SeasonDirectoryMissing => (
            SeriesEditScreenView { warning: Some(WarningKind::WrongSeasonPath), ..s },
            list,
            none,
        ),
        Message::ConfirmScreen(ConfirmPageMsg::Confirm) => match s.confirm {
            Some(ConfirmKind::SwitchToNextSeason { next_season_path }) => series_set_season_path(
                SeriesEditScreenView { confirm: None, ..s },
                list,
                next_season_path@,
            ),
            Some(ConfirmKind::EpisodesOverflow { .. }) => series_increase_season(
                SeriesEditScreenView { confirm: None, ..s },
                list,
            ),
            None => (s, list, none),
        },
        Message::ConfirmScreen(ConfirmPageMsg::Cancel) => (SeriesEditScreenView { confirm: None, ..s }, list, none),
        Message::Warning(WarningPageMsg::Close) => (SeriesEditScreenView { warning: None, ..s }, list, none),
        Message::NextSeasonPath(Ok(p)) => (
            SeriesEditScreenView { confirm: Some(ConfirmKind::SwitchToNextSeason { next_season_path: p }), ..s },
            list,
            none,
        ),
        Message::NextSeasonPath(Err(e)) => (s, list, Err(e)),
        Message::EpisodesLoaded(r) => (SeriesEditScreenView { episodes: season_episodes_view(r), ..s }, list, none),
    }
}

/// No message of the series edit screen moves a series to season 0 or to
/// episode 0.
pub proof fn lemma_series_edit_keeps_counters_positive(s: SeriesEditScreenView, list: Seq<MediaView>, msg: Message)
    requires
        s.series_id < list.len(),
        counters_positive(list),
    ensures
        counters_positive(series_edit_step(s, list, msg).1),
{
    let out = series_edit_step(s, list, msg).1;
    assert forall|i: int| 0 <= i < out.len() implies (#[trigger] out[i]).chapter >= 1 && out[i].episode >= 1 by {
        assert(list[i].chapter >= 1 && list[i].episode >= 1);
    }
}

/// The episode the watch button opens: the one the series is at, once the
/// episodes are read.
pub open spec fn spec_series_watch_path(s: SeriesEditScreenView, list: Seq<MediaView>) -> Option<Seq<char>> {
    match s.episodes {
        LoadedEpisodesView::Loaded(l) => Some(l[list[s.series_id as int].episode - 1]),
        _ => None,
    }
}

/// The line shown under the watch button: nothing without a season
/// directory, else the name of the current episode or what went wrong (for
/// an I/O error, only what the system said).
pub open spec fn spec_series_watch_sign(s: SeriesEditScreenView, list: Seq<MediaView>) -> Option<Seq<char>> {
    let m = list[s.series_id as int];
    if m.chapter_path.len() == 0 {
        None
    } else {
        match s.episodes {
            LoadedEpisodesView::Loading => Some("Loading..."@),
            LoadedEpisodesView::Failed(e) => Some(
                "Season path is incorrect: "@ + match e {
                    ErrorKind::FSIO { kind, .. } => kind@,
                    _ => e.spec_message(),
                },
            ),
            LoadedEpisodesView::Loaded(l) => Some(crate::episode::spec_episode_name(l[m.episode - 1])),
        }
    }
}

/// The edited series after a step, compared with before: the other series
/// are untouched and the edited one keeps its name and files.
pub open spec fn only_counters_of(list: Seq<MediaView>, list2: Seq<MediaView>, id: int) -> bool {
    &&& list2.len() == list.len()
    &&& list2[id].name == list[id].name
    &&& list2[id].chapter_path == list[id].chapter_path
    &&& list2[id].dest_path == list[id].dest_path
    &&& forall|j: int| 0 <= j < list.len() && j != id ==> list2[j] == list[j]
}

/// Going a season back from season 2 or later gives the season before,
/// keeps the episode and saves the series; from season 1 it only warns.
pub proof fn lemma_season_dec_goes_one_back(s: SeriesEditScreenView, list: Seq<MediaView>)
    requires
        s.series_id < list.len(),
    ensures
        ({
            let (s2, list2, r) = series_edit_step(s, list, Message::SeasonDec);
            let id = s.series_id as int;
            &&& list[id].chapter >= 2 ==> only_counters_of(list, list2, id) && list2[id].chapter == list[id].chapter - 1
                && list2[id].episode == list[id].episode && r == Ok::<Seq<EffectView>, ErrorKind>(
                seq![EffectView::SaveMedia { id: s.series_id }],
            )
            &&& list[id].chapter < 2 ==> list2 == list && s2.warning == Some(WarningKind::SeasonCanNotBeZero)
        }),
{
}

/// Going an episode back from episode 2 or later gives the episode before
/// and keeps the season; from episode 1 it only warns.
pub proof fn lemma_episode_dec_goes_one_back(s: SeriesEditScreenView, list: Seq<MediaView>)
    requires
        s.series_id < list.len(),
    ensures
        ({
            let (s2, list2, r) = series_edit_step(s, list, Message::EpisodeDec);
            let id = s.series_id as int;
            &&& list[id].episode >= 2 ==> only_counters_of(list, list2, id) && list2[id].episode == list[id].episode - 1
                && list2[id].chapter == list[id].chapter && r == Ok::<Seq<EffectView>, ErrorKind>(
                seq![EffectView::SaveMedia { id: s.series_id }],
            )
            &&& list[id].episode < 2 ==> list2 == list && s2.warning == Some(WarningKind::EpisodeCanNotBeZero)
        }),
{
}

/// Going a season forward moves to the next season (staying at 255 there)
/// at episode 1, and saves the series.
pub proof fn lemma_season_inc_goes_one_forward(s: SeriesEditScreenView, list: Seq<MediaView>)
    requires
        s.series_id < list.len(),
    ensures
        ({
            let (_, list2, r) = series_edit_step(s, list, Message::SeasonInc);
            let id = s.series_id as int;
            &&& only_counters_of(list, list2, id)
            &&& list[id].chapter < 255 ==> list2[id].chapter == list[id].chapter + 1
            &&& list[id].chapter >= 255 ==> list2[id].chapter == 255
            &&& list2[id].episode == 1
            &&& r matches Ok(e)
            &&& e.len() >= 2
            &&& e[0] == EffectView::SaveMedia { id: s.series_id }
        }),
{
}

/// Going an episode forward with no season directory, or within the
/// episodes read, gives the next episode (staying at 255 there).
pub proof fn lemma_episode_inc_goes_one_forward(s: SeriesEditScreenView, list: Seq<MediaView>)
    requires
        s.series_id < list.len(),
        list[s.series_id as int].chapter_path.len() == 0 || (s.episodes matches LoadedEpisodesView::Loaded(l)
            && list[s.series_id as int].episode < l.len()),
    ensures
        ({
            let (_, list2, r) = series_edit_step(s, list, Message::EpisodeInc);
            let id = s.series_id as int;
            &&& only_counters_of(list, list2, id)
            &&& list2[id].chapter == list[id].chapter
            &&& list[id].episode < 255 ==> list2[id].episode == list[id].episode + 1
            &&& r == Ok::<Seq<EffectView>, ErrorKind>(seq![EffectView::SaveMedia { id: s.series_id }])
        }),
{
}

/// A typed season that reads as a number from 1 to 255 becomes the season;
/// an empty field gives season 1; other text changes nothing.
pub proof fn lemma_typed_season_is_stored(s: SeriesEditScreenView, list: Seq<MediaView>, v: String)
    requires
        s.series_id < list.len(),
    ensures
        ({
            let (_, list2, _) = series_edit_step(s, list, Message::SeasonChanged(v));
            let id = s.series_id as int;
            &&& v@.len() == 0 ==> only_counters_of(list, list2, id) && list2[id].chapter == 1
            &&& v@.len() > 0 ==> match spec_parse_nonzero_u8(v@) {
                Some(n) => only_counters_of(list, list2, id) && list2[id].chapter == n
                    && list2[id].episode == list[id].episode,
                None => list2 == list,
            }
        }),
{
}

/// A name that some series has, the edited one included, is refused with a
/// warning and renames nothing; any other name moves the file of the
/// edited series first, keeping the list as it is.
pub proof fn lemma_used_series_name_is_refused(s: SeriesEditScreenView, list: Seq<MediaView>, v: String)
    requires
        s.series_id < list.len(),
    ensures
        ({
            let (s2, list2, r) = series_edit_step(s, list, Message::NameChanged(v));
            &&& list2 == list
            &&& s2.buffer_name == v@
            &&& (exists|j: int| 0 <= j < list.len() && list[j].name == v@) ==> s2.warning == Some(WarningKind::NameUsed)
                && r == Ok::<Seq<EffectView>, ErrorKind>(Seq::empty())
            &&& list[s.series_id as int].name == v@ ==> s2.warning == Some(WarningKind::NameUsed)
            &&& (forall|j: int| 0 <= j < list.len() ==> list[j].name != v@) ==> (r matches Ok(e) && e.len() == 1
                && (e[0] matches EffectView::MoveMediaFile { name, .. } && name == v@))
        }),
{
}

impl SeriesEditScreen {
    /// The screen for the series at `editable_series_id`; it asks for the
    /// episodes of the season directory.
    pub fn new(media: &MediaList, editable_series_id: usize) -> (res: (SeriesEditScreen, Vec<Effect>))
        requires
            editable_series_id < media@.len(),
        ensures
            res.0@ == new_screen_view(media@, editable_series_id as int),
            effect_views(res.1@) == seq![
                EffectView::LoadEpisodes { chapter_path: media@[editable_series_id as int].chapter_path },
            ],
    {
        let series = media.get(editable_series_id);
        let screen = SeriesEditScreen {
            confirm_screen: Dialog::closed(),
            warning: Dialog::closed(),
            editable_series_id,
            episodes: SeasonEpisodes::Loading,
            buffer_name: String::from_str(series.name()),
        };
        let mut effects: Vec<Effect> = Vec::new();
        effects.push(Effect::LoadEpisodes { chapter_path: String::from_str(series.chapter_path()) });
        assert(effect_views(effects@) =~= seq![
            EffectView::LoadEpisodes { chapter_path: media@[editable_series_id as int].chapter_path },
        ]);
        (screen, effects)
    }

    /// The title of the screen: the name of the series.
    pub fn title(&self, media: &MediaList) -> (res: String)
        requires
            self@.series_id < media@.len(),
        ensures
            res@ == media@[self@.series_id as int].name,
    {
        String::from_str(media.get(self.editable_series_id).name())
    }

    /// The line shown under the watch button. The episode reached must be
    /// among the episodes read.
    pub fn watch_sign(&self, media: &MediaList) -> (res: Option<String>)
        requires
            self@.series_id < media@.len(),
            self@.episodes matches LoadedEpisodesView::Loaded(l) ==> media@[self@.series_id as int].episode - 1 < l.len(),
        ensures
            res matches Some(t) ==> spec_series_watch_sign(self@, media@) == Some(t@),
            res is None ==> spec_series_watch_sign(self@, media@) is None,
    {
        let series = media.get(self.editable_series_id);
        if !series.chapter_path_is_present() {
            return None;
        }
        let mut sign = String::from_str("Season path is incorrect: ");
        match &self.episodes {
            SeasonEpisodes::Loading => Some(String::from_str("Loading...")),
            SeasonEpisodes::Failed(e) => {
                match e {
                    ErrorKind::FSIO { kind, .. } => sign.append(kind.as_str()),
                    _ => {
                        let m = e.message();
                        sign.append(m.as_str());
                    },
                }
                Some(sign)
            },
            SeasonEpisodes::Loaded(l) => match l.get((series.episode() - 1) as usize) {
                Some(e) => Some(e.name()),
                None => None,
            },
        }
    }

    /// The message of the watch button: watch the episode the series is at,
    /// once the episodes are read. That episode must be among them.
    pub fn watch_message(&self, media: &MediaList) -> (res: Option<Message>)
        requires
            self@.series_id < media@.len(),
            self@.episodes matches LoadedEpisodesView::Loaded(l) ==> media@[self@.series_id as int].episode - 1 < l.len(),
        ensures
            res matches Some(m) ==> (m matches Message::Watch { path } && spec_series_watch_path(self@, media@) == Some(path@)),
            res is None ==> spec_series_watch_path(self@, media@) is None,
    {
        let series = media.get(self.editable_series_id);
        match &self.episodes {
            SeasonEpisodes::Loaded(l) => match l.get((series.episode() - 1) as usize) {
                Some(e) => Some(Message::Watch { path: String::from_str(e.path()) }),
                None => None,
            },
            _ => None,
        }
    }

    /// The message of the delete button: delete the edited series.
    pub fn delete_message(&self) -> (res: Message)
        ensures
            res matches Message::Delete(i) && i == self@.series_id,
    {
        Message::Delete(self.editable_series_id)
    }

    /// The text of the name field.
    pub fn buffer_name(&self) -> (res: &str)
        ensures
            res@ == self@.buffer_name,
    {
        self.buffer_name.as_str()
    }

    /// The position of the edited series in the list.
    pub fn editable_series_id(&self) -> (res: usize)
        ensures
            res == self@.series_id,
    {
        self.editable_series_id
    }

    /// The question of the confirmation dialog, when it is shown.
    pub fn confirm_message(&self) -> (res: Option<String>)
        ensures
            res matches Some(t) ==> (self@.confirm matches Some(k) && t@ == k.spec_message()),
            res is None ==> self@.confirm is None,
    {
        match self.confirm_screen.kind() {
            Some(k) => Some(k.message()),
            None => None,
        }
    }

    /// The text of the warning, when one is shown.
    pub fn warning_message(&self) -> (res: Option<String>)
        ensures
            res matches Some(t) ==> (self@.warning matches Some(k) && t@ == k.spec_message()),
            res is None ==> self@.warning is None,
    {
        match self.warning.kind() {
            Some(k) => Some(k.message()),
            None => None,
        }
    }

    fn save_effect(&self) -> (res: Vec<Effect>)
        ensures
            effect_views(res@) == seq![EffectView::SaveMedia { id: self@.series_id }],
    {
        let mut effects: Vec<Effect> = Vec::new();
        effects.push(Effect::SaveMedia { id: self.editable_series_id });
        assert(effect_views(effects@) =~= seq![EffectView::SaveMedia { id: self@.series_id }]);
        effects
    }

    fn set_season_path(&mut self, media: &mut MediaList, path: String) -> (res: Vec<Effect>)
        requires
            old(self)@.series_id < old(media)@.len(),
        ensures
            (final(self)@, final(media)@, Ok::<Seq<EffectView>, ErrorKind>(effect_views(res@)))
                == series_set_season_path(old(self)@, old(media)@, path@),
    {
        let id = self.editable_series_id;
        let ghost p = path@;
        let load = path.clone();
        media.set_chapter_path(id, path);
        let mut effects: Vec<Effect> = Vec::new();
        effects.push(Effect::SaveMedia { id });
        effects.push(Effect::LoadEpisodes { chapter_path: load });
        assert(effect_views(effects@) =~= seq![
            EffectView::SaveMedia { id: id as nat },
            EffectView::LoadEpisodes { chapter_path: p },
        ]);
        effects
    }

    fn set_season(&mut self, media: &mut MediaList, value: u8) -> (res: Vec<Effect>)
        requires
            old(self)@.series_id < old(media)@.len(),
            value >= 1,
        ensures
            (final(self)@, final(media)@, Ok::<Seq<EffectView>, ErrorKind>(effect_views(res@)))
                == series_set_season(old(self)@, old(media)@, value as nat),
    {
        media.set_chapter(self.editable_series_id, value);
        self.save_effect()
    }

    fn store_episode(&mut self, media: &mut MediaList, value: u8) -> (res: Vec<Effect>)
        requires
            old(self)@.series_id < old(media)@.len(),
            value >= 1,
        ensures
            (final(self)@, final(media)@, Ok::<Seq<EffectView>, ErrorKind>(effect_views(res@)))
                == series_store_episode(old(self)@, old(media)@, value as nat),
    {
        media.set_episode(self.editable_series_id, value);
        self.save_effect()
    }

    fn set_episode(&mut self, media: &mut MediaList, value: u8) -> (res: Vec<Effect>)
        requires
            old(self)@.series_id < old(media)@.len(),
            value >= 1,
        ensures
            (final(self)@, final(media)@, Ok::<Seq<EffectView>, ErrorKind>(effect_views(res@)))
                == series_set_episode(old(self)@, old(media)@, value as nat),
    {
        let series = media.get(self.editable_series_id);
        if !series.chapter_path_is_present() || value <= series.episode() {
            return self.store_episode(media, value);
        }
        let count = match &self.episodes {
            SeasonEpisodes::Loaded(l) => l.len(),
            _ => {
                let none: Vec<Effect> = Vec::new();
                assert(effect_views(none@) =~= Seq::<EffectView>::empty());
                return none;
            },
        };
        if count < value as usize {
            self.confirm_screen = crate::gui::page::confirm::confirm_dialog(ConfirmKind::episode_overflow(count));
            let none: Vec<Effect> = Vec::new();
            assert(effect_views(none@) =~= Seq::<EffectView>::empty());
            return none;
        }
        self.store_episode(media, value)
    }

    fn increase_season(&mut self, media: &mut MediaList) -> (res: Vec<Effect>)
        requires
            old(self)@.series_id < old(media)@.len(),
        ensures
            (final(self)@, final(media)@, Ok::<Seq<EffectView>, ErrorKind>(effect_views(res@)))
                == series_increase_season(old(self)@, old(media)@),
    {
        let id = self.editable_series_id;
        let mut effects: Vec<Effect> = Vec::new();
        media.set_episode(id, 1);
        effects.push(Effect::SaveMedia { id });
        let current = media.get(id).chapter();
        let next = if current < 255 { current + 1 } else { 255 };
        media.set_chapter(id, next);
        effects.push(Effect::SaveMedia { id });
        let ghost m = old(media)@[id as int];
        assert(media@ =~= old(media)@.update(id as int, MediaView { episode: 1, chapter: next as nat, ..m }));
        let series = media.get(id);
        if !series.chapter_path_is_present() {
            assert(effect_views(effects@) =~= seq![
                EffectView::SaveMedia { id: id as nat },
                EffectView::SaveMedia { id: id as nat },
            ]);
            return effects;
        }
        effects.push(Effect::FindNextChapterPath { chapter_path: String::from_str(series.chapter_path()) });
        assert(effect_views(effects@) =~= seq![
            EffectView::SaveMedia { id: id as nat },
            EffectView::SaveMedia { id: id as nat },
        ].push(EffectView::FindNextChapterPath { chapter_path: m.chapter_path }));
        effects
    }

    fn warning(&mut self, kind: WarningKind)
        ensures
            final(self)@ == (SeriesEditScreenView { warning: Some(kind), ..old(self)@ }),
    {
        self.warning = crate::gui::page::warning::warning_dialog(kind);
    }

    /// What `message` does to the screen and to the list of series; `Ok`
    /// holds the work the screen asks to be done.
    pub fn update(&mut self, media: &mut MediaList, message: Message) -> (res: Result<Vec<Effect>, ErrorKind>)
        requires
            old(self)@.series_id < old(media)@.len(),
        ensures
            (final(self)@, final(media)@, result_view(res)) == series_edit_step(old(self)@, old(media)@, message),
    {
        let mut effects: Vec<Effect> = Vec::new();
        proof {
            assert(effect_views(effects@) =~= Seq::<EffectView>::empty());
        }
        let id = self.editable_series_id;
        match message {
            Message::Back | Message::Delete(_) | Message::Watch { .. } => Ok(effects),
            Message::NameChanged(value) => {
                self.buffer_name = value.clone();
                if media.name_is_used(value.as_str()) {
                    self.warning(WarningKind::NameUsed);
                    return Ok(effects);
                }
                let used = match self.warning.kind() {
                    Some(k) => *k == WarningKind::NameUsed,
                    None => false,
                };
                if used {
                    self.warning.close();
                }
                let series = media.get(id);
                let ghost v = value@;
                assert(series@.name != v);
                let to = series.renamed_path(value.as_str());
                effects.push(Effect::MoveMediaFile { from: String::from_str(series.dest_path()), to, name: value });
                assert(effect_views(effects@) =~= seq![
                    EffectView::MoveMediaFile {
                        from: old(media)@[id as int].dest_path,
                        to: spec_renamed(old(media)@[id as int], v).dest_path,
                        name: v,
                    },
                ]);
                Ok(effects)
            },
            Message::FileMoved(value) => match media.rename_media(id, value) {
                Ok(_) => {
                    effects.push(Effect::SaveMedia { id });
                    assert(effect_views(effects@) =~= seq![EffectView::SaveMedia { id: id as nat }]);
                    Ok(effects)
                },
                Err(e) => Err(e),
            },
            Message::SeasonChanged(value) => {
                if value.as_str().unicode_len() == 0 {
                    return Ok(self.set_season(media, 1));
                }
                match parse_nonzero_u8(value.as_str()) {
                    Some(n) => Ok(self.set_season(media, n)),
                    None => Ok(effects),
                }
            },
            Message::EpisodeChanged(value) => {
                if value.as_str().unicode_len() == 0 {
                    return Ok(self.store_episode(media, 1));
                }
                match parse_nonzero_u8(value.as_str()) {
                    Some(n) => Ok(self.set_episode(media, n)),
                    None => Ok(effects),
                }
            },
            Message::SeasonPathChanged(value) => Ok(self.set_season_path(media, value)),
            Message::SeasonPathSelect => {
                effects.push(Effect::SelectChapterFolder);
                assert(effect_views(effects@) =~= seq![EffectView::SelectChapterFolder]);
                Ok(effects)
            },
            Message::SeasonPathSelected(value) => Ok(self.set_season_path(media, value)),
            Message::SeasonInc => Ok(self.increase_season(media)),
            Message::SeasonDec => {
                let season = media.get(id).chapter();
                if season <= 1 {
                    self.warning(WarningKind::SeasonCanNotBeZero);
                    Ok(effects)
                } else {
                    Ok(self.set_season(media, season - 1))
                }
            },
            Message::EpisodeInc => {
                let episode = media.get(id).episode();
                let next = if episode < 255 { episode + 1 } else { 255 };
                Ok(self.set_episode(media, next))
            },
            Message::EpisodeDec => {
                let episode = media.get(id).episode();
                if episode <= 1 {
                    self.warning(WarningKind::EpisodeCanNotBeZero);
                    Ok(effects)
                } else {
                    Ok(self.store_episode(media, episode - 1))
                }
            },
            Message::OpenSeasonDirectory => {
                effects.push(Effect::OpenChapterDirectory {
                    chapter_path: String::from_str(media.get(id).chapter_path()),
                });
                assert(effect_views(effects@) =~= seq![
                    EffectView::OpenChapterDirectory { chapter_path: old(media)@[id as int].chapter_path },
                ]);
                Ok(effects)
            },
            Message::SeasonDirectoryMissing => {
                self.warning(WarningKind::WrongSeasonPath);
                Ok(effects)
            },
            Message::ConfirmScreen(ConfirmPageMsg::Confirm) => {
                let kind = match self.confirm_screen.kind() {
                    Some(k) => k.clone_kind(),
                    None => {
                        return Ok(effects);
                    },
                };
                self.confirm_screen.close();
                match kind {
                    ConfirmKind::SwitchToNextSeason { next_season_path } => Ok(
                        self.set_season_path(media, next_season_path),
                    ),
                    ConfirmKind::EpisodesOverflow { .. } => Ok(self.increase_season(media)),
                }
            },
            Message::ConfirmScreen(ConfirmPageMsg::Cancel) => {
                self.confirm_screen.close();
                Ok(effects)
            },
            Message::Warning(WarningPageMsg::Close) => {
                self.warning.close();
                Ok(effects)
            },
            Message::NextSeasonPath(Ok(path)) => {
                self.confirm_screen = crate::gui::page::confirm::confirm_dialog(
                    ConfirmKind::switch_to_next_season(path),
                );
                Ok(effects)
            },
            Message::NextSeasonPath(Err(e)) => Err(e),
            Message::EpisodesLoaded(r) => {
                self.episodes = match r {
                    Ok(l) => SeasonEpisodes::Loaded(l),
                    Err(e) => SeasonEpisodes::Failed(e),
                };
                Ok(effects)
            },
        }
    }
}

} // verus!
