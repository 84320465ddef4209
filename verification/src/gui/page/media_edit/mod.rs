//! The page where the user edits one media.

pub mod kind;
pub mod message;

use vstd::prelude::*;
use vstd::string::*;
use crate::episode_list::EpisodeList;
use crate::error::ErrorKind;
use crate::gui::dialog::Dialog;
use crate::gui::page::confirm::{ConfirmDlg, Msg as ConfirmPageMsg};
use crate::gui::page::warning::{WarningDlg, Msg as WarningPageMsg};
use crate::media::{MediaView, spec_renamed};
use crate::media_list::{MediaList, counters_positive, name_used_by_other};
use kind::{ConfirmKind, WarningKind};
use message::Msg;

verus! {

/// The file path the URL `url` names, as `url::Url::to_file_path` gives it
/// (it does not look at the scheme); `None` when the text is not a URL or
/// `to_file_path` gives no path.
pub uninterp spec fn spec_url_to_file_path(url: Seq<char>) -> Option<Seq<char>>;

/// Parses `url` with `url::Url::parse` and calls `Url::to_file_path` on it.
/// The result is a function of the text alone; nothing more is claimed of it.
/// Paths are text in this library, so a path that is not valid UTF-8 comes
/// back with its invalid bytes replaced.
#[verifier::external_body]
fn url_to_file_path(url: &str) -> (res: Option<String>)
    ensures
        res matches Some(p) ==> spec_url_to_file_path(url@) == Some(p@),
        res is None ==> spec_url_to_file_path(url@) is None,
{
    match url::Url::parse(url) {
        Ok(u) => match u.to_file_path() {
            Ok(p) => Some(p.to_string_lossy().to_string()),
            Err(()) => None,
        },
        Err(_) => None,
    }
}

/// Work the page asks the application to do for it.
pub enum Effect {
    /// Write the media at `id` to its file.
    SaveMedia { id: usize },
    /// Move the file of a media that is being renamed to `name`; once it has
    /// moved, answer with `MediaFileMoved` (on the series screen,
    /// `FileMoved`), which renames the media.
    MoveMediaFile { from: String, to: String, name: String },
    /// Read the episode list of the chapter directory; answer with
    /// `Msg::EpisodeListLoaded`.
    LoadEpisodes { chapter_path: String },
    /// Read the episode list again; answer with `Msg::CheckOverflow`.
    CheckOverflow { chapter_path: String },
    /// Let the user pick a folder; answer with `Msg::ChapterPathSelected`,
    /// `Msg::OpenDialogCanceled` or `Msg::OpenDialogError`.
    SelectChapterFolder,
    /// Find the directory after the chapter directory; answer with
    /// `Msg::NextChapterPath`.
    FindNextChapterPath { chapter_path: String },
    /// Open `path` with the default program.
    Open { path: String },
    /// Open the chapter directory, or answer `Msg::ChapterDirectoryMissing`
    /// when it is not a directory.
    OpenChapterDirectory { chapter_path: String },
}

pub enum EffectView {
    SaveMedia { id: nat },
    MoveMediaFile { from: Seq<char>, to: Seq<char>, name: Seq<char> },
    LoadEpisodes { chapter_path: Seq<char> },
    CheckOverflow { chapter_path: Seq<char> },
    SelectChapterFolder,
    FindNextChapterPath { chapter_path: Seq<char> },
    Open { path: Seq<char> },
    OpenChapterDirectory { chapter_path: Seq<char> },
}

impl View for Effect {
    type V = EffectView;

    open spec fn view(&self) -> EffectView {
        match self {
            Effect::SaveMedia { id } => EffectView::SaveMedia { id: *id as nat },
            Effect::MoveMediaFile { from, to, name } => EffectView::MoveMediaFile {
                from: from@,
                to: to@,
                name: name@,
            },
            Effect::LoadEpisodes { chapter_path } => EffectView::LoadEpisodes { chapter_path: chapter_path@ },
            Effect::CheckOverflow { chapter_path } => EffectView::CheckOverflow { chapter_path: chapter_path@ },
            Effect::SelectChapterFolder => EffectView::SelectChapterFolder,
            Effect::FindNextChapterPath { chapter_path } => EffectView::FindNextChapterPath { chapter_path: chapter_path@ },
            Effect::Open { path } => EffectView::Open { path: path@ },
            Effect::OpenChapterDirectory { chapter_path } => EffectView::OpenChapterDirectory { chapter_path: chapter_path@ },
        }
    }
}

pub open spec fn effect_views(s: Seq<Effect>) -> Seq<EffectView> {
    s.map_values(|e: Effect| e@)
}

pub open spec fn result_view(r: Result<Vec<Effect>, ErrorKind>) -> Result<Seq<EffectView>, ErrorKind> {
    match r {
        Ok(v) => Ok(effect_views(v@)),
        Err(e) => Err(e),
    }
}

/// The episode list of the chapter, as far as it is known.
pub enum LoadedEpisodes {
    Loading,
    Loaded(EpisodeList),
    Failed(ErrorKind),
}

pub enum LoadedEpisodesView {
    Loading,
    Loaded(Seq<Seq<char>>),
    Failed(ErrorKind),
}

impl View for LoadedEpisodes {
    type V = LoadedEpisodesView;

    open spec fn view(&self) -> LoadedEpisodesView {
        match self {
            LoadedEpisodes::Loading => LoadedEpisodesView::Loading,
            LoadedEpisodes::Loaded(l) => LoadedEpisodesView::Loaded(l@),
            LoadedEpisodes::Failed(e) => LoadedEpisodesView::Failed(*e),
        }
    }
}

/// The episode list an answer brings.
pub open spec fn loaded_view(r: Result<EpisodeList, ErrorKind>) -> LoadedEpisodesView {
    match r {
        Ok(l) => LoadedEpisodesView::Loaded(l@),
        Err(e) => LoadedEpisodesView::Failed(e),
    }
}

/// The number of episodes, once the list is loaded.
pub open spec fn episodes_count(e: LoadedEpisodesView) -> Option<nat> {
    match e {
        LoadedEpisodesView::Loaded(l) => Some(l.len()),
        _ => None,
    }
}

impl LoadedEpisodes {
    pub fn from_result(r: Result<EpisodeList, ErrorKind>) -> (res: LoadedEpisodes)
        ensures
            res@ == loaded_view(r),
    {
        match r {
            Ok(l) => LoadedEpisodes::Loaded(l),
            Err(e) => LoadedEpisodes::Failed(e),
        }
    }

    pub fn len(&self) -> (res: Option<usize>)
        ensures
            res matches Some(n) ==> episodes_count(self@) == Some(n as nat),
            res is None ==> episodes_count(self@) is None,
    {
        match self {
            LoadedEpisodes::Loaded(l) => Some(l.len()),
            _ => None,
        }
    }
}

/// What the media edit page shows.
pub struct MediaEditPageView {
    pub confirm: Option<ConfirmKind>,
    pub warning: Option<WarningKind>,
    pub media_id: nat,
    pub episodes: LoadedEpisodesView,
    pub buffer_name: Seq<char>,
    pub chapter: u8,
    pub episode: u8,
}

/// The page where the user edits the media at `editable_media_id`.
pub struct MediaEditPage {
    confirm: ConfirmDlg<ConfirmKind>,
    warning: WarningDlg<WarningKind>,
    editable_media_id: usize,
    episodes: LoadedEpisodes,
    buffer_name: String,
    chapter: u8,
    episode: u8,
}

impl View for MediaEditPage {
    type V = MediaEditPageView;

    closed spec fn view(&self) -> MediaEditPageView {
        MediaEditPageView {
            confirm: match self.confirm@ {
                Some(p) => Some(p.kind),
                None => None,
            },
            warning: match self.warning@ {
                Some(p) => Some(p.kind),
                None => None,
            },
            media_id: self.editable_media_id as nat,
            episodes: self.episodes@,
            buffer_name: self.buffer_name@,
            chapter: self.chapter,
            episode: self.episode,
        }
    }
}

/// A page state, the media list and what the page answers.
pub type Outcome = (MediaEditPageView, Seq<MediaView>, Result<Seq<EffectView>, ErrorKind>);

/// The page sets the chapter directory of its media to `p`: the media is
/// saved and the episode list of `p` loaded.
pub open spec fn step_set_chapter_path(s: MediaEditPageView, list: Seq<MediaView>, p: Seq<char>) -> Outcome {
    let id = s.media_id as int;
    (
        s,
        list.update(id, MediaView { chapter_path: p, ..list[id] }),
        Ok(seq![EffectView::SaveMedia { id: s.media_id }, EffectView::LoadEpisodes { chapter_path: p }]),
    )
}

/// The page moves its media to the next chapter: the episode goes back to
/// 1, the chapter goes up by one (staying at 255 there), and when the media
/// has a chapter directory the next directory is looked for. A page whose
/// chapter field is 0 only sets that field to 1.
pub open spec fn step_increase_chapter(s: MediaEditPageView, list: Seq<MediaView>) -> Outcome {
    let id = s.media_id as int;
    if s.chapter == 0 {
        (MediaEditPageView { chapter: 1, ..s }, list, Ok(Seq::empty()))
    } else {
        let m = list[id];
        let next: nat = if m.chapter < 255 { m.chapter + 1 } else { 255 };
        let saves = seq![EffectView::SaveMedia { id: s.media_id }, EffectView::SaveMedia { id: s.media_id }];
        (
            MediaEditPageView { episode: 1, chapter: next as u8, ..s },
            list.update(id, MediaView { episode: 1, chapter: next, ..m }),
            Ok(
                if m.chapter_path.len() == 0 {
                    saves
                } else {
                    saves.push(EffectView::FindNextChapterPath { chapter_path: m.chapter_path })
                },
            ),
        )
    }
}

/// The user sets the episode to `v`. Unless the loaded episode list is
/// shorter than `v`, the media's episode becomes `v` (0 is not stored);
/// otherwise the episode list is read again to check for an overflow.
pub open spec fn step_set_episode(s: MediaEditPageView, list: Seq<MediaView>, v: u8) -> Outcome {
    let id = s.media_id as int;
    let s1 = MediaEditPageView { episode: v, ..s };
    match episodes_count(s.episodes) {
        Some(c) if c < v => (s1, list, Ok(seq![EffectView::CheckOverflow { chapter_path: list[id].chapter_path }])),
        _ => if v >= 1 {
            (
                s1,
                list.update(id, MediaView { episode: v as nat, ..list[id] }),
                Ok(seq![EffectView::SaveMedia { id: s.media_id }]),
            )
        } else {
            (s1, list, Ok(Seq::empty()))
        },
    }
}

/// What a message does to the page and to the media list, and what the
/// page answers.
pub open spec fn media_edit_step(s: MediaEditPageView, list: Seq<MediaView>, msg: Msg) -> Outcome {
    let id = s.media_id as int;
    let none = Ok(Seq::<EffectView>::empty());
    match msg {
        Msg::Back => (s, list, none),
        Msg::Delete(_) => (s, list, none),
        Msg::OpenDialogCanceled => (s, list, none),
        Msg::Watch { path } => (s, list, Ok(seq![EffectView::Open { path: path@ }])),
        Msg::NameChanged(v) => {
            let s1 = MediaEditPageView { buffer_name: v@, ..s };
            if name_used_by_other(list, id, v@) {
                (MediaEditPageView { warning: Some(WarningKind::NameUsed), ..s1 }, list, none)
            } else {
                let m = list[id];
                let effects = if m.name == v@ {
                    seq![EffectView::SaveMedia { id: s.media_id }]
                } else {
                    seq![EffectView::MoveMediaFile { from: m.dest_path, to: spec_renamed(m, v@).dest_path, name: v@ }]
                };
                let warning = if s.warning == Some(WarningKind::NameUsed) { None } else { s.warning };
                (MediaEditPageView { warning, ..s1 }, list, Ok(effects))
            }
        },
        Msg::MediaFileMoved(v) => if name_used_by_other(list, id, v@) {
            (s, list, Err(ErrorKind::MediaNameIsUsed { name: v }))
        } else {
            (s, list.update(id, spec_renamed(list[id], v@)), Ok(seq![EffectView::SaveMedia { id: s.media_id }]))
        },
        Msg::ChapterChanged(v) => {
            let s1 = MediaEditPageView { chapter: v, ..s };
            if v >= 1 {
                (
                    s1,
                    list.update(id, MediaView { chapter: v as nat, ..list[id] }),
                    Ok(seq![EffectView::SaveMedia { id: s.media_id }]),
                )
            } else {
                (s1, list, none)
            }
        },
        Msg::EpisodeChanged(v) => step_set_episode(s, list, v),
        Msg::ChapterPathChanged(v) => step_set_chapter_path(s, list, v@),
        Msg::ConfirmScreen(ConfirmPageMsg::Confirm) => match s.confirm {
            Some(ConfirmKind::SwitchToNextChapter { path }) => step_set_chapter_path(
                MediaEditPageView { confirm: None, ..s },
                list,
                path@,
            ),
            Some(ConfirmKind::EpisodesOverflow { .. }) => step_increase_chapter(
                MediaEditPageView { confirm: None, ..s },
                list,
            ),
            None => (s, list, none),
        },
        Msg::ConfirmScreen(ConfirmPageMsg::Cancel) => (MediaEditPageView { confirm: None, ..s }, list, none),
        Msg::ChapterPathSelect => (s, list, Ok(seq![EffectView::SelectChapterFolder])),
        Msg::Warning(WarningPageMsg::Close) => (MediaEditPageView { warning: None, ..s }, list, none),
        Msg::OpenChapterDirectory => (
            s,
            list,
            Ok(seq![EffectView::OpenChapterDirectory { chapter_path: list[id].chapter_path }]),
        ),
        Msg::ChapterDirectoryMissing => (
            MediaEditPageView { warning: Some(WarningKind::WrongChapterPath), ..s },
            list,
            none,
        ),
        Msg::ChapterPathSelected(url) => match spec_url_to_file_path(url@) {
            Some(p) => step_set_chapter_path(s, list, p),
            None => (MediaEditPageView { warning: Some(WarningKind::WrongChapterPath), ..s }, list, none),
        },
        Msg::OpenDialogError(message) => (s, list, Err(ErrorKind::OpenDialog { message })),
        Msg::NextChapterPath(Ok(path)) => (
            MediaEditPageView { confirm: Some(ConfirmKind::SwitchToNextChapter { path }), ..s },
            list,
            none,
        ),
        Msg::NextChapterPath(Err(e)) => (s, list, Err(e)),
        Msg::EpisodeListLoaded(r) => (MediaEditPageView { episodes: loaded_view(r), ..s }, list, none),
        Msg::CheckOverflow(r) => {
            let s1 = MediaEditPageView { episodes: loaded_view(r), ..s };
            match r {
                Ok(l) if l@.len() < s.episode => (
                    MediaEditPageView {
                        confirm: Some(ConfirmKind::EpisodesOverflow { episodes_on_disk: l@.len() as usize }),
                        ..s1
                    },
                    list,
                    none,
                ),
                _ => (s1, list, none),
            }
        },
    }
}

/// The page opened for the media at `id`: no dialog shown, the episode
/// list loading, and the name, chapter and episode of the media in its
/// fields.
pub open spec fn new_page_view(list: Seq<MediaView>, id: int) -> MediaEditPageView {
    MediaEditPageView {
        confirm: None,
        warning: None,
        media_id: id as nat,
        episodes: LoadedEpisodesView::Loading,
        buffer_name: list[id].name,
        chapter: list[id].chapter as u8,
        episode: list[id].episode as u8,
    }
}

/// No message of the media edit page moves a media to chapter 0 or to
/// episode 0.
pub proof fn lemma_media_edit_keeps_counters_positive(s: MediaEditPageView, list: Seq<MediaView>, msg: Msg)
    requires
        s.media_id < list.len(),
        counters_positive(list),
    ensures
        counters_positive(media_edit_step(s, list, msg).1),
{
    let out = media_edit_step(s, list, msg).1;
    assert forall|i: int| 0 <= i < out.len() implies (#[trigger] out[i]).chapter >= 1 && out[i].episode >= 1 by {
        assert(list[i].chapter >= 1 && list[i].episode >= 1);
    }
}

/// Once the user confirms that the episodes of the chapter are over, the
/// media is at episode 1 of the next chapter (staying at 255 there), and
/// nothing else of the list changes.
pub proof fn lemma_confirmed_overflow_moves_to_next_chapter(s: MediaEditPageView, list: Seq<MediaView>, n: usize)
    requires
        s.media_id < list.len(),
        s.chapter != 0,
        s.confirm == Some(ConfirmKind::EpisodesOverflow { episodes_on_disk: n }),
    ensures
        ({
            let (s2, list2, _) = media_edit_step(s, list, Msg::ConfirmScreen(ConfirmPageMsg::Confirm));
            let m = list[s.media_id as int];
            &&& s2.confirm is None
            &&& list2 == list.update(
                s.media_id as int,
                MediaView { episode: 1, chapter: if m.chapter < 255 { m.chapter + 1 } else { 255 }, ..m },
            )
        }),
{
}

/// Setting an episode the loaded chapter has (from 1 up to the number of
/// its episodes, the last one included) stores it in the edited media, and
/// only that, and asks for nothing but the save.
pub proof fn lemma_episode_on_disk_is_stored(s: MediaEditPageView, list: Seq<MediaView>, l: Seq<Seq<char>>, v: u8)
    requires
        s.media_id < list.len(),
        s.episodes == LoadedEpisodesView::Loaded(l),
        1 <= v <= l.len(),
    ensures
        ({
            let (s2, list2, r) = media_edit_step(s, list, Msg::EpisodeChanged(v));
            let id = s.media_id as int;
            &&& s2.episode == v
            &&& list2.len() == list.len()
            &&& list2[id].episode == v
            &&& list2[id].chapter == list[id].chapter
            &&& list2[id].name == list[id].name
            &&& list2[id].chapter_path == list[id].chapter_path
            &&& list2[id].dest_path == list[id].dest_path
            &&& forall|j: int| 0 <= j < list.len() && j != id ==> list2[j] == list[j]
            &&& r == Ok::<Seq<EffectView>, ErrorKind>(seq![EffectView::SaveMedia { id: s.media_id }])
        }),
{
}

/// Setting an episode past the end of the loaded chapter changes no media
/// and asks to read the chapter again, to see whether it is over.
pub proof fn lemma_episode_past_disk_is_checked(s: MediaEditPageView, list: Seq<MediaView>, l: Seq<Seq<char>>, v: u8)
    requires
        s.media_id < list.len(),
        s.episodes == LoadedEpisodesView::Loaded(l),
        v > l.len(),
    ensures
        ({
            let (s2, list2, r) = media_edit_step(s, list, Msg::EpisodeChanged(v));
            &&& s2.episode == v
            &&& list2 == list
            &&& r == Ok::<Seq<EffectView>, ErrorKind>(
                seq![EffectView::CheckOverflow { chapter_path: list[s.media_id as int].chapter_path }],
            )
        }),
{
}

/// While the episode list is not loaded, any episode from 1 up is stored.
pub proof fn lemma_episode_without_list_is_stored(s: MediaEditPageView, list: Seq<MediaView>, v: u8)
    requires
        s.media_id < list.len(),
        !(s.episodes is Loaded),
        v >= 1,
    ensures
        ({
            let (s2, list2, r) = media_edit_step(s, list, Msg::EpisodeChanged(v));
            let id = s.media_id as int;
            &&& s2.episode == v
            &&& list2.len() == list.len()
            &&& list2[id].episode == v
            &&& list2[id].chapter == list[id].chapter
            &&& list2[id].chapter_path == list[id].chapter_path
            &&& forall|j: int| 0 <= j < list.len() && j != id ==> list2[j] == list[j]
            &&& r == Ok::<Seq<EffectView>, ErrorKind>(seq![EffectView::SaveMedia { id: s.media_id }])
        }),
{
}

/// A re-read chapter with fewer episodes than the one set asks to move to
/// the next chapter, naming how many it has; one with enough asks nothing.
pub proof fn lemma_overflow_check_asks_only_when_over(s: MediaEditPageView, list: Seq<MediaView>, l: EpisodeList)
    requires
        s.media_id < list.len(),
    ensures
        ({
            let (s2, list2, r) = media_edit_step(s, list, Msg::CheckOverflow(Ok(l)));
            &&& list2 == list
            &&& r == Ok::<Seq<EffectView>, ErrorKind>(Seq::empty())
            &&& s2.episodes == LoadedEpisodesView::Loaded(l@)
            &&& l@.len() < s.episode ==> s2.confirm == Some(
                ConfirmKind::EpisodesOverflow { episodes_on_disk: l@.len() as usize },
            )
            &&& l@.len() >= s.episode ==> s2.confirm == s.confirm
        }),
{
}

/// Setting a chapter from 1 up stores it in the edited media and nothing
/// else; chapter 0 stores nothing.
pub proof fn lemma_chapter_is_stored(s: MediaEditPageView, list: Seq<MediaView>, v: u8)
    requires
        s.media_id < list.len(),
    ensures
        ({
            let (s2, list2, _) = media_edit_step(s, list, Msg::ChapterChanged(v));
            let id = s.media_id as int;
            &&& s2.chapter == v
            &&& v >= 1 ==> list2.len() == list.len() && list2[id].chapter == v && list2[id].episode == list[id].episode
                && list2[id].chapter_path == list[id].chapter_path && forall|j: int|
                0 <= j < list.len() && j != id ==> list2[j] == list[j]
            &&& v == 0 ==> list2 == list
        }),
{
}

/// Renaming to a name no other media has first moves the file and keeps the
/// list; once the file has moved, the edited media has the new name and
/// keeps its chapter, episode and chapter directory.
pub proof fn lemma_rename_moves_then_renames(s: MediaEditPageView, list: Seq<MediaView>, v: String)
    requires
        s.media_id < list.len(),
        !name_used_by_other(list, s.media_id as int, v@),
        list[s.media_id as int].name != v@,
    ensures
        ({
            let (s2, list2, r) = media_edit_step(s, list, Msg::NameChanged(v));
            let m = list[s.media_id as int];
            &&& list2 == list
            &&& s2.buffer_name == v@
            &&& r matches Ok(e)
            &&& e.len() == 1
            &&& e[0] matches EffectView::MoveMediaFile { from, name, .. }
            &&& from == m.dest_path
            &&& name == v@
        }),
        ({
            let (_, list3, r3) = media_edit_step(s, list, Msg::MediaFileMoved(v));
            let id = s.media_id as int;
            &&& list3.len() == list.len()
            &&& list3[id].name == v@
            &&& list3[id].chapter == list[id].chapter
            &&& list3[id].episode == list[id].episode
            &&& list3[id].chapter_path == list[id].chapter_path
            &&& forall|j: int| 0 <= j < list.len() && j != id ==> list3[j] == list[j]
            &&& r3 == Ok::<Seq<EffectView>, ErrorKind>(seq![EffectView::SaveMedia { id: s.media_id }])
        }),
{
}

/// A name another media has is refused with a warning and changes no media.
pub proof fn lemma_name_of_another_is_refused(s: MediaEditPageView, list: Seq<MediaView>, v: String, j: int)
    requires
        s.media_id < list.len(),
        0 <= j < list.len(),
        j != s.media_id,
        list[j].name == v@,
    ensures
        ({
            let (s2, list2, r) = media_edit_step(s, list, Msg::NameChanged(v));
            &&& list2 == list
            &&& s2.warning == Some(WarningKind::NameUsed)
            &&& s2.buffer_name == v@
            &&& r == Ok::<Seq<EffectView>, ErrorKind>(Seq::empty())
        }),
{
}

/// The path of the episode the user is at, once the episode list is loaded
/// and that long.
pub open spec fn spec_watch_path(s: MediaEditPageView, list: Seq<MediaView>) -> Option<Seq<char>> {
    let i = list[s.media_id as int].episode - 1;
    match s.episodes {
        LoadedEpisodesView::Loaded(l) => if 0 <= i < l.len() { Some(l[i]) } else { None },
        _ => None,
    }
}

/// The line shown under the watch button: nothing without a chapter
/// directory, else the name of the current episode or what went wrong.
pub open spec fn spec_watch_sign(s: MediaEditPageView, list: Seq<MediaView>) -> Option<Seq<char>> {
    let m = list[s.media_id as int];
    let i = m.episode - 1;
    if m.chapter_path.len() == 0 {
        None
    } else {
        match s.episodes {
            LoadedEpisodesView::Loading => Some("Loading..."@),
            LoadedEpisodesView::Failed(e) => Some("Chapter path is incorrect: "@ + e.spec_message()),
            LoadedEpisodesView::Loaded(l) => if 0 <= i < l.len() {
                Some(crate::episode::spec_episode_name(l[i]))
            } else {
                Some("Chapter path is incorrect: "@ + ErrorKind::EpisodeNotFound.spec_message())
            },
        }
    }
}

impl MediaEditPage {
    /// The message of the watch button: watch the current episode, when it
    /// is known.
    pub fn watch_message(&self, media_list: &MediaList) -> (res: Option<Msg>)
        requires
            self@.media_id < media_list@.len(),
        ensures
            res matches Some(m) ==> (m matches Msg::Watch { path } && spec_watch_path(self@, media_list@) == Some(path@)),
            res is None ==> spec_watch_path(self@, media_list@) is None,
    {
        let i = media_list.get(self.editable_media_id).episode() - 1;
        match &self.episodes {
            LoadedEpisodes::Loaded(l) => match l.get(i as usize) {
                Some(e) => Some(Msg::watch(String::from_str(e.path()))),
                None => None,
            },
            _ => None,
        }
    }

    /// The message of the button that opens the chapter directory: there is
    /// one exactly when the media has a chapter directory.
    pub fn open_directory_message(&self, media_list: &MediaList) -> (res: Option<Msg>)
        requires
            self@.media_id < media_list@.len(),
        ensures
            res is Some <==> media_list@[self@.media_id as int].chapter_path.len() > 0,
            res matches Some(m) ==> m is OpenChapterDirectory,
    {
        if media_list.get(self.editable_media_id).chapter_path_is_present() {
            Some(Msg::OpenChapterDirectory)
        } else {
            None
        }
    }

    /// The line shown under the watch button.
    pub fn watch_sign(&self, media_list: &MediaList) -> (res: Option<String>)
        requires
            self@.media_id < media_list@.len(),
        ensures
            res matches Some(t) ==> spec_watch_sign(self@, media_list@) == Some(t@),
            res is None ==> spec_watch_sign(self@, media_list@) is None,
    {
        let media = media_list.get(self.editable_media_id);
        if !media.chapter_path_is_present() {
            return None;
        }
        let i = media.episode() - 1;
        match &self.episodes {
            LoadedEpisodes::Loading => Some(String::from_str("Loading...")),
            LoadedEpisodes::Failed(e) => {
                let mut t = String::from_str("Chapter path is incorrect: ");
                let m = e.message();
                t.append(m.as_str());
                Some(t)
            },
            LoadedEpisodes::Loaded(l) => match l.get(i as usize) {
                Some(e) => Some(e.name()),
                None => {
                    let mut t = String::from_str("Chapter path is incorrect: ");
                    let m = ErrorKind::EpisodeNotFound.message();
                    t.append(m.as_str());
                    Some(t)
                },
            },
        }
    }

    /// The title of the page: the name of the edited media.
    pub fn title(&self, media_list: &MediaList) -> (res: String)
        requires
            self@.media_id < media_list@.len(),
        ensures
            res@ == media_list@[self@.media_id as int].name,
    {
        String::from_str(media_list.get(self.editable_media_id).name())
    }

    /// The text of the name field.
    pub fn buffer_name(&self) -> (res: &str)
        ensures
            res@ == self@.buffer_name,
    {
        self.buffer_name.as_str()
    }

    pub fn chapter(&self) -> (res: u8)
        ensures
            res == self@.chapter,
    {
        self.chapter
    }

    pub fn episode(&self) -> (res: u8)
        ensures
            res == self@.episode,
    {
        self.episode
    }

    /// The question of the confirmation dialog, when it is shown.
    pub fn confirm_message(&self) -> (res: Option<String>)
        ensures
            res matches Some(t) ==> (self@.confirm matches Some(k) && t@ == k.spec_message()),
            res is None ==> self@.confirm is None,
    {
        match self.confirm.kind() {
            Some(k) => Some(k.message()),
            None => None,
        }
    }

    /// The text of the warning, when one is shown.
    pub fn warning_message(&self) -> (res: Option<String>)
        ensures
            res matches Some(t) ==> (self@.warning matches Some(k) && t@ == k.spec_message()),
            res is None ==> self@.warning is None,
    {
        match self.warning.kind() {
            Some(k) => Some(k.message()),
            None => None,
        }
    }

    /// The page for the media at `editable_media_id`, showing its name,
    /// chapter and episode; it asks for the episode list of its chapter
    /// directory.
    pub fn new(media_list: &MediaList, editable_media_id: usize) -> (res: (MediaEditPage, Vec<Effect>))
        requires
            editable_media_id < media_list@.len(),
        ensures
            res.0@ == new_page_view(media_list@, editable_media_id as int),
            effect_views(res.1@) == seq![
                EffectView::LoadEpisodes { chapter_path: media_list@[editable_media_id as int].chapter_path },
            ],
    {
        let media = media_list.get(editable_media_id);
        let page = MediaEditPage {
            confirm: Dialog::closed(),
            warning: Dialog::closed(),
            editable_media_id,
            episodes: LoadedEpisodes::Loading,
            buffer_name: String::from_str(media.name()),
            chapter: media.chapter(),
            episode: media.episode(),
        };
        let mut effects: Vec<Effect> = Vec::new();
        effects.push(Effect::LoadEpisodes { chapter_path: String::from_str(media.chapter_path()) });
        assert(effect_views(effects@) =~= seq![
            EffectView::LoadEpisodes { chapter_path: media_list@[editable_media_id as int].chapter_path },
        ]);
        (page, effects)
    }

    /// The position of the edited media in the list.
    pub fn editable_media_id(&self) -> (res: usize)
        ensures
            res == self@.media_id,
    {
        self.editable_media_id
    }

    fn set_chapter_path(&mut self, media_list: &mut MediaList, path: String) -> (res: Vec<Effect>)
        requires
            old(self)@.media_id < old(media_list)@.len(),
        ensures
            (final(self)@, final(media_list)@, Ok::<Seq<EffectView>, ErrorKind>(effect_views(res@)))
                == step_set_chapter_path(old(self)@, old(media_list)@, path@),
    {
        let id = self.editable_media_id;
        let ghost p = path@;
        let load = path.clone();
        media_list.set_chapter_path(id, path);
        let mut effects: Vec<Effect> = Vec::new();
        effects.push(Effect::SaveMedia { id });
        effects.push(Effect::LoadEpisodes { chapter_path: load });
        assert(effect_views(effects@) =~= seq![
            EffectView::SaveMedia { id: id as nat },
            EffectView::LoadEpisodes { chapter_path: p },
        ]);
        effects
    }

    fn increase_chapter(&mut self, media_list: &mut MediaList) -> (res: Vec<Effect>)
        requires
            old(self)@.media_id < old(media_list)@.len(),
        ensures
            (final(self)@, final(media_list)@, Ok::<Seq<EffectView>, ErrorKind>(effect_views(res@)))
                == step_increase_chapter(old(self)@, old(media_list)@),
    {
        let mut effects: Vec<Effect> = Vec::new();
        if self.chapter == 0 {
            self.chapter = 1;
            assert(effect_views(effects@) =~= Seq::<EffectView>::empty());
            return effects;
        }
        let id = self.editable_media_id;
        self.episode = 1;
        media_list.set_episode(id, 1);
        effects.push(Effect::SaveMedia { id });
        let current = media_list.get(id).chapter();
        let next = if current < 255 { current + 1 } else { 255 };
        self.chapter = next;
        media_list.set_chapter(id, next);
        effects.push(Effect::SaveMedia { id });
        let ghost m = old(media_list)@[id as int];
        assert(media_list@ =~= old(media_list)@.update(id as int, MediaView { episode: 1, chapter: next as nat, ..m }));
        let media = media_list.get(id);
        if !media.chapter_path_is_present() {
            assert(effect_views(effects@) =~= seq![
                EffectView::SaveMedia { id: id as nat },
                EffectView::SaveMedia { id: id as nat },
            ]);
            return effects;
        }
        effects.push(Effect::FindNextChapterPath { chapter_path: String::from_str(media.chapter_path()) });
        assert(effect_views(effects@) =~= seq![
            EffectView::SaveMedia { id: id as nat },
            EffectView::SaveMedia { id: id as nat },
        ].push(EffectView::FindNextChapterPath { chapter_path: m.chapter_path }));
        effects
    }

    fn set_episode(&mut self, media_list: &mut MediaList, value: u8) -> (res: Vec<Effect>)
        requires
            old(self)@.media_id < old(media_list)@.len(),
        ensures
            (final(self)@, final(media_list)@, Ok::<Seq<EffectView>, ErrorKind>(effect_views(res@)))
                == step_set_episode(old(self)@, old(media_list)@, value),
    {
        let id = self.editable_media_id;
        let mut effects: Vec<Effect> = Vec::new();
        self.episode = value;
        let overflow = match self.episodes.len() {
            Some(count) => count < value as usize,
            None => false,
        };
        if overflow {
            effects.push(Effect::CheckOverflow {
                chapter_path: String::from_str(media_list.get(id).chapter_path()),
            });
            assert(effect_views(effects@) =~= seq![
                EffectView::CheckOverflow { chapter_path: old(media_list)@[id as int].chapter_path },
            ]);
            return effects;
        }
        if value >= 1 {
            media_list.set_episode(id, value);
            effects.push(Effect::SaveMedia { id });
            assert(effect_views(effects@) =~= seq![EffectView::SaveMedia { id: id as nat }]);
        } else {
            assert(effect_views(effects@) =~= Seq::<EffectView>::empty());
        }
        effects
    }

    fn show_warning(&mut self, kind: WarningKind)
        ensures
            final(self)@ == (MediaEditPageView { warning: Some(kind), ..old(self)@ }),
    {
        self.warning = crate::gui::page::warning::warning_dialog(kind);
    }

    /// What `message` does to the page and to the media list; `Ok` holds the
    /// work the page asks the application to do.
    pub fn update(&mut self, media_list: &mut MediaList, message: Msg) -> (res: Result<Vec<Effect>, ErrorKind>)
        requires
            old(self)@.media_id < old(media_list)@.len(),
        ensures
            (final(self)@, final(media_list)@, result_view(res)) == media_edit_step(old(self)@, old(media_list)@, message),
    {
        let ghost msg = message;
        let mut effects: Vec<Effect> = Vec::new();
        proof {
            assert(effect_views(effects@) =~= Seq::<EffectView>::empty());
        }
        let id = self.editable_media_id;
        match message {
            Msg::Back | Msg::Delete(_) | Msg::OpenDialogCanceled => Ok(effects),
            Msg::Watch { path } => {
                effects.push(Effect::Open { path });
                assert(effect_views(effects@) =~= seq![EffectView::Open { path: effects@[0]->path@ }]);
                Ok(effects)
            },
            Msg::NameChanged(value) => {
                self.buffer_name = value.clone();
                if media_list.is_name_taken(id, value.as_str()) {
                    self.show_warning(WarningKind::NameUsed);
                    return Ok(effects);
                }
                let used = match self.warning.kind() {
                    Some(k) => *k == WarningKind::NameUsed,
                    None => false,
                };
                if used {
                    self.warning.close();
                }
                let media = media_list.get(id);
                if crate::text::str_eq(media.name(), value.as_str()) {
                    effects.push(Effect::SaveMedia { id });
                    assert(effect_views(effects@) =~= seq![EffectView::SaveMedia { id: id as nat }]);
                } else {
                    let ghost v = value@;
                    let to = media.renamed_path(value.as_str());
                    effects.push(Effect::MoveMediaFile { from: String::from_str(media.dest_path()), to, name: value });
                    assert(effect_views(effects@) =~= seq![
                        EffectView::MoveMediaFile {
                            from: old(media_list)@[id as int].dest_path,
                            to: spec_renamed(old(media_list)@[id as int], v).dest_path,
                            name: v,
                        },
                    ]);
                }
                Ok(effects)
            },
            Msg::MediaFileMoved(value) => match media_list.rename_media(id, value) {
                Ok(_) => {
                    effects.push(Effect::SaveMedia { id });
                    assert(effect_views(effects@) =~= seq![EffectView::SaveMedia { id: id as nat }]);
                    Ok(effects)
                },
                Err(e) => Err(e),
            },
            Msg::ChapterChanged(value) => {
                self.chapter = value;
                if value >= 1 {
                    media_list.set_chapter(id, value);
                    effects.push(Effect::SaveMedia { id });
                    assert(effect_views(effects@) =~= seq![EffectView::SaveMedia { id: id as nat }]);
                }
                Ok(effects)
            },
            Msg::EpisodeChanged(value) => Ok(self.set_episode(media_list, value)),
            Msg::ChapterPathChanged(value) => Ok(self.set_chapter_path(media_list, value)),
            Msg::ConfirmScreen(ConfirmPageMsg::Confirm) => {
                let kind = match self.confirm.kind() {
                    Some(k) => k.clone_kind(),
                    None => {
                        return Ok(effects);
                    },
                };
                self.confirm.close();
                match kind {
                    ConfirmKind::SwitchToNextChapter { path } => Ok(self.set_chapter_path(media_list, path)),
                    ConfirmKind::EpisodesOverflow { .. } => Ok(self.increase_chapter(media_list)),
                }
            },
            Msg::ConfirmScreen(ConfirmPageMsg::Cancel) => {
                self.confirm.close();
                Ok(effects)
            },
            Msg::ChapterPathSelect => {
                effects.push(Effect::SelectChapterFolder);
                assert(effect_views(effects@) =~= seq![EffectView::SelectChapterFolder]);
                Ok(effects)
            },
            Msg::Warning(WarningPageMsg::Close) => {
                self.warning.close();
                Ok(effects)
            },
            Msg::OpenChapterDirectory => {
                effects.push(Effect::OpenChapterDirectory {
                    chapter_path: String::from_str(media_list.get(id).chapter_path()),
                });
                assert(effect_views(effects@) =~= seq![
                    EffectView::OpenChapterDirectory { chapter_path: old(media_list)@[id as int].chapter_path },
                ]);
                Ok(effects)
            },
            Msg::ChapterDirectoryMissing => {
                self.show_warning(WarningKind::WrongChapterPath);
                Ok(effects)
            },
            Msg::ChapterPathSelected(url) => match url_to_file_path(url.as_str()) {
                Some(path) => Ok(self.set_chapter_path(media_list, path)),
                None => {
                    self.show_warning(WarningKind::WrongChapterPath);
                    Ok(effects)
                },
            },
            Msg::OpenDialogError(message) => Err(ErrorKind::OpenDialog { message }),
            Msg::NextChapterPath(Ok(path)) => {
                self.confirm = crate::gui::page::confirm::confirm_dialog(ConfirmKind::switch_to_next_chapter(path));
                Ok(effects)
            },
            Msg::NextChapterPath(Err(e)) => Err(e),
            Msg::EpisodeListLoaded(r) => {
                self.episodes = LoadedEpisodes::from_result(r);
                Ok(effects)
            },
            Msg::CheckOverflow(r) => {
                self.episodes = LoadedEpisodes::from_result(r);
                match self.episodes.len() {
                    Some(count) => {
                        if count < self.episode as usize {
                            self.confirm = crate::gui::page::confirm::confirm_dialog(
                                ConfirmKind::episode_overflow(count),
                            );
                        }
                    },
                    None => {},
                }
                Ok(effects)
            },
        }
    }
}

} // verus!
