use open_media_tracker::gui::dialog::Dialog;
use open_media_tracker::gui::page::confirm::{ConfirmDlg, ConfirmPage};
use open_media_tracker::gui::page::warning::{WarningDlg, WarningPage};
use open_media_tracker::episode_list::EpisodeList;
use open_media_tracker::error::ErrorKind;
use open_media_tracker::gui::app::kinds::LoadingKind;
use open_media_tracker::gui::loading::{LoadingDialog, LoadingQueue};
use open_media_tracker::gui::page::confirm::Msg as ConfirmMsg;
use open_media_tracker::gui::page::main::{MainPage, Msg as MainMsg, Request};
use open_media_tracker::gui::page::media_edit::message::Msg;
use open_media_tracker::gui::page::media_edit::{Effect, MediaEditPage};
use open_media_tracker::gui::page::warning::Msg as WarningMsg;
use open_media_tracker::media::Media;
use open_media_tracker::media_list::MediaList;

fn sample_media(name: &str, chapter: u8, episode: u8, path: &str) -> Media {
    Media::from_parts(name.to_string(), chapter, episode, path.to_string(), format!("/d/{name}.ron"))
}

fn list() -> MediaList {
    MediaList::from_media(vec![sample_media("Alpha", 1, 1, "/v/alpha/s1"), sample_media("Beta", 2, 5, "")])
}

fn episodes(n: usize) -> EpisodeList {
    let paths: Vec<String> = (1..=n).map(|i| format!("/v/alpha/s1/ep{i}.mkv")).collect();
    EpisodeList::read(paths).ok().unwrap()
}

#[test]
fn loading_closes_when_the_last_kind_completes() {
    let mut d: LoadingDialog<LoadingKind> = LoadingDialog::closed();
    assert!(!d.is_loading());
    d.insert(LoadingKind::ReadMedia);
    assert!(d.is_loading());
    assert_eq!(d.title(), Some("Loading".to_string()));
    d.insert(LoadingKind::ReadMedia);
    d.complete(&LoadingKind::ReadMedia);
    assert!(!d.is_loading());
    assert_eq!(d.title(), None);
    d.complete(&LoadingKind::ReadMedia);
    assert!(!d.is_loading());
}

#[test]
fn loading_queue_counts_each_kind_once() {
    let mut q: LoadingQueue<LoadingKind> = LoadingQueue::new();
    assert!(q.completed());
    q.add(LoadingKind::ReadMedia);
    q.add(LoadingKind::ReadMedia);
    assert!(!q.completed());
    q.complete(&LoadingKind::ReadMedia);
    assert!(q.completed());
}

#[test]
fn main_page_menu_selects_by_name() {
    let mut l = list();
    let mut page = MainPage::new(&l);
    assert_eq!(page.entries(), &vec!["Alpha".to_string(), "Beta".to_string()]);
    let r = page.update(MainMsg::MenuButton(1), &mut l);
    assert!(matches!(r, Some(Request::SelectMedia(ref n)) if n == "Beta"));
    assert!(page.update(MainMsg::MenuButton(2), &mut l).is_none());
    assert!(matches!(page.update(MainMsg::AddMedia, &mut l), Some(Request::CreateMedia)));
}

#[test]
fn main_page_sorts_reversed_first() {
    let mut l = MediaList::from_media(vec![sample_media("b", 1, 1, ""), sample_media("c", 1, 1, ""), sample_media("a", 1, 1, "")]);
    let mut page = MainPage::new(&l);
    assert!(page.update(MainMsg::SortButton, &mut l).is_none());
    assert_eq!(l.names(), vec!["c".to_string(), "b".to_string(), "a".to_string()]);
    assert_eq!(page.entries(), &l.names());
    page.update(MainMsg::SortButton, &mut l);
    assert_eq!(l.names(), vec!["a".to_string(), "b".to_string(), "c".to_string()]);
    page.update(MainMsg::SortButton, &mut l);
    assert_eq!(l.names(), vec!["c".to_string(), "b".to_string(), "a".to_string()]);
}

#[test]
fn main_page_search_filters_the_entries_only() {
    let mut l = MediaList::from_media(vec![sample_media("Dark", 1, 1, ""), sample_media("Breaking Bad", 1, 1, "")]);
    let mut page = MainPage::new(&l);
    page.update(MainMsg::SearchBarChanged("bb".to_string()), &mut l);
    assert_eq!(page.entries(), &vec!["Breaking Bad".to_string()]);
    assert_eq!(l.names(), vec!["Dark".to_string(), "Breaking Bad".to_string()]);
    page.update(MainMsg::SearchBarChanged(String::new()), &mut l);
    assert_eq!(page.entries(), &vec!["Breaking Bad".to_string(), "Dark".to_string()]);
}

#[test]
fn media_edit_page_opens_with_the_media_values() {
    let l = list();
    let (page, effects) = MediaEditPage::new(&l, 1);
    assert_eq!(page.buffer_name(), "Beta");
    assert_eq!(page.chapter(), 2);
    assert_eq!(page.episode(), 5);
    assert_eq!(page.title(&l), "Beta");
    assert_eq!(page.editable_media_id(), 1);
    assert_eq!(effects.len(), 1);
    assert!(matches!(&effects[0], Effect::LoadEpisodes { chapter_path } if chapter_path.is_empty()));
    assert_eq!(page.watch_sign(&l), None);
}

#[test]
fn media_edit_page_warns_about_a_used_name() {
    let mut l = list();
    let (mut page, _) = MediaEditPage::new(&l, 0);
    let effects = page.update(&mut l, Msg::NameChanged("Beta".to_string())).ok().unwrap();
    assert!(effects.is_empty());
    assert_eq!(page.warning_message(), Some("Name must be unique".to_string()));
    assert_eq!(page.buffer_name(), "Beta");
    assert_eq!(l.get(0).name(), "Alpha");
    let effects = page.update(&mut l, Msg::NameChanged("Gamma".to_string())).ok().unwrap();
    assert_eq!(page.warning_message(), None);
    assert_eq!(l.get(0).name(), "Alpha");
    assert!(matches!(
        effects.as_slice(),
        [Effect::MoveMediaFile { from, to, name }]
            if from == "/d/Alpha.ron" && to == "/d/Gamma.ron" && name == "Gamma"
    ));
    let effects = page.update(&mut l, Msg::MediaFileMoved("Gamma".to_string())).ok().unwrap();
    assert_eq!(l.get(0).name(), "Gamma");
    assert_eq!(l.get(0).dest_path(), "/d/Gamma.ron");
    assert!(matches!(effects.as_slice(), [Effect::SaveMedia { id: 0 }]));
    let effects = page.update(&mut l, Msg::NameChanged("Gamma".to_string())).ok().unwrap();
    assert!(matches!(effects.as_slice(), [Effect::SaveMedia { id: 0 }]));
    let res = page.update(&mut l, Msg::MediaFileMoved("Beta".to_string()));
    assert!(matches!(res, Err(ErrorKind::MediaNameIsUsed { .. })));
    page.update(&mut l, Msg::Warning(WarningMsg::Close)).ok().unwrap();
    assert_eq!(page.warning_message(), None);
}

#[test]
fn media_edit_page_stores_chapter_and_episode() {
    let mut l = list();
    let (mut page, _) = MediaEditPage::new(&l, 1);
    let effects = page.update(&mut l, Msg::ChapterChanged(3)).ok().unwrap();
    assert!(matches!(effects.as_slice(), [Effect::SaveMedia { id: 1 }]));
    assert_eq!(l.get(1).chapter(), 3);
    let effects = page.update(&mut l, Msg::ChapterChanged(0)).ok().unwrap();
    assert!(effects.is_empty());
    assert_eq!(page.chapter(), 0);
    assert_eq!(l.get(1).chapter(), 3);
    let effects = page.update(&mut l, Msg::EpisodeChanged(7)).ok().unwrap();
    assert!(matches!(effects.as_slice(), [Effect::SaveMedia { id: 1 }]));
    assert_eq!(l.get(1).episode(), 7);
}

#[test]
fn media_edit_page_confirms_an_episode_overflow() {
    let mut l = list();
    let (mut page, _) = MediaEditPage::new(&l, 0);
    page.update(&mut l, Msg::EpisodeListLoaded(Ok(episodes(2)))).ok().unwrap();
    assert_eq!(page.watch_sign(&l), Some("ep1".to_string()));
    assert!(matches!(page.watch_message(&l), Some(Msg::Watch { ref path }) if path == "/v/alpha/s1/ep1.mkv"));
    let effects = page.update(&mut l, Msg::EpisodeChanged(3)).ok().unwrap();
    assert!(matches!(effects.as_slice(), [Effect::CheckOverflow { chapter_path }] if chapter_path == "/v/alpha/s1"));
    assert_eq!(l.get(0).episode(), 1);
    page.update(&mut l, Msg::CheckOverflow(Ok(episodes(2)))).ok().unwrap();
    assert_eq!(
        page.confirm_message(),
        Some("Seems like 2 episode is a last of it chapter. Switch to the next chapter?".to_string())
    );
    let effects = page.update(&mut l, Msg::ConfirmScreen(ConfirmMsg::Confirm)).ok().unwrap();
    assert_eq!(page.confirm_message(), None);
    assert_eq!((l.get(0).chapter(), l.get(0).episode()), (2, 1));
    assert_eq!((page.chapter(), page.episode()), (2, 1));
    assert!(matches!(
        effects.as_slice(),
        [Effect::SaveMedia { id: 0 }, Effect::SaveMedia { id: 0 }, Effect::FindNextChapterPath { chapter_path }]
            if chapter_path == "/v/alpha/s1"
    ));
}

#[test]
fn media_edit_page_switches_to_the_next_chapter_path() {
    let mut l = list();
    let (mut page, _) = MediaEditPage::new(&l, 0);
    page.update(&mut l, Msg::NextChapterPath(Ok("/v/alpha/s2".to_string()))).ok().unwrap();
    assert_eq!(
        page.confirm_message(),
        Some("Proposed path to next chapter: \"/v/alpha/s2\"".to_string())
    );
    let effects = page.update(&mut l, Msg::ConfirmScreen(ConfirmMsg::Confirm)).ok().unwrap();
    assert_eq!(l.get(0).chapter_path(), "/v/alpha/s2");
    assert!(matches!(
        effects.as_slice(),
        [Effect::SaveMedia { id: 0 }, Effect::LoadEpisodes { chapter_path }] if chapter_path == "/v/alpha/s2"
    ));
    let res = page.update(&mut l, Msg::NextChapterPath(Err(ErrorKind::FailedToFindNextChapterPath)));
    assert!(matches!(res, Err(ErrorKind::FailedToFindNextChapterPath)));
}

#[test]
fn media_edit_page_takes_a_picked_folder_url() {
    let mut l = list();
    let (mut page, _) = MediaEditPage::new(&l, 1);
    let effects = page.update(&mut l, Msg::ChapterPathSelected("file:///tmp/show/s1".to_string())).ok().unwrap();
    assert_eq!(l.get(1).chapter_path(), "/tmp/show/s1");
    assert!(matches!(effects.as_slice(), [Effect::SaveMedia { id: 1 }, Effect::LoadEpisodes { .. }]));
    let effects = page.update(&mut l, Msg::ChapterPathSelected("not a url".to_string())).ok().unwrap();
    assert!(effects.is_empty());
    assert_eq!(page.warning_message(), Some("Wrong chapter path".to_string()));
    assert_eq!(l.get(1).chapter_path(), "/tmp/show/s1");
}

#[test]
fn media_edit_page_reports_dialog_errors() {
    let mut l = list();
    let (mut page, _) = MediaEditPage::new(&l, 0);
    let res = page.update(&mut l, Msg::OpenDialogError("boom".to_string()));
    assert!(matches!(res, Err(ErrorKind::OpenDialog { ref message }) if message == "boom"));
    let e = ErrorKind::OpenDialog { message: "boom".to_string() };
    assert_eq!(e.message(), "Failed to open the file dialog: boom");
    let effects = page.update(&mut l, Msg::OpenChapterDirectory).ok().unwrap();
    assert!(matches!(effects.as_slice(), [Effect::OpenChapterDirectory { chapter_path }] if chapter_path == "/v/alpha/s1"));
    page.update(&mut l, Msg::ChapterDirectoryMissing).ok().unwrap();
    assert_eq!(page.warning_message(), Some("Wrong chapter path".to_string()));
}

#[test]
fn media_edit_page_shows_why_episodes_are_missing() {
    let mut l = list();
    let (mut page, _) = MediaEditPage::new(&l, 0);
    assert_eq!(page.watch_sign(&l), Some("Loading...".to_string()));
    page.update(&mut l, Msg::EpisodeListLoaded(Err(ErrorKind::EpisodesDidNotFound))).ok().unwrap();
    assert_eq!(page.watch_sign(&l), Some("Chapter path is incorrect: Episodes didn't found".to_string()));
    assert!(page.watch_message(&l).is_none());
}

#[test]
fn dialogs_default_closed_and_from_content() {
    let d: Dialog<ConfirmPage<u8>> = Dialog::default();
    assert!(!d.is_open());
    let d: Dialog<ConfirmPage<u8>> = Dialog::from(ConfirmPage::from(7u8));
    assert_eq!(d.kind(), Some(&7u8));
    let c: ConfirmDlg<u8> = Dialog::<ConfirmPage<u8>>::from_kind(3);
    assert_eq!(c.kind(), Some(&3u8));
    let w: WarningDlg<u8> = Dialog::<WarningPage<u8>>::from_kind(4);
    assert_eq!(w.kind(), Some(&4u8));
    assert_eq!(WarningPage::from(5u8).kind, 5);
    let l: LoadingDialog<LoadingKind> = LoadingDialog::default();
    assert!(!l.is_loading());
}

#[test]
fn open_folder_is_offered_only_with_a_chapter_directory() {
    let l = list();
    let (with_dir, _) = MediaEditPage::new(&l, 0);
    assert!(matches!(with_dir.open_directory_message(&l), Some(Msg::OpenChapterDirectory)));
    let (without_dir, _) = MediaEditPage::new(&l, 1);
    assert!(without_dir.open_directory_message(&l).is_none());
}
