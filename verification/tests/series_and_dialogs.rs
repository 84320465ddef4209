use open_media_tracker::dialogs::error_dialog::ErrorDialog;
use open_media_tracker::dialogs::serial_edit_dialog::{Kind, Message, Serial, SerialEditDialog, SerialError};
use open_media_tracker::dialogs::Dialog;
use open_media_tracker::episode_list::Episodes;
use open_media_tracker::error::ErrorKind;
use open_media_tracker::gui::page::confirm::Msg as ConfirmMsg;
use open_media_tracker::gui::page::media_edit::Effect;
use open_media_tracker::gui::series_edit::message::Message as SeriesMsg;
use open_media_tracker::gui::series_edit::SeriesEditScreen;
use open_media_tracker::media::Media;
use open_media_tracker::media_list::MediaList;

fn series_list() -> MediaList {
    MediaList::from_media(vec![
        Media::from_parts("Show".to_string(), 1, 1, "/v/show/S1".to_string(), "/d/Show.ron".to_string()),
        Media::from_parts("Other".to_string(), 3, 4, String::new(), "/d/Other.ron".to_string()),
    ])
}

fn season_episodes(n: usize) -> Episodes {
    Episodes::read((1..=n).map(|i| format!("/v/show/S1/e{i}.mkv")).collect())
}

#[test]
fn series_screen_reads_typed_numbers() {
    let mut l = series_list();
    let (mut s, effects) = SeriesEditScreen::new(&l, 1);
    assert!(matches!(effects.as_slice(), [Effect::LoadEpisodes { .. }]));
    assert_eq!(s.title(&l), "Other");
    s.update(&mut l, SeriesMsg::SeasonChanged("7".to_string())).ok().unwrap();
    assert_eq!(l.get(1).chapter(), 7);
    let e = s.update(&mut l, SeriesMsg::SeasonChanged("0".to_string())).ok().unwrap();
    assert!(e.is_empty());
    assert_eq!(l.get(1).chapter(), 7);
    s.update(&mut l, SeriesMsg::SeasonChanged("256".to_string())).ok().unwrap();
    assert_eq!(l.get(1).chapter(), 7);
    let e = s.update(&mut l, SeriesMsg::SeasonChanged(String::new())).ok().unwrap();
    assert!(matches!(e.as_slice(), [Effect::SaveMedia { id: 1 }]));
    assert_eq!(l.get(1).chapter(), 1);
    s.update(&mut l, SeriesMsg::EpisodeChanged("+9".to_string())).ok().unwrap();
    assert_eq!(l.get(1).episode(), 9);
    s.update(&mut l, SeriesMsg::EpisodeChanged(String::new())).ok().unwrap();
    assert_eq!(l.get(1).episode(), 1);
}

#[test]
fn series_screen_never_goes_below_one() {
    let mut l = series_list();
    let (mut s, _) = SeriesEditScreen::new(&l, 0);
    let e = s.update(&mut l, SeriesMsg::SeasonDec).ok().unwrap();
    assert!(e.is_empty());
    assert_eq!(s.warning_message(), Some("Season can not be zero".to_string()));
    s.update(&mut l, SeriesMsg::EpisodeDec).ok().unwrap();
    assert_eq!(s.warning_message(), Some("Episode can not be zero".to_string()));
    assert_eq!((l.get(0).chapter(), l.get(0).episode()), (1, 1));
}

#[test]
fn series_screen_asks_before_passing_the_last_episode() {
    let mut l = series_list();
    let (mut s, _) = SeriesEditScreen::new(&l, 0);
    let e = s.update(&mut l, SeriesMsg::EpisodeInc).ok().unwrap();
    assert!(e.is_empty());
    assert_eq!(l.get(0).episode(), 1);
    s.update(&mut l, SeriesMsg::EpisodesLoaded(Ok(season_episodes(2)))).ok().unwrap();
    s.update(&mut l, SeriesMsg::EpisodeInc).ok().unwrap();
    assert_eq!(l.get(0).episode(), 2);
    let e = s.update(&mut l, SeriesMsg::EpisodeInc).ok().unwrap();
    assert!(e.is_empty());
    assert_eq!(l.get(0).episode(), 2);
    assert_eq!(
        s.confirm_message(),
        Some("Seems like 2 episode is a last of it season. Switch to the next season?".to_string())
    );
    let e = s.update(&mut l, SeriesMsg::ConfirmScreen(ConfirmMsg::Confirm)).ok().unwrap();
    assert_eq!((l.get(0).chapter(), l.get(0).episode()), (2, 1));
    assert!(matches!(
        e.as_slice(),
        [Effect::SaveMedia { .. }, Effect::SaveMedia { .. }, Effect::FindNextChapterPath { chapter_path }]
            if chapter_path == "/v/show/S1"
    ));
    s.update(&mut l, SeriesMsg::NextSeasonPath(Ok("/v/show/S2".to_string()))).ok().unwrap();
    assert_eq!(s.confirm_message(), Some("Proposed path to next season: \"/v/show/S2\"".to_string()));
    let e = s.update(&mut l, SeriesMsg::ConfirmScreen(ConfirmMsg::Confirm)).ok().unwrap();
    assert_eq!(l.get(0).chapter_path(), "/v/show/S2");
    assert!(matches!(e.as_slice(), [Effect::SaveMedia { id: 0 }, Effect::LoadEpisodes { chapter_path }] if chapter_path == "/v/show/S2"));
}

#[test]
fn series_screen_warns_and_reports() {
    let mut l = series_list();
    let (mut s, _) = SeriesEditScreen::new(&l, 0);
    s.update(&mut l, SeriesMsg::NameChanged("Other".to_string())).ok().unwrap();
    assert_eq!(s.warning_message(), Some("Name must be unique".to_string()));
    assert_eq!(s.buffer_name(), "Other");
    s.update(&mut l, SeriesMsg::SeasonDirectoryMissing).ok().unwrap();
    assert_eq!(s.warning_message(), Some("Wrong season path".to_string()));
    let res = s.update(&mut l, SeriesMsg::NextSeasonPath(Err(ErrorKind::FailedToFindNextChapterPath)));
    assert!(matches!(res, Err(ErrorKind::FailedToFindNextChapterPath)));
}

#[test]
fn serial_dialog_edits_its_numbers() {
    let mut d = SerialEditDialog::new().ok().unwrap();
    assert_eq!(d.numbers(), (1, 1));
    assert!(matches!(d.kind(), Kind::New));
    d.update(Message::SeasonChanged("12".to_string())).ok().unwrap();
    d.update(Message::SeasonChanged("abc".to_string())).ok().unwrap();
    d.update(Message::SeriaInc).ok().unwrap();
    d.update(Message::SeriaDec).ok().unwrap();
    d.update(Message::NameChanged("Lost".to_string())).ok().unwrap();
    assert_eq!(d.numbers(), (12, 2));
    assert!(matches!(d.accept(), Message::Accept { kind: Kind::New, ref name, season: 12, seria: 2 } if name == "Lost"));
}

#[test]
fn serial_dialog_refuses_to_pass_255() {
    let serial = Serial { name: "S".to_string(), current_season: 255, current_seria: 3 };
    let mut d = SerialEditDialog::change(&serial, 4);
    assert!(matches!(d.kind(), Kind::Change { id: 4 }));
    assert!(matches!(d.update(Message::SeasonInc), Err(SerialError::NumberOverflow)));
    assert_eq!(d.numbers(), (255, 3));
    assert_eq!(d.name(), "S");
}

#[test]
fn dialogs_are_built_for_their_purpose() {
    assert!(matches!(Dialog::add_serial(), Ok(Dialog::SerialChange(_))));
    assert!(matches!(Dialog::main_window(vec![]), Dialog::MainWindow(_)));
    match Dialog::error("disk full".to_string()) {
        Dialog::Error(d) => assert_eq!(d.body(), "Error: disk full"),
        _ => panic!("expected the error dialog"),
    }
    assert_eq!(ErrorDialog::new("x".to_string()).body(), "Error: x");
}

#[test]
fn series_watch_sign_names_the_episode_or_the_problem() {
    let mut l = series_list();
    let (mut s, _) = SeriesEditScreen::new(&l, 0);
    assert_eq!(s.watch_sign(&l), Some("Loading...".to_string()));
    s.update(&mut l, SeriesMsg::EpisodesLoaded(Ok(season_episodes(2)))).ok().unwrap();
    assert_eq!(s.watch_sign(&l), Some("e1".to_string()));
    let io = ErrorKind::fsio("/v/show/S1".to_string(), "permission denied".to_string());
    s.update(&mut l, SeriesMsg::EpisodesLoaded(Err(io))).ok().unwrap();
    assert_eq!(s.watch_sign(&l), Some("Season path is incorrect: permission denied".to_string()));
    s.update(&mut l, SeriesMsg::EpisodesLoaded(Err(ErrorKind::EpisodesDidNotFound))).ok().unwrap();
    assert_eq!(s.watch_sign(&l), Some("Season path is incorrect: Episodes didn't found".to_string()));
    let (other, _) = SeriesEditScreen::new(&l, 1);
    assert_eq!(other.watch_sign(&l), None);
}

#[test]
fn series_name_check_covers_the_series_itself() {
    let mut l = series_list();
    let (mut s, _) = SeriesEditScreen::new(&l, 0);
    let e = s.update(&mut l, SeriesMsg::NameChanged("Show".to_string())).ok().unwrap();
    assert!(e.is_empty());
    assert_eq!(s.warning_message(), Some("Name must be unique".to_string()));
    let e = s.update(&mut l, SeriesMsg::NameChanged("Lost".to_string())).ok().unwrap();
    assert_eq!(s.warning_message(), None);
    assert_eq!(l.get(0).name(), "Show");
    assert!(matches!(
        e.as_slice(),
        [Effect::MoveMediaFile { from, to, name }] if from == "/d/Show.ron" && to == "/d/Lost.ron" && name == "Lost"
    ));
    let e = s.update(&mut l, SeriesMsg::FileMoved("Lost".to_string())).ok().unwrap();
    assert_eq!(l.get(0).name(), "Lost");
    assert!(matches!(e.as_slice(), [Effect::SaveMedia { id: 0 }]));
}

#[test]
fn series_buttons_send_watch_and_delete() {
    let mut l = series_list();
    let (mut s, _) = SeriesEditScreen::new(&l, 0);
    assert!(s.watch_message(&l).is_none());
    s.update(&mut l, SeriesMsg::EpisodesLoaded(Ok(season_episodes(2)))).ok().unwrap();
    assert!(matches!(s.watch_message(&l), Some(SeriesMsg::Watch { ref path }) if path == "/v/show/S1/e1.mkv"));
    assert!(matches!(s.delete_message(), SeriesMsg::Delete(0)));
}
