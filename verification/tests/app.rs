use open_media_tracker::config::Config;
use open_media_tracker::error::ErrorKind;
use open_media_tracker::gui::app::message::Msg;
use open_media_tracker::gui::app::screens::Screens;
use open_media_tracker::gui::app::{AppEffect, OpenMediaTracker, Overlay};
use open_media_tracker::gui::page::confirm::Msg as ConfirmMsg;
use open_media_tracker::gui::page::error::Msg as ErrorMsg;
use open_media_tracker::gui::page::main::Msg as MainMsg;
use open_media_tracker::gui::page::media_edit::message::Msg as EditMsg;
use open_media_tracker::gui::page::media_edit::Effect;
use open_media_tracker::media::Media;
use open_media_tracker::media_list::MediaList;

fn started() -> OpenMediaTracker {
    let (app, effects) = OpenMediaTracker::init(Ok(Config { data_dir: "/data".to_string() }));
    assert!(matches!(effects.as_slice(), [AppEffect::ReadMedia { data_dir }] if data_dir == "/data"));
    app
}

fn loaded(names: &[&str]) -> OpenMediaTracker {
    let mut app = started();
    let media: Vec<Media> = names
        .iter()
        .map(|n| Media::from_parts(n.to_string(), 1, 1, String::new(), format!("/data/{n}.ron")))
        .collect();
    let effects = app.update(Msg::MediaLoaded(MediaList::from_media(media), None));
    assert!(effects.is_empty());
    app
}

#[test]
fn app_starts_loading_the_media() {
    let app = started();
    assert!(matches!(app.overlay(), Overlay::Loading));
    assert_eq!(app.title(), "Open Media Tracker - Loading");
    assert_eq!(app.data_dir(), "/data");
    assert!(matches!(app.screen(), Screens::Main(_)));
}

#[test]
fn loading_ends_when_the_media_are_read() {
    let app = loaded(&["A", "B"]);
    assert!(matches!(app.overlay(), Overlay::Nothing));
    assert_eq!(app.title(), "Open Media Tracker");
    assert_eq!(app.media_list().names(), vec!["A".to_string(), "B".to_string()]);
    match app.screen() {
        Screens::Main(page) => assert_eq!(page.entries(), &vec!["A".to_string(), "B".to_string()]),
        _ => panic!("expected the main page"),
    }
}

#[test]
fn a_read_error_is_shown_with_the_media_read() {
    let mut app = started();
    app.update(Msg::MediaLoaded(MediaList::new(), Some(ErrorKind::UserDataDirNotFound)));
    assert!(matches!(app.overlay(), Overlay::Error));
    assert_eq!(app.title(), "Open Media Tracker - Error");
    let page = app.error_page().unwrap();
    assert_eq!(page.body(), "Failed to found user's data directory");
    assert!(matches!(page.ok_message(), ErrorMsg::OkPressed { fatal: false }));
}

#[test]
fn config_error_is_fatal() {
    let (mut app, effects) = OpenMediaTracker::init(Err(ErrorKind::UserDataDirNotFound));
    assert_eq!(effects.len(), 1);
    assert!(matches!(app.screen(), Screens::Error(p) if p.error.critical));
    app.update(Msg::MediaLoaded(MediaList::new(), None));
    assert_eq!(app.title(), "Open Media Tracker - Fatal error");
    let effects = app.update(Msg::ErrorScreen(ErrorMsg::OkPressed { fatal: true }));
    assert!(matches!(effects.as_slice(), [AppEffect::CloseApp]));
}

#[test]
fn error_is_shown_then_dismissed() {
    let mut app = loaded(&["A"]);
    let effects = app.update(Msg::EffectFailed(ErrorKind::EpisodeNotFound));
    assert!(effects.is_empty());
    assert!(matches!(app.overlay(), Overlay::Error));
    assert_eq!(app.error_page().unwrap().body(), "Eisode not found");
    let effects = app.update(Msg::ErrorScreen(ErrorMsg::OkPressed { fatal: false }));
    assert!(effects.is_empty());
    assert!(matches!(app.overlay(), Overlay::Nothing));
    assert_eq!(app.title(), "Open Media Tracker");
}

#[test]
fn adding_a_media_names_it_and_opens_it() {
    let mut app = loaded(&["New media"]);
    let effects = app.update(Msg::MainScreen(MainMsg::AddMedia));
    assert!(matches!(effects.as_slice(), [AppEffect::ListMediaDir { data_dir }] if data_dir == "/data"));
    let mut effects = app.update(Msg::MediaDirListed(Ok(vec!["New media.ron".to_string()])));
    assert_eq!(app.media_list().len(), 1);
    assert_eq!(effects.len(), 1);
    let media = match effects.remove(0) {
        AppEffect::SaveNewMedia { media } => media,
        _ => panic!("expected the new media to be written first"),
    };
    assert_eq!(media.name(), "New media 1");
    let effects = app.update(Msg::MediaCreated(media));
    assert!(matches!(effects.as_slice(), [AppEffect::Page(Effect::LoadEpisodes { .. })]));
    assert_eq!(app.media_list().get(1).name(), "New media 1");
    assert_eq!(app.media_list().get(1).dest_path(), "/data/New media 1.ron");
    assert_eq!(app.title(), "Open Media Tracker - New media 1");
    let effects = app.update(Msg::CreateMedia);
    assert!(matches!(effects.as_slice(), [AppEffect::ListMediaDir { .. }]));
}

#[test]
fn listing_error_is_shown() {
    let mut app = loaded(&[]);
    app.update(Msg::MediaDirListed(Err(ErrorKind::UserDataDirNotFound)));
    assert!(matches!(app.overlay(), Overlay::Error));
    assert_eq!(app.media_list().len(), 0);
}

#[test]
fn confirmed_delete_removes_the_media() {
    let mut app = loaded(&["A", "B", "C"]);
    app.update(Msg::SelectMedia("B".to_string()));
    assert!(matches!(app.screen(), Screens::MediaChange(p) if p.editable_media_id() == 1));
    app.update(Msg::MediaEditScreen(EditMsg::Delete(1)));
    assert!(matches!(app.overlay(), Overlay::Confirm));
    assert_eq!(
        app.confirm_message(),
        Some("You actually want to delete media \"B\" from the list?".to_string())
    );
    assert_eq!(app.title(), "Open Media Tracker - Delte media");
    let effects = app.update(Msg::ConfirmScreen(ConfirmMsg::Confirm));
    assert!(matches!(effects.as_slice(), [AppEffect::RemoveMediaFile { path }] if path == "/data/B.ron"));
    assert_eq!(app.media_list().names(), vec!["A".to_string(), "C".to_string()]);
    assert!(matches!(app.overlay(), Overlay::Nothing));
    assert!(matches!(app.screen(), Screens::Main(p) if p.entries() == &vec!["A".to_string(), "C".to_string()]));
}

#[test]
fn cancelled_delete_keeps_the_media() {
    let mut app = loaded(&["A"]);
    app.update(Msg::SelectMedia("A".to_string()));
    app.update(Msg::MediaEditScreen(EditMsg::Delete(0)));
    let effects = app.update(Msg::ConfirmScreen(ConfirmMsg::Cancel));
    assert!(effects.is_empty());
    assert_eq!(app.media_list().len(), 1);
    assert!(matches!(app.overlay(), Overlay::Nothing));
    assert!(matches!(app.screen(), Screens::MediaChange(_)));
}

#[test]
fn menu_button_opens_the_media_and_back_returns() {
    let mut app = loaded(&["A", "B"]);
    let effects = app.update(Msg::MainScreen(MainMsg::MenuButton(0)));
    assert!(matches!(effects.as_slice(), [AppEffect::Page(Effect::LoadEpisodes { .. })]));
    assert_eq!(app.title(), "Open Media Tracker - A");
    let effects = app.update(Msg::MediaEditScreen(EditMsg::Watch { path: "/v/a.mkv".to_string() }));
    assert!(matches!(effects.as_slice(), [AppEffect::Open { path }] if path == "/v/a.mkv"));
    app.update(Msg::MediaEditScreen(EditMsg::Back));
    assert!(matches!(app.screen(), Screens::Main(_)));
    assert!(app.update(Msg::SelectMedia("missing".to_string())).is_empty());
    assert!(matches!(app.screen(), Screens::Main(_)));
}

#[test]
fn page_errors_reach_the_error_dialog() {
    let mut app = loaded(&["A"]);
    app.update(Msg::SelectMedia("A".to_string()));
    let effects = app.update(Msg::MediaEditScreen(EditMsg::NextChapterPath(Err(
        ErrorKind::FailedToFindNextChapterPath,
    ))));
    assert!(effects.is_empty());
    assert_eq!(app.error_page().unwrap().body(), "Failed to find next chapter path");
}

#[test]
fn media_edit_page_stays_after_reload() {
    let mut app = loaded(&["A", "B"]);
    app.update(Msg::SelectMedia("B".to_string()));
    let media = vec![
        Media::from_parts("X".to_string(), 1, 1, String::new(), "/data/X.ron".to_string()),
        Media::from_parts("Y".to_string(), 1, 1, String::new(), "/data/Y.ron".to_string()),
    ];
    app.update(Msg::MediaLoaded(MediaList::from_media(media), None));
    assert!(matches!(app.screen(), Screens::MediaChange(p) if p.editable_media_id() == 1));
    assert_eq!(app.title(), "Open Media Tracker - Y");
}
