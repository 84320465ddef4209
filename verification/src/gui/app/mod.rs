//! The application: its screens, dialogs and the media list, and what each
//! message does to them.

pub mod kinds;
pub mod message;
pub mod screens;

use vstd::prelude::*;
use vstd::string::*;
use crate::config::Config;
use crate::error::{Error, ErrorKind};
use crate::gui::dialog::{Dialog, IDialog};
use crate::gui::loading::{LoadingDialog, loading_insert, loading_complete};
use crate::gui::page::confirm::{ConfirmDlg, Msg as ConfirmPageMsg, confirm_dialog};
use crate::gui::page::error::{ErrorPage, Msg as ErrorPageMsg};
use crate::gui::page::main::{MainPage, MainPageView, Msg as MainPageMsg, Request, main_update};
use crate::gui::page::media_edit::{Effect, EffectView, effect_views, media_edit_step, new_page_view};
use crate::gui::page::media_edit::message::Msg as MediaEditPageMsg;
use crate::media::{Media, MediaView, is_first_free_name, string_views, spec_path_join, spec_file_name};
use crate::media_list::{MediaList, first_named, list_names};
use kinds::{ConfirmKind, ConfirmKindView, LoadingKind};
use message::Msg;
use screens::{Screens, ScreenView};

verus! {

/// Work the application asks its host to do.
pub enum AppEffect {
    /// Read the media files of the data directory; answer with
    /// `Msg::MediaLoaded`.
    ReadMedia { data_dir: String },
    /// List the files of the data directory; answer with
    /// `Msg::MediaDirListed`.
    ListMediaDir { data_dir: String },
    /// Write a new media to its file; answer with `Msg::MediaCreated` once
    /// it is written.
    SaveNewMedia { media: Media },
    /// Delete the file of a media taken out of the list.
    RemoveMediaFile { path: String },
    /// Open `path` with the default program.
    Open { path: String },
    /// Close the application.
    CloseApp,
    /// Work asked for by the media edit page.
    Page(Effect),
}

pub enum AppEffectView {
    ReadMedia { data_dir: Seq<char> },
    ListMediaDir { data_dir: Seq<char> },
    SaveNewMedia { media: MediaView },
    RemoveMediaFile { path: Seq<char> },
    Open { path: Seq<char> },
    CloseApp,
    Page(EffectView),
}

impl View for AppEffect {
    type V = AppEffectView;

    open spec fn view(&self) -> AppEffectView {
        match self {
            AppEffect::ReadMedia { data_dir } => AppEffectView::ReadMedia { data_dir: data_dir@ },
            AppEffect::ListMediaDir { data_dir } => AppEffectView::ListMediaDir { data_dir: data_dir@ },
            AppEffect::SaveNewMedia { media } => AppEffectView::SaveNewMedia { media: media@ },
            AppEffect::RemoveMediaFile { path } => AppEffectView::RemoveMediaFile { path: path@ },
            AppEffect::Open { path } => AppEffectView::Open { path: path@ },
            AppEffect::CloseApp => AppEffectView::CloseApp,
            AppEffect::Page(e) => AppEffectView::Page(e@),
        }
    }
}

pub open spec fn app_effect_views(s: Seq<AppEffect>) -> Seq<AppEffectView> {
    s.map_values(|e: AppEffect| e@)
}

/// The work of the media edit page, as work of the application.
pub open spec fn page_effects(s: Seq<EffectView>) -> Seq<AppEffectView> {
    s.map_values(|e: EffectView| AppEffectView::Page(e))
}

/// What is shown over the screen.
pub enum Overlay {
    Loading,
    Error,
    Confirm,
    Nothing,
}

/// The state of the application: the media list, the screen, the
/// confirmation and error dialogs, the loading screen (with what is
/// pending) and the data directory.
pub struct AppView {
    pub list: Seq<MediaView>,
    pub screen: ScreenView,
    pub confirm: Option<ConfirmKindView>,
    pub error: Option<Error>,
    pub loading: Option<Set<LoadingKind>>,
    pub data_dir: Seq<char>,
}

/// A media edit page always edits a media of the list.
pub open spec fn app_consistent(s: AppView) -> bool {
    s.screen matches ScreenView::MediaChange(p) ==> p.media_id < s.list.len()
}

/// The state the application starts in, with the configuration read or the
/// error met reading it.
pub open spec fn init_view(config: Result<Config, ErrorKind>) -> AppView {
    let empty_main = ScreenView::Main(MainPageView { entries: Seq::empty(), sorting: None, search_bar: Seq::empty() });
    AppView {
        list: Seq::empty(),
        screen: match config {
            Ok(_) => empty_main,
            Err(e) => ScreenView::Error(Error { kind: e, critical: true }),
        },
        confirm: None,
        error: None,
        loading: loading_insert(None, LoadingKind::ReadMedia),
        data_dir: match config {
            Ok(c) => c.data_dir@,
            Err(_) => Seq::empty(),
        },
    }
}

/// The main page listing the media of `s` in their order.
pub open spec fn show_main(s: AppView) -> AppView {
    AppView {
        screen: ScreenView::Main(MainPageView { entries: list_names(s.list), sorting: None, search_bar: Seq::empty() }),
        ..s
    }
}

/// `s` with `e`, if any, shown in an error dialog after which the
/// application goes on.
pub open spec fn with_error(s: AppView, e: Option<ErrorKind>) -> AppView {
    match e {
        Some(k) => AppView { error: Some(Error { kind: k, critical: false }), ..s },
        None => s,
    }
}

/// Opens the edit page of the media at `id`.
pub open spec fn open_media(s: AppView, id: int) -> (AppView, Seq<AppEffectView>) {
    (
        AppView { screen: ScreenView::MediaChange(new_page_view(s.list, id)), ..s },
        seq![AppEffectView::Page(EffectView::LoadEpisodes { chapter_path: s.list[id].chapter_path })],
    )
}

/// Opens the edit page of the first media called `name`, if there is one.
pub open spec fn select_step(s: AppView, name: Seq<char>) -> (AppView, Seq<AppEffectView>) {
    match first_named(s.list, name) {
        Some(id) => open_media(s, id),
        None => (s, Seq::empty()),
    }
}

/// `m` is a new media for the data directory `data_dir`, which holds the
/// files `files`.
pub open spec fn is_new_media(m: MediaView, data_dir: Seq<char>, files: Seq<Seq<char>>) -> bool {
    &&& is_first_free_name(m.name, files)
    &&& m.dest_path == spec_path_join(data_dir, spec_file_name(m.name))
    &&& m.chapter == 1
    &&& m.episode == 1
    &&& m.chapter_path == Seq::<char>::empty()
}

/// Adds `m`, whose file is written, at the end of the list and opens its
/// edit page.
pub open spec fn add_media_step(s: AppView, m: MediaView) -> (AppView, Seq<AppEffectView>) {
    open_media(AppView { list: s.list.push(m), ..s }, s.list.len() as int)
}

/// What the application does with the request `r` of the main page.
pub open spec fn after_main(s: AppView, r: Option<Request>) -> (AppView, Seq<AppEffectView>) {
    match r {
        Some(Request::SelectMedia(n)) => select_step(s, n@),
        Some(Request::CreateMedia) => (s, seq![AppEffectView::ListMediaDir { data_dir: s.data_dir }]),
        None => (s, Seq::empty()),
    }
}

/// What a message of the main page does. Adding a media first lists the
/// data directory; the other messages go to the main page when it is shown.
pub open spec fn main_screen_step(s: AppView, m: MainPageMsg, t: AppView, effects: Seq<AppEffectView>) -> bool {
    match m {
        MainPageMsg::AddMedia => t == s && effects == seq![AppEffectView::ListMediaDir { data_dir: s.data_dir }],
        _ => match s.screen {
            ScreenView::Main(p) => exists|p2: MainPageView, l2: Seq<MediaView>, r: Option<Request>|
                #[trigger] main_update(p, s.list, m, p2, l2, r) && (t, effects) == after_main(
                    AppView { screen: ScreenView::Main(p2), list: l2, ..s },
                    r,
                ),
            _ => t == s && effects == Seq::<AppEffectView>::empty(),
        },
    }
}

/// What a message of the media edit page does. Deleting asks for a
/// confirmation, going back shows the main page and watching opens the
/// episode; the other messages go to the media edit page when it is shown,
/// and an error it answers is shown in the error dialog.
pub open spec fn media_edit_screen_step(s: AppView, m: MediaEditPageMsg) -> (AppView, Seq<AppEffectView>) {
    match m {
        MediaEditPageMsg::Delete(id) => (
            AppView { confirm: Some(ConfirmKindView::DeleteMedia { name: s.list[id as int].name, id: id as nat }), ..s },
            Seq::empty(),
        ),
        MediaEditPageMsg::Back => (show_main(s), Seq::empty()),
        MediaEditPageMsg::Watch { path } => (s, seq![AppEffectView::Open { path: path@ }]),
        _ => match s.screen {
            ScreenView::MediaChange(p) => {
                let out = media_edit_step(p, s.list, m);
                let s2 = AppView { screen: ScreenView::MediaChange(out.0), list: out.1, ..s };
                match out.2 {
                    Ok(e) => (s2, page_effects(e)),
                    Err(k) => (with_error(s2, Some(k)), Seq::empty()),
                }
            },
            _ => (s, Seq::empty()),
        },
    }
}

/// What the user's answer to the confirmation dialog does: a confirmed
/// deletion takes the media out of the list, deletes its file and shows the
/// main page.
pub open spec fn confirm_step(s: AppView, m: ConfirmPageMsg) -> (AppView, Seq<AppEffectView>) {
    match m {
        ConfirmPageMsg::Confirm => match s.confirm {
            Some(ConfirmKindView::DeleteMedia { id, .. }) => if id < s.list.len() {
                (
                    show_main(AppView { list: s.list.remove(id as int), confirm: None, ..s }),
                    seq![AppEffectView::RemoveMediaFile { path: s.list[id as int].dest_path }],
                )
            } else {
                (show_main(AppView { confirm: None, ..s }), Seq::empty())
            },
            None => (s, Seq::empty()),
        },
        ConfirmPageMsg::Cancel => (AppView { confirm: None, ..s }, Seq::empty()),
    }
}

/// The media list `list` has been read, with the error `e` if any: it
/// replaces the list, reading is no longer pending and the main page lists
/// it; any other screen stays as it is.
pub open spec fn media_loaded_step(s: AppView, list: Seq<MediaView>, e: Option<ErrorKind>) -> AppView {
    let s1 = AppView { list, loading: loading_complete(s.loading, LoadingKind::ReadMedia), ..s };
    let s2 = match s.screen {
        ScreenView::Main(p) => AppView { screen: ScreenView::Main(MainPageView { entries: list_names(list), ..p }), ..s1 },
        _ => s1,
    };
    with_error(s2, e)
}

/// What `msg` does to the application in state `s`, giving the state `t`
/// and the work `effects`.
pub open spec fn app_update(s: AppView, msg: Msg, t: AppView, effects: Seq<AppEffectView>) -> bool {
    match msg {
        Msg::MainScreen(m) => main_screen_step(s, m, t, effects),
        Msg::MediaEditScreen(m) => (t, effects) == media_edit_screen_step(s, m),
        Msg::ConfirmScreen(m) => (t, effects) == confirm_step(s, m),
        Msg::ErrorScreen(ErrorPageMsg::OkPressed { fatal }) => if fatal {
            t == s && effects == seq![AppEffectView::CloseApp]
        } else {
            t == AppView { error: None, ..s } && effects == Seq::<AppEffectView>::empty()
        },
        Msg::MediaLoaded(list, e) => t == media_loaded_step(s, list@, e) && effects == Seq::<AppEffectView>::empty(),
        Msg::SelectMedia(name) => (t, effects) == select_step(s, name@),
        Msg::CreateMedia => t == s && effects == seq![AppEffectView::ListMediaDir { data_dir: s.data_dir }],
        Msg::Loading => t == s && effects == Seq::<AppEffectView>::empty(),
        Msg::MediaDirListed(Ok(files)) => exists|m: MediaView|
            #[trigger] is_new_media(m, s.data_dir, string_views(files@)) && t == s && effects == seq![
                AppEffectView::SaveNewMedia { media: m },
            ],
        Msg::MediaCreated(m) => (t, effects) == add_media_step(s, m@),
        Msg::MediaDirListed(Err(k)) => t == with_error(s, Some(k)) && effects == Seq::<AppEffectView>::empty(),
        Msg::EffectFailed(k) => t == with_error(s, Some(k)) && effects == Seq::<AppEffectView>::empty(),
    }
}

/// The part of the window title after the program's name: the title of the
/// dialog shown (error, then confirmation, then loading), else the name of
/// the media being edited or the title of the error screen.
pub open spec fn spec_sub_title(s: AppView) -> Option<Seq<char>> {
    match s.error {
        Some(e) => Some(if e.critical { "Fatal error"@ } else { "Error"@ }),
        None => match s.confirm {
            Some(_) => Some("Delte media"@),
            None => match s.loading {
                Some(_) => Some("Loading"@),
                None => match s.screen {
                    ScreenView::MediaChange(p) => Some(s.list[p.media_id as int].name),
                    ScreenView::Error(e) => Some(if e.critical { "Fatal error"@ } else { "Error"@ }),
                    ScreenView::Main(_) => None,
                },
            },
        },
    }
}

/// The window title: the program's name, then the sub-title if any.
pub open spec fn spec_app_title(s: AppView) -> Seq<char> {
    match spec_sub_title(s) {
        Some(t) => "Open Media Tracker - "@ + t,
        None => "Open Media Tracker"@,
    }
}

/// The media tracker application.
pub struct OpenMediaTracker {
    media_list: MediaList,
    screen: Screens,
    confirm: ConfirmDlg<ConfirmKind>,
    error: Dialog<ErrorPage>,
    loading: LoadingDialog<LoadingKind>,
    config: Config,
}

impl View for OpenMediaTracker {
    type V = AppView;

    closed spec fn view(&self) -> AppView {
        AppView {
            list: self.media_list@,
            screen: self.screen@,
            confirm: match self.confirm@ {
                Some(p) => Some(p.kind@),
                None => None,
            },
            error: match self.error@ {
                Some(p) => Some(p.error),
                None => None,
            },
            loading: self.loading@,
            data_dir: self.config.data_dir@,
        }
    }
}

/// Wraps the work of the media edit page as work of the application.
fn wrap_page_effects(effects: Vec<Effect>) -> (res: Vec<AppEffect>)
    ensures
        app_effect_views(res@) == page_effects(effect_views(effects@)),
{
    let ghost all = effects@;
    let mut rest = effects;
    let mut res: Vec<AppEffect> = Vec::new();
    while rest.len() > 0
        invariant
            res@.len() + rest@.len() == all.len(),
            rest@ == all.subrange(res@.len() as int, all.len() as int),
            forall|k: int| 0 <= k < res@.len() ==> (#[trigger] res@[k])@ == AppEffectView::Page(all[k]@),
        decreases rest@.len(),
    {
        let e = rest.remove(0);
        res.push(AppEffect::Page(e));
    }
    assert(app_effect_views(res@) =~= page_effects(effect_views(all)));
    res
}

impl OpenMediaTracker {
    /// The application as it starts: the screen of a configuration error,
    /// or the empty main page, while the media are read.
    pub fn init(config: Result<Config, ErrorKind>) -> (res: (OpenMediaTracker, Vec<AppEffect>))
        ensures
            res.0@ == init_view(config),
            app_consistent(res.0@),
            app_effect_views(res.1@) == seq![AppEffectView::ReadMedia { data_dir: res.0@.data_dir }],
    {
        let ghost g = config;
        let (config, screen) = match config {
            Ok(c) => (c, Screens::default_screen()),
            Err(e) => (Config::placeholder(), Screens::error(Error::critical(e))),
        };
        let mut omt = OpenMediaTracker {
            media_list: MediaList::new(),
            screen,
            confirm: Dialog::closed(),
            error: Dialog::closed(),
            loading: LoadingDialog::closed(),
            config,
        };
        let effects = omt.read_media();
        assert(omt@ == init_view(g));
        (omt, effects)
    }

    fn read_media(&mut self) -> (res: Vec<AppEffect>)
        ensures
            final(self)@ == (AppView { loading: loading_insert(old(self)@.loading, LoadingKind::ReadMedia), ..old(self)@ }),
            app_effect_views(res@) == seq![AppEffectView::ReadMedia { data_dir: old(self)@.data_dir }],
    {
        self.loading.insert(LoadingKind::ReadMedia);
        let mut effects: Vec<AppEffect> = Vec::new();
        effects.push(AppEffect::ReadMedia { data_dir: self.config.data_dir.clone() });
        assert(app_effect_views(effects@) =~= seq![AppEffectView::ReadMedia { data_dir: old(self)@.data_dir }]);
        effects
    }

    fn list_media_dir(&self) -> (res: Vec<AppEffect>)
        ensures
            app_effect_views(res@) == seq![AppEffectView::ListMediaDir { data_dir: self@.data_dir }],
    {
        let mut effects: Vec<AppEffect> = Vec::new();
        effects.push(AppEffect::ListMediaDir { data_dir: self.config.data_dir.clone() });
        assert(app_effect_views(effects@) =~= seq![AppEffectView::ListMediaDir { data_dir: self@.data_dir }]);
        effects
    }

    fn show_main(&mut self)
        ensures
            final(self)@ == show_main(old(self)@),
    {
        self.screen = Screens::Main(MainPage::new(&self.media_list));
    }

    fn error_dialog(&mut self, kind: ErrorKind)
        ensures
            final(self)@ == with_error(old(self)@, Some(kind)),
    {
        self.error = Dialog::new(ErrorPage::from_error(Error::common(kind)));
    }

    fn change_media_screen(&mut self, id: usize) -> (res: Vec<AppEffect>)
        requires
            id < old(self)@.list.len(),
        ensures
            (final(self)@, app_effect_views(res@)) == open_media(old(self)@, id as int),
    {
        let (screen, effects) = Screens::change_media(&self.media_list, id);
        self.screen = screen;
        let res = wrap_page_effects(effects);
        proof {
            assert(page_effects(effect_views(effects@)) =~= seq![
                AppEffectView::Page(EffectView::LoadEpisodes { chapter_path: old(self)@.list[id as int].chapter_path }),
            ]);
        }
        res
    }

    fn main_screen_update(&mut self, m: MainPageMsg) -> (res: Vec<AppEffect>)
        requires
            app_consistent(old(self)@),
        ensures
            app_consistent(final(self)@),
            main_screen_step(old(self)@, m, final(self)@, app_effect_views(res@)),
    {
        let ghost gm = m;
        match m {
            MainPageMsg::AddMedia => self.list_media_dir(),
            _ => {
                let r = match &mut self.screen {
                    Screens::Main(page) => Some(page.update(m, &mut self.media_list)),
                    _ => None,
                };
                match r {
                    Some(r) => {
                        let ghost mid = self@;
                        let ghost gr = r;
                        proof {
                            let p = match old(self)@.screen {
                                ScreenView::Main(p) => p,
                                _ => arbitrary(),
                            };
                            let p2 = match mid.screen {
                                ScreenView::Main(p2) => p2,
                                _ => arbitrary(),
                            };
                            assert(main_update(p, old(self)@.list, gm, p2, mid.list, gr));
                            assert(mid == AppView { screen: ScreenView::Main(p2), list: mid.list, ..old(self)@ });
                        }
                        match r {
                            Some(Request::SelectMedia(name)) => self.select_media(name.as_str()),
                            Some(Request::CreateMedia) => self.list_media_dir(),
                            None => {
                                let res: Vec<AppEffect> = Vec::new();
                                assert(app_effect_views(res@) =~= Seq::<AppEffectView>::empty());
                                res
                            },
                        }
                    },
                    None => {
                        let res: Vec<AppEffect> = Vec::new();
                        assert(app_effect_views(res@) =~= Seq::<AppEffectView>::empty());
                        res
                    },
                }
            },
        }
    }

    fn media_edit_screen_update(&mut self, m: MediaEditPageMsg) -> (res: Vec<AppEffect>)
        requires
            app_consistent(old(self)@),
            m matches MediaEditPageMsg::Delete(id) ==> id < old(self)@.list.len(),
        ensures
            app_consistent(final(self)@),
            (final(self)@, app_effect_views(res@)) == media_edit_screen_step(old(self)@, m),
    {
        let empty: Vec<AppEffect> = Vec::new();
        assert(app_effect_views(empty@) =~= Seq::<AppEffectView>::empty());
        match m {
            MediaEditPageMsg::Delete(id) => {
                let name = String::from_str(self.media_list.get(id).name());
                self.confirm = confirm_dialog(ConfirmKind::DeleteMedia { name, id });
                empty
            },
            MediaEditPageMsg::Back => {
                self.show_main();
                empty
            },
            MediaEditPageMsg::Watch { path } => {
                let ghost p = path@;
                let mut res = empty;
                res.push(AppEffect::Open { path });
                assert(app_effect_views(res@) =~= seq![AppEffectView::Open { path: p }]);
                res
            },
            _ => {
                let r = match &mut self.screen {
                    Screens::MediaChange(page) => Some(page.update(&mut self.media_list, m)),
                    _ => None,
                };
                match r {
                    Some(Ok(effects)) => wrap_page_effects(effects),
                    Some(Err(k)) => {
                        self.error_dialog(k);
                        empty
                    },
                    None => empty,
                }
            },
        }
    }

    fn confirm_screen_update(&mut self, m: ConfirmPageMsg) -> (res: Vec<AppEffect>)
        requires
            app_consistent(old(self)@),
        ensures
            app_consistent(final(self)@),
            (final(self)@, app_effect_views(res@)) == confirm_step(old(self)@, m),
    {
        let mut res: Vec<AppEffect> = Vec::new();
        assert(app_effect_views(res@) =~= Seq::<AppEffectView>::empty());
        match m {
            ConfirmPageMsg::Confirm => {
                let id = match self.confirm.kind() {
                    Some(ConfirmKind::DeleteMedia { id, .. }) => *id,
                    None => {
                        return res;
                    },
                };
                let removed = self.media_list.remove(id);
                self.confirm.close();
                self.show_main();
                match removed {
                    Some(media) => {
                        res.push(AppEffect::RemoveMediaFile { path: String::from_str(media.dest_path()) });
                        assert(app_effect_views(res@) =~= seq![
                            AppEffectView::RemoveMediaFile { path: old(self)@.list[id as int].dest_path },
                        ]);
                    },
                    None => {},
                }
                res
            },
            ConfirmPageMsg::Cancel => {
                self.confirm.close();
                res
            },
        }
    }

    fn media_loaded(&mut self, list: MediaList, error: Option<ErrorKind>)
        requires
            app_consistent(old(self)@),
            old(self)@.screen matches ScreenView::MediaChange(p) ==> p.media_id < list@.len(),
        ensures
            app_consistent(final(self)@),
            final(self)@ == media_loaded_step(old(self)@, list@, error),
    {
        self.media_list = list;
        self.loading.complete(&LoadingKind::ReadMedia);
        match &mut self.screen {
            Screens::Main(page) => page.update_media(&self.media_list),
            _ => {},
        }
        match error {
            Some(k) => self.error_dialog(k),
            None => {},
        }
    }

    fn new_media(&self, files: &Vec<String>) -> (res: Vec<AppEffect>)
        ensures
            exists|m: MediaView|
                #[trigger] is_new_media(m, self@.data_dir, string_views(files@)) && app_effect_views(res@) == seq![
                    AppEffectView::SaveNewMedia { media: m },
                ],
    {
        let media = Media::with_default_name(self.config.data_dir.as_str(), files);
        let ghost gm = media@;
        let mut res: Vec<AppEffect> = Vec::new();
        res.push(AppEffect::SaveNewMedia { media });
        assert(app_effect_views(res@) =~= seq![AppEffectView::SaveNewMedia { media: gm }]);
        assert(is_new_media(gm, self@.data_dir, string_views(files@)));
        res
    }

    fn media_created(&mut self, media: Media) -> (res: Vec<AppEffect>)
        requires
            app_consistent(old(self)@),
        ensures
            app_consistent(final(self)@),
            (final(self)@, app_effect_views(res@)) == add_media_step(old(self)@, media@),
    {
        let id = self.media_list.insert(media);
        self.change_media_screen(id)
    }

    /// What `message` does to the application; the result is the work the
    /// host is asked to do. A media to delete must be in the list, and a
    /// media list read while a media edit page is shown must still hold the
    /// media of that page.
    pub fn update(&mut self, message: Msg) -> (res: Vec<AppEffect>)
        requires
            app_consistent(old(self)@),
            message matches Msg::MediaEditScreen(MediaEditPageMsg::Delete(id)) ==> id < old(self)@.list.len(),
            message matches Msg::MediaLoaded(list, _) ==> (old(self)@.screen matches ScreenView::MediaChange(p)
                ==> p.media_id < list@.len()),
        ensures
            app_consistent(final(self)@),
            app_update(old(self)@, message, final(self)@, app_effect_views(res@)),
    {
        let empty: Vec<AppEffect> = Vec::new();
        assert(app_effect_views(empty@) =~= Seq::<AppEffectView>::empty());
        match message {
            Msg::MainScreen(m) => self.main_screen_update(m),
            Msg::MediaEditScreen(m) => self.media_edit_screen_update(m),
            Msg::ConfirmScreen(m) => self.confirm_screen_update(m),
            Msg::ErrorScreen(ErrorPageMsg::OkPressed { fatal }) => {
                if fatal {
                    let mut res = empty;
                    res.push(AppEffect::CloseApp);
                    assert(app_effect_views(res@) =~= seq![AppEffectView::CloseApp]);
                    res
                } else {
                    self.error.close();
                    empty
                }
            },
            Msg::MediaLoaded(list, error) => {
                self.media_loaded(list, error);
                empty
            },
            Msg::SelectMedia(name) => self.select_media(name.as_str()),
            Msg::CreateMedia => self.list_media_dir(),
            Msg::Loading => empty,
            Msg::MediaDirListed(Ok(files)) => self.new_media(&files),
            Msg::MediaCreated(media) => self.media_created(media),
            Msg::MediaDirListed(Err(k)) => {
                self.error_dialog(k);
                empty
            },
            Msg::EffectFailed(k) => {
                self.error_dialog(k);
                empty
            },
        }
    }

    /// What is shown over the screen: the loading screen above all, then
    /// the error dialog, then the confirmation dialog.
    pub fn overlay(&self) -> (res: Overlay)
        ensures
            self@.loading is Some ==> res is Loading,
            self@.loading is None && self@.error is Some ==> res is Error,
            self@.loading is None && self@.error is None && self@.confirm is Some ==> res is Confirm,
            self@.loading is None && self@.error is None && self@.confirm is None ==> res is Nothing,
    {
        if self.loading.is_loading() {
            Overlay::Loading
        } else if self.error.is_open() {
            Overlay::Error
        } else if self.confirm.is_open() {
            Overlay::Confirm
        } else {
            Overlay::Nothing
        }
    }

    pub fn media_list(&self) -> (res: &MediaList)
        ensures
            res@ == self@.list,
    {
        &self.media_list
    }

    pub fn screen(&self) -> (res: &Screens)
        ensures
            res@ == self@.screen,
    {
        &self.screen
    }

    /// The directory holding the media files.
    pub fn data_dir(&self) -> (res: &str)
        ensures
            res@ == self@.data_dir,
    {
        self.config.data_dir.as_str()
    }

    /// The error dialog, when it is shown.
    pub fn error_page(&self) -> (res: Option<&ErrorPage>)
        ensures
            res matches Some(p) ==> self@.error == Some(p.error),
            res is None ==> self@.error is None,
    {
        self.error.as_ref()
    }

    /// The question of the confirmation dialog, when it is shown.
    pub fn confirm_message(&self) -> (res: Option<String>)
        ensures
            res matches Some(t) ==> (self@.confirm matches Some(ConfirmKindView::DeleteMedia { name, .. })
                && t@ == "You actually want to delete media \""@ + name + "\" from the list?"@),
            res is None ==> self@.confirm is None,
    {
        match self.confirm.kind() {
            Some(k) => Some(k.message()),
            None => None,
        }
    }

    /// The part of the window title after the program's name.
    pub fn sub_title(&self) -> (res: Option<String>)
        requires
            app_consistent(self@),
        ensures
            res matches Some(t) ==> spec_sub_title(self@) == Some(t@),
            res is None ==> spec_sub_title(self@) is None,
    {
        match self.error.title() {
            Some(t) => {
                return Some(t);
            },
            None => {},
        }
        match self.confirm.title() {
            Some(t) => {
                return Some(t);
            },
            None => {},
        }
        match self.loading.title() {
            Some(t) => {
                return Some(t);
            },
            None => {},
        }
        self.screen_title()
    }

    fn screen_title(&self) -> (res: Option<String>)
        requires
            app_consistent(self@),
        ensures
            self@.screen matches ScreenView::MediaChange(p) ==> (res matches Some(t) && t@ == self@.list[p.media_id as int].name),
            self@.screen matches ScreenView::Error(e) ==> (res matches Some(t) && t@ == (if e.critical { "Fatal error"@ } else { "Error"@ })),
            self@.screen is Main ==> res is None,
    {
        match &self.screen {
            Screens::Main(_) => None,
            Screens::MediaChange(page) => Some(page.title(&self.media_list)),
            Screens::Error(page) => Some(page.title()),
        }
    }

    /// The window title.
    pub fn title(&self) -> (res: String)
        requires
            app_consistent(self@),
        ensures
            res@ == spec_app_title(self@),
    {
        match self.sub_title() {
            Some(t) => {
                let mut s = String::from_str("Open Media Tracker - ");
                s.append(t.as_str());
                s
            },
            None => String::from_str("Open Media Tracker"),
        }
    }

    fn select_media(&mut self, name: &str) -> (res: Vec<AppEffect>)
        ensures
            (final(self)@, app_effect_views(res@)) == select_step(old(self)@, name@),
            app_consistent(old(self)@) ==> app_consistent(final(self)@),
    {
        match self.media_list.find_by_name(name) {
            Some(id) => self.change_media_screen(id),
            None => {
                let res: Vec<AppEffect> = Vec::new();
                assert(app_effect_views(res@) =~= Seq::<AppEffectView>::empty());
                res
            },
        }
    }
}

/// Deleting the media of the edit page and confirming takes exactly that
/// media out of the list, deletes its file and shows the main page listing
/// the others; cancelling instead only closes the dialog.
pub proof fn lemma_confirmed_delete_removes_media(
    s: AppView,
    id: usize,
    t: AppView,
    e: Seq<AppEffectView>,
)
    requires
        id < s.list.len(),
        app_update(s, Msg::MediaEditScreen(MediaEditPageMsg::Delete(id)), t, e),
    ensures
        e.len() == 0,
        ({
            let (u, e2) = confirm_step(t, ConfirmPageMsg::Confirm);
            &&& u.list == s.list.remove(id as int)
            &&& u.confirm is None
            &&& u.screen == ScreenView::Main(
                MainPageView { entries: list_names(u.list), sorting: None, search_bar: Seq::empty() },
            )
            &&& e2 == seq![AppEffectView::RemoveMediaFile { path: s.list[id as int].dest_path }]
        }),
        confirm_step(t, ConfirmPageMsg::Cancel) == (AppView { confirm: None, ..s }, Seq::<AppEffectView>::empty()),
{
}

/// An error met while working is shown in a dialog; dismissing it gives
/// back the state from before, when no error was shown then.
pub proof fn lemma_error_is_shown_then_dismissed(
    s: AppView,
    k: ErrorKind,
    t: AppView,
    e1: Seq<AppEffectView>,
    u: AppView,
    e2: Seq<AppEffectView>,
)
    requires
        s.error is None,
        app_update(s, Msg::EffectFailed(k), t, e1),
        app_update(t, Msg::ErrorScreen(ErrorPageMsg::OkPressed { fatal: t.error.unwrap().critical }), u, e2),
    ensures
        t == (AppView { error: Some(Error { kind: k, critical: false }), ..s }),
        u == s,
        e1.len() == 0,
        e2.len() == 0,
{
    assert(u == s);
}

/// A configuration that cannot be read starts the application on a fatal
/// error page, and its button closes the application.
pub proof fn lemma_config_error_is_fatal(k: ErrorKind, t: AppView, e: Seq<AppEffectView>)
    requires
        app_update(init_view(Err(k)), Msg::ErrorScreen(ErrorPageMsg::OkPressed { fatal: true }), t, e),
    ensures
        init_view(Err(k)).screen == ScreenView::Error(Error { kind: k, critical: true }),
        t == init_view(Err(k)),
        e == seq![AppEffectView::CloseApp],
{
}

/// Once the media are read, the loading screen the application started
/// with is closed.
pub proof fn lemma_loading_ends_when_media_loaded(
    config: Result<Config, ErrorKind>,
    list: Seq<MediaView>,
    e: Option<ErrorKind>,
)
    ensures
        init_view(config).loading is Some,
        media_loaded_step(init_view(config), list, e).loading is None,
{
    crate::gui::loading::lemma_complete_undoes_insert(None, LoadingKind::ReadMedia);
}

/// Going back from the media edit page shows the main page listing the
/// names of all the media, in the list's order, and changes nothing else.
pub proof fn lemma_back_lists_all_media(s: AppView, t: AppView, e: Seq<AppEffectView>)
    requires
        app_update(s, Msg::MediaEditScreen(MediaEditPageMsg::Back), t, e),
    ensures
        t.list == s.list,
        t.confirm == s.confirm,
        t.error == s.error,
        t.loading == s.loading,
        e.len() == 0,
        t.screen matches ScreenView::Main(p) && p.entries.len() == s.list.len() && p.sorting is None
            && p.search_bar.len() == 0 && forall|i: int| 0 <= i < s.list.len() ==> p.entries[i] == s.list[i].name,
{
}

/// Selecting a name that some media has opens the edit page of the first
/// media with that name, showing its name, chapter and episode, and asks
/// for its episodes; a name no media has changes nothing.
pub proof fn lemma_select_opens_first_named(s: AppView, name: String, t: AppView, e: Seq<AppEffectView>, i: int)
    requires
        app_update(s, Msg::SelectMedia(name), t, e),
        0 <= i < s.list.len(),
        s.list[i].name == name@,
        forall|j: int| 0 <= j < i ==> s.list[j].name != name@,
    ensures
        t.list == s.list,
        t.screen matches ScreenView::MediaChange(p) && p.media_id == i && p.buffer_name == name@ && p.chapter
            == s.list[i].chapter as u8 && p.episode == s.list[i].episode as u8,
        e == seq![AppEffectView::Page(EffectView::LoadEpisodes { chapter_path: s.list[i].chapter_path })],
{
    let c = choose|k: int| 0 <= k < s.list.len() && s.list[k].name == name@ && forall|j: int| 0 <= j < k ==> s.list[j].name != name@;
    assert(c == i) by {
        if c < i {
        } else if c > i {
            assert(s.list[i].name != name@);
        }
    }
}

} // verus!
