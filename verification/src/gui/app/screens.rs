//! The screens the application shows under its dialogs.

use vstd::prelude::*;
use crate::error::Error;
use crate::gui::page::error::ErrorPage;
use crate::gui::page::main::{MainPage, MainPageView};
use crate::gui::page::media_edit::{MediaEditPage, MediaEditPageView, Effect, EffectView, effect_views, new_page_view};
use crate::media_list::MediaList;

verus! {

/// The screen shown.
pub enum Screens {
    Main(MainPage),
    MediaChange(MediaEditPage),
    Error(ErrorPage),
}

pub enum ScreenView {
    Main(MainPageView),
    MediaChange(MediaEditPageView),
    Error(Error),
}

impl View for Screens {
    type V = ScreenView;

    open spec fn view(&self) -> ScreenView {
        match self {
            Screens::Main(p) => ScreenView::Main(p@),
            Screens::MediaChange(p) => ScreenView::MediaChange(p@),
            Screens::Error(p) => ScreenView::Error(p.error),
        }
    }
}

impl Screens {
    /// The main page with nothing listed yet.
    pub fn default_screen() -> (res: Screens)
        ensures
            res@ == ScreenView::Main(MainPageView { entries: Seq::empty(), sorting: None, search_bar: Seq::empty() }),
    {
        Screens::Main(MainPage::empty())
    }

    /// The media edit page of the media at `id`, and the work it asks for.
    pub fn change_media(media_list: &MediaList, id: usize) -> (res: (Screens, Vec<Effect>))
        requires
            id < media_list@.len(),
        ensures
            res.0@ == ScreenView::MediaChange(new_page_view(media_list@, id as int)),
            effect_views(res.1@) == seq![EffectView::LoadEpisodes { chapter_path: media_list@[id as int].chapter_path }],
    {
        let (page, effects) = MediaEditPage::new(media_list, id);
        (Screens::MediaChange(page), effects)
    }

    /// The screen showing `error`.
    pub fn error(error: Error) -> (res: Screens)
        ensures
            res@ == ScreenView::Error(error),
    {
        Screens::Error(ErrorPage::from_error(error))
    }
}

} // verus!
