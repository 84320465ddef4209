//! The main page: the list of media, sorted by name or filtered by a search.

use vstd::prelude::*;
use vstd::string::*;
use crate::media::string_views;
use crate::media::MediaView;
use crate::media_list::{MediaList, list_names, is_stable_name_sort};
use crate::search::{fuzzy_search, is_search_order, scores_for};

verus! {

/// What can happen on the main page.
pub enum Msg {
    AddMedia,
    /// The user chose the entry at this position of the shown list.
    MenuButton(usize),
    SortButton,
    SearchBarChanged(String),
}

/// What the main page asks the application to do.
pub enum Request {
    CreateMedia,
    SelectMedia(String),
}

/// How the list was last sorted: by name, reversed or not.
pub struct Sorting {
    pub reverse: bool,
}

/// What the main page shows: the names in the list, the sorting last
/// chosen (`Some(reverse)`) and the text of the search bar.
pub struct MainPageView {
    pub entries: Seq<Seq<char>>,
    pub sorting: Option<bool>,
    pub search_bar: Seq<char>,
}

pub struct MainPage {
    entries: Vec<String>,
    sorting: Option<Sorting>,
    search_bar: String,
}

impl View for MainPage {
    type V = MainPageView;

    closed spec fn view(&self) -> MainPageView {
        MainPageView {
            entries: string_views(self.entries@),
            sorting: match self.sorting {
                Some(s) => Some(s.reverse),
                None => None,
            },
            search_bar: self.search_bar@,
        }
    }
}

/// What `m` does to the main page `p` and the media list `list`, giving
/// `p2`, `list2` and the request `r`.
pub open spec fn main_update(
    p: MainPageView,
    list: Seq<MediaView>,
    m: Msg,
    p2: MainPageView,
    list2: Seq<MediaView>,
    r: Option<Request>,
) -> bool {
    match m {
        Msg::AddMedia => r == Some(Request::CreateMedia) && p2 == p && list2 == list,
        Msg::MenuButton(i) => p2 == p && list2 == list && (i < p.entries.len() ==> (r matches Some(
            Request::SelectMedia(n),
        ) && n@ == p.entries[i as int])) && (i >= p.entries.len() ==> r is None),
        Msg::SortButton => {
            let reverse = match p.sorting {
                Some(r) => !r,
                None => true,
            };
            &&& r is None
            &&& p2 == (MainPageView { entries: list_names(list2), sorting: Some(reverse), ..p })
            &&& !reverse ==> is_stable_name_sort(list2, list)
            &&& reverse ==> is_stable_name_sort(list2.reverse(), list)
        },
        Msg::SearchBarChanged(v) => r is None && list2 == list && p2.sorting == p.sorting && p2.search_bar
            == v@ && is_search_order(p2.entries, list_names(list), scores_for(list_names(list), v@)),
    }
}

impl MainPage {
    /// The page listing the names of `media_list`.
    pub fn new(media_list: &MediaList) -> (res: MainPage)
        ensures
            res@ == (MainPageView { entries: list_names(media_list@), sorting: None, search_bar: Seq::empty() }),
    {
        MainPage { entries: media_list.names(), sorting: None, search_bar: String::new() }
    }

    /// The page with nothing listed yet.
    pub fn empty() -> (res: MainPage)
        ensures
            res@ == (MainPageView { entries: Seq::empty(), sorting: None, search_bar: Seq::empty() }),
    {
        let res = MainPage { entries: Vec::new(), sorting: None, search_bar: String::new() };
        assert(string_views(res.entries@) =~= Seq::<Seq<char>>::empty());
        res
    }

    /// Lists the names of `media_list` again.
    pub fn update_media(&mut self, media_list: &MediaList)
        ensures
            final(self)@ == (MainPageView { entries: list_names(media_list@), ..old(self)@ }),
    {
        self.entries = media_list.names();
    }

    /// The names shown.
    pub fn entries(&self) -> (res: &Vec<String>)
        ensures
            string_views(res@) == self@.entries,
    {
        &self.entries
    }

    /// What `message` does. Sorting sorts `media_list` itself by name:
    /// the first time and every second time after that in reverse.
    pub fn update(&mut self, message: Msg, media_list: &mut MediaList) -> (res: Option<Request>)
        ensures
            main_update(old(self)@, old(media_list)@, message, final(self)@, final(media_list)@, res),
    {
        match message {
            Msg::AddMedia => Some(Request::CreateMedia),
            Msg::MenuButton(i) => {
                if i < self.entries.len() {
                    Some(Request::SelectMedia(self.entries[i].clone()))
                } else {
                    None
                }
            },
            Msg::SortButton => {
                let reverse = match &self.sorting {
                    Some(s) => !s.reverse,
                    None => true,
                };
                self.sorting = Some(Sorting { reverse });
                media_list.sort_by_name(reverse);
                self.entries = media_list.names();
                None
            },
            Msg::SearchBarChanged(value) => {
                let names = media_list.names();
                self.entries = fuzzy_search(&names, value.as_str());
                self.search_bar = value;
                None
            },
        }
    }
}

} // verus!
