//! The episodes of a chapter: the media files among the paths read from the
//! chapter directory, in path order.

use vstd::prelude::*;
use crate::episode::{Episode, spec_is_media_file};
use crate::error::ErrorKind;
use crate::media::string_views;
use crate::sort::{SortKey, keys_of, is_sorted_rearrangement, stable_sort, lemma_stable_sort_keys};

verus! {

/// The media files among `paths`, in their order.
pub open spec fn media_paths(paths: Seq<Seq<char>>) -> Seq<Seq<char>> {
    paths.filter(|p: Seq<char>| spec_is_media_file(p))
}

/// The episodes among `paths`, sorted by path.
fn sorted_episodes(paths: Vec<String>) -> (res: Vec<Episode>)
    ensures
        is_sorted_rearrangement(keys_of(res@), media_paths(string_views(paths@))),
{
    let ghost views = string_views(paths@);
    let mut episodes: Vec<Episode> = Vec::new();
    let mut rest = paths;
    let mut taken: Vec<String> = Vec::new();
    let ghost all = rest@;
    // `rest` is consumed from the front by reversing it once
    crate::sort::reverse_in_place(&mut rest);
    while rest.len() > 0
        invariant
            all.len() == taken@.len() + rest@.len(),
            taken@ == all.subrange(0, taken@.len() as int),
            forall|k: int| 0 <= k < rest@.len() ==> rest@[k] == all[all.len() - 1 - k],
            keys_of(episodes@) == media_paths(string_views(taken@)),
            views == string_views(all),
        decreases rest.len(),
    {
        let path = rest.pop().unwrap();
        let ghost t = taken@.len();
        assert(path == all[t as int]);
        proof {
            let tv = string_views(taken@);
            assert(string_views(taken@.push(path)) =~= tv.push(path@));
            reveal_with_fuel(Seq::filter, 1);
            assert(tv.push(path@).drop_last() =~= tv);
        }
        let ghost before = episodes@;
        let ghost path_view = path@;
        taken.push(path.clone());
        match Episode::new(path) {
            Ok(e) => {
                episodes.push(e);
                proof {
                    e.lemma_sort_key_is_path();
                    assert(keys_of(episodes@) =~= keys_of(before).push(path_view));
                }
            },
            Err(_) => {},
        }
    }
    assert(taken@ =~= all);
    let ghost unsorted = episodes@;
    stable_sort(&mut episodes);
    proof {
        lemma_stable_sort_keys(episodes@, unsorted);
    }
    episodes
}

/// The episodes of a chapter, sorted by path; never empty.
pub struct EpisodeList(Vec<Episode>);

impl View for EpisodeList {
    type V = Seq<Seq<char>>;

    closed spec fn view(&self) -> Seq<Seq<char>> {
        keys_of(self.0@)
    }
}

impl EpisodeList {
    /// The episode list of the directory whose entries are `episode_paths`:
    /// its media files sorted by path, or `EpisodesDidNotFound` when it has none.
    pub fn read(episode_paths: Vec<String>) -> (res: Result<EpisodeList, ErrorKind>)
        ensures
            res matches Ok(l) ==> media_paths(string_views(episode_paths@)).len() > 0
                && is_sorted_rearrangement(l@, media_paths(string_views(episode_paths@))),
            res matches Err(k) ==> media_paths(string_views(episode_paths@)).len() == 0
                && k == ErrorKind::EpisodesDidNotFound,
    {
        let episodes = sorted_episodes(episode_paths);
        if episodes.len() == 0 {
            return Err(ErrorKind::EpisodesDidNotFound);
        }
        Ok(EpisodeList(episodes))
    }

    pub fn len(&self) -> (res: usize)
        ensures
            res == self@.len(),
    {
        self.0.len()
    }

    /// The episode at `index`, if the list is that long.
    pub fn get(&self, index: usize) -> (res: Option<&Episode>)
        ensures
            res matches Some(e) ==> index < self@.len() && e@ == self@[index as int],
            res is None ==> index >= self@.len(),
    {
        if index < self.0.len() {
            let e = &self.0[index];
            proof { e.lemma_sort_key_is_path(); }
            Some(e)
        } else {
            None
        }
    }
}

/// The episodes of a chapter, sorted by path; possibly empty.
pub struct Episodes(Vec<Episode>);

impl View for Episodes {
    type V = Seq<Seq<char>>;

    closed spec fn view(&self) -> Seq<Seq<char>> {
        keys_of(self.0@)
    }
}

impl Episodes {
    /// The media files among `episode_paths`, sorted by path.
    pub fn read(episode_paths: Vec<String>) -> (res: Episodes)
        ensures
            is_sorted_rearrangement(res@, media_paths(string_views(episode_paths@))),
    {
        Episodes(sorted_episodes(episode_paths))
    }

    pub fn len(&self) -> (res: usize)
        ensures
            res == self@.len(),
    {
        self.0.len()
    }

    /// The episode at `index`, if the list is that long.
    pub fn get(&self, index: usize) -> (res: Option<&Episode>)
        ensures
            res matches Some(e) ==> index < self@.len() && e@ == self@[index as int],
            res is None ==> index >= self@.len(),
    {
        if index < self.0.len() {
            let e = &self.0[index];
            proof { e.lemma_sort_key_is_path(); }
            Some(e)
        } else {
            None
        }
    }
}

} // verus!
