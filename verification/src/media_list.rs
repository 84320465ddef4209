//! The list of tracked media.

use vstd::prelude::*;
use vstd::string::*;
use crate::error::ErrorKind;
use crate::media::{Media, MediaView, spec_renamed};
use crate::sort::{is_stable_sort_of, sorted_by_permutation, is_permutation, key_index_lt, stable_sort, reverse_in_place, SortKey};

verus! {

/// The media the user tracks, in the order shown.
pub struct MediaList {
    media: Vec<Media>,
}

/// The views of a sequence of media.
pub open spec fn media_views(s: Seq<Media>) -> Seq<MediaView> {
    s.map_values(|m: Media| m@)
}

/// The first position in `s` of a media called `name`, if any.
pub open spec fn first_named(s: Seq<MediaView>, name: Seq<char>) -> Option<int> {
    if exists|i: int| 0 <= i < s.len() && s[i].name == name {
        Some(choose|i: int| 0 <= i < s.len() && s[i].name == name && forall|j: int| 0 <= j < i ==> s[j].name != name)
    } else {
        None
    }
}

/// Some media other than the one at `id` is called `name`.
pub open spec fn name_used_by_other(s: Seq<MediaView>, id: int, name: Seq<char>) -> bool {
    exists|j: int| 0 <= j < s.len() && j != id && s[j].name == name
}

/// Some media of `s`, whichever, is called `name`.
pub open spec fn name_used(s: Seq<MediaView>, name: Seq<char>) -> bool {
    exists|j: int| 0 <= j < s.len() && s[j].name == name
}

/// `out` is `inp` sorted by name in ascending order, media with equal names
/// keeping their order.
pub open spec fn is_stable_name_sort(out: Seq<MediaView>, inp: Seq<MediaView>) -> bool {
    exists|p: Seq<int>| name_sorted_by(out, inp, p)
}

/// `out` holds the media of `inp` at the positions `p`, ordered by name and,
/// among equal names, by their position in `inp`.
pub open spec fn name_sorted_by(out: Seq<MediaView>, inp: Seq<MediaView>, p: Seq<int>) -> bool {
    &&& out.len() == inp.len()
    &&& is_permutation(p, inp.len())
    &&& forall|k: int| 0 <= k < out.len() ==> out[k] == inp[#[trigger] p[k]]
    &&& forall|a: int, b: int|
        0 <= a < b < out.len() ==> key_index_lt(
            (#[trigger] out[a]).name,
            p[a],
            (#[trigger] out[b]).name,
            p[b],
        )
}

proof fn lemma_stable_sort_views(out: Seq<Media>, inp: Seq<Media>)
    requires
        is_stable_sort_of(out, inp),
    ensures
        is_stable_name_sort(media_views(out), media_views(inp)),
{
    let p = choose|p: Seq<int>| sorted_by_permutation(out, inp, p);
    let vo = media_views(out);
    let vi = media_views(inp);
    assert forall|k: int| 0 <= k < vo.len() implies vo[k] == vi[#[trigger] p[k]] by {
        assert(out[k] == inp[p[k]]);
    }
    assert forall|a: int, b: int| 0 <= a < b < vo.len() implies key_index_lt(
        (#[trigger] vo[a]).name,
        p[a],
        (#[trigger] vo[b]).name,
        p[b],
    ) by {
        out[a].lemma_sort_key_is_name();
        out[b].lemma_sort_key_is_name();
        assert(key_index_lt(out[a].sort_key(), p[a], out[b].sort_key(), p[b]));
    }
    assert(name_sorted_by(vo, vi, p));
}

/// The names of the media, in order.
pub open spec fn list_names(s: Seq<MediaView>) -> Seq<Seq<char>> {
    s.map_values(|m: MediaView| m.name)
}

impl View for MediaList {
    type V = Seq<MediaView>;

    closed spec fn view(&self) -> Seq<MediaView> {
        media_views(self.media@)
    }
}

impl MediaList {
    pub fn new() -> (res: MediaList)
        ensures
            res@ == Seq::<MediaView>::empty(),
    {
        MediaList { media: Vec::new() }
    }

    /// The list of the media read from their files, in that order.
    pub fn from_media(media: Vec<Media>) -> (res: MediaList)
        ensures
            res@ == media_views(media@),
    {
        MediaList { media }
    }

    pub fn len(&self) -> (res: usize)
        ensures
            res == self@.len(),
    {
        self.media.len()
    }

    /// The media at `id`.
    pub fn get(&self, id: usize) -> (res: &Media)
        requires
            id < self@.len(),
        ensures
            res@ == self@[id as int],
    {
        &self.media[id]
    }

    /// Adds `media` at the end of the list and gives its position.
    pub fn insert(&mut self, media: Media) -> (res: usize)
        ensures
            final(self)@ == old(self)@.push(media@),
            res == old(self)@.len(),
    {
        let id = self.media.len();
        self.media.push(media);
        assert(media_views(self.media@) =~= media_views(old(self).media@).push(media@));
        id
    }

    /// Takes the media at `id` out of the list; `None` when there is none.
    pub fn remove(&mut self, id: usize) -> (res: Option<Media>)
        ensures
            id < old(self)@.len() ==> (res matches Some(m) && m@ == old(self)@[id as int]
                && final(self)@ == old(self)@.remove(id as int)),
            id >= old(self)@.len() ==> res is None && final(self)@ == old(self)@,
    {
        if id >= self.media.len() {
            return None;
        }
        let m = self.media.remove(id);
        assert(media_views(self.media@) =~= media_views(old(self).media@).remove(id as int));
        Some(m)
    }

    /// The names of the media, in order.
    pub fn names(&self) -> (res: Vec<String>)
        ensures
            crate::media::string_views(res@) == list_names(self@),
    {
        let mut res: Vec<String> = Vec::new();
        let mut i: usize = 0;
        while i < self.media.len()
            invariant
                i <= self.media@.len(),
                crate::media::string_views(res@) =~= list_names(self@).subrange(0, i as int),
            decreases self.media.len() - i,
        {
            let ghost before = res@;
            res.push(String::from_str(self.media[i].name()));
            assert(self@[i as int].name == self.media@[i as int]@.name);
            assert(crate::media::string_views(res@) =~= crate::media::string_views(before).push(self@[i as int].name));
            i = i + 1;
        }
        assert(crate::media::string_views(res@) =~= list_names(self@));
        res
    }

    /// The position of the first media called `name`.
    pub fn find_by_name(&self, name: &str) -> (res: Option<usize>)
        ensures
            res matches Some(i) ==> first_named(self@, name@) == Some(i as int) && i < self@.len()
                && self@[i as int].name == name@,
            res is None ==> first_named(self@, name@) is None,
    {
        let mut i: usize = 0;
        while i < self.media.len()
            invariant
                i <= self.media@.len(),
                forall|j: int| 0 <= j < i ==> self@[j].name != name@,
            decreases self.media.len() - i,
        {
            let m = &self.media[i];
            if crate::text::str_eq(m.name(), name) {
                assert(self@[i as int].name == name@);
                let ghost w = i as int;
                assert(exists|k: int| 0 <= k < self@.len() && self@[k].name == name@);
                let ghost c = choose|k: int| 0 <= k < self@.len() && self@[k].name == name@
                    && forall|j: int| 0 <= j < k ==> self@[j].name != name@;
                assert(c == w) by {
                    if c < w {
                    } else if c > w {
                        assert(self@[w].name != name@);
                    }
                }
                return Some(i);
            }
            i = i + 1;
        }
        None
    }

    /// Whether some media of the list is called `name`.
    pub fn name_is_used(&self, name: &str) -> (res: bool)
        ensures
            res == name_used(self@, name@),
    {
        match self.find_by_name(name) {
            Some(_) => true,
            None => {
                proof {
                    if name_used(self@, name@) {
                        let j = choose|j: int| 0 <= j < self@.len() && self@[j].name == name@;
                        assert(exists|k: int| 0 <= k < self@.len() && self@[k].name == name@);
                    }
                }
                false
            },
        }
    }

    /// Whether a media other than the one at `id` is called `name`.
    pub fn is_name_taken(&self, id: usize, name: &str) -> (res: bool)
        ensures
            res == name_used_by_other(self@, id as int, name@),
    {
        let mut j: usize = 0;
        while j < self.media.len()
            invariant
                j <= self.media@.len(),
                forall|k: int| 0 <= k < j && k != id ==> self@[k].name != name@,
            decreases self.media.len() - j,
        {
            if j != id && crate::text::str_eq(self.media[j].name(), name) {
                assert(self@[j as int].name == name@);
                return true;
            }
            j = j + 1;
        }
        false
    }

    /// Renames the media at `id`, unless another media already has that
    /// name; the result is the move of its file to make on disk.
    pub fn rename_media(&mut self, id: usize, name: String) -> (res: Result<Option<(String, String)>, ErrorKind>)
        requires
            id < old(self)@.len(),
        ensures
            name_used_by_other(old(self)@, id as int, name@) ==> res == Err::<Option<(String, String)>, ErrorKind>(
                ErrorKind::MediaNameIsUsed { name },
            ) && final(self)@ == old(self)@,
            !name_used_by_other(old(self)@, id as int, name@) ==> final(self)@ == old(self)@.update(
                id as int,
                spec_renamed(old(self)@[id as int], name@),
            ) && (res matches Ok(mv) && (old(self)@[id as int].name == name@ ==> mv is None) && (
            old(self)@[id as int].name != name@ ==> (mv matches Some(m) && m.0@ == old(self)@[id as int].dest_path
                && m.1@ == spec_renamed(old(self)@[id as int], name@).dest_path))),
    {
        let mut j: usize = 0;
        while j < self.media.len()
            invariant
                j <= self.media@.len(),
                id < self.media@.len(),
                forall|k: int| 0 <= k < j && k != id ==> self@[k].name != name@,
            decreases self.media.len() - j,
        {
            if j != id && crate::text::str_eq(self.media[j].name(), name.as_str()) {
                assert(self@[j as int].name == name@);
                return Err(ErrorKind::MediaNameIsUsed { name });
            }
            j = j + 1;
        }
        let mut m = self.media.remove(id);
        let mv = m.rename(name);
        self.media.insert(id, m);
        assert(self@ =~= old(self)@.update(id as int, spec_renamed(old(self)@[id as int], name@)));
        Ok(mv)
    }

    /// Sets the chapter of the media at `id`.
    pub fn set_chapter(&mut self, id: usize, value: u8)
        requires
            id < old(self)@.len(),
            value >= 1,
        ensures
            final(self)@ == old(self)@.update(id as int, MediaView { chapter: value as nat, ..old(self)@[id as int] }),
    {
        let mut m = self.media.remove(id);
        m.set_chapter(value);
        self.media.insert(id, m);
        assert(self@ =~= old(self)@.update(id as int, MediaView { chapter: value as nat, ..old(self)@[id as int] }));
    }

    /// Sets the episode of the media at `id`.
    pub fn set_episode(&mut self, id: usize, value: u8)
        requires
            id < old(self)@.len(),
            value >= 1,
        ensures
            final(self)@ == old(self)@.update(id as int, MediaView { episode: value as nat, ..old(self)@[id as int] }),
    {
        let mut m = self.media.remove(id);
        m.set_episode(value);
        self.media.insert(id, m);
        assert(self@ =~= old(self)@.update(id as int, MediaView { episode: value as nat, ..old(self)@[id as int] }));
    }

    /// Sets the chapter directory of the media at `id`.
    pub fn set_chapter_path(&mut self, id: usize, value: String)
        requires
            id < old(self)@.len(),
        ensures
            final(self)@ == old(self)@.update(id as int, MediaView { chapter_path: value@, ..old(self)@[id as int] }),
    {
        let ghost v = value@;
        let mut m = self.media.remove(id);
        m.set_chapter_path(value);
        self.media.insert(id, m);
        assert(self@ =~= old(self)@.update(id as int, MediaView { chapter_path: v, ..old(self)@[id as int] }));
    }

    /// Sorts the list by name, keeping media with equal names in their
    /// order; with `reverse`, the sorted list is then reversed.
    pub fn sort_by_name(&mut self, reverse: bool)
        ensures
            !reverse ==> is_stable_name_sort(final(self)@, old(self)@),
            reverse ==> is_stable_name_sort(final(self)@.reverse(), old(self)@),
    {
        stable_sort(&mut self.media);
        proof { lemma_stable_sort_views(self.media@, old(self).media@); }
        let ghost sorted = self@;
        if reverse {
            reverse_in_place(&mut self.media);
            assert(self@.reverse() =~= sorted);
        }
    }
}

/// After a media is renamed to a name no other media has, looking that
/// name up finds that media.
pub proof fn lemma_renamed_media_is_found(before: Seq<MediaView>, after: Seq<MediaView>, id: int, name: Seq<char>)
    requires
        0 <= id < before.len(),
        !name_used_by_other(before, id, name),
        after == before.update(id, spec_renamed(before[id], name)),
    ensures
        first_named(after, name) == Some(id),
{
    assert(after[id].name == name);
    let c = choose|i: int| 0 <= i < after.len() && after[i].name == name && forall|j: int| 0 <= j < i ==> after[j].name != name;
    assert(c == id) by {
        if c < id {
        } else if c > id {
            assert(after[id].name != name);
        } else {
        }
        if c != id {
            assert(after[c] == before[c]);
        }
    }
}

/// No two media of `s` have the same name.
pub open spec fn names_distinct(s: Seq<MediaView>) -> bool {
    forall|i: int, j: int| 0 <= i < j < s.len() ==> (#[trigger] s[i]).name != (#[trigger] s[j]).name
}

/// Renaming never makes two media share a name: when the names were
/// distinct before, they are after a rename that the list accepts.
pub proof fn lemma_rename_keeps_names_distinct(before: Seq<MediaView>, id: int, name: Seq<char>)
    requires
        0 <= id < before.len(),
        names_distinct(before),
        !name_used_by_other(before, id, name),
    ensures
        names_distinct(before.update(id, spec_renamed(before[id], name))),
{
    let after = before.update(id, spec_renamed(before[id], name));
    assert forall|i: int, j: int| 0 <= i < j < after.len() implies (#[trigger] after[i]).name != (#[trigger] after[j]).name by {
        if i == id {
            if before[id].name != name {
                assert(before[j].name != name);
            }
        } else if j == id {
            if before[id].name != name {
                assert(before[i].name != name);
            }
        } else {
            assert(after[i] == before[i]);
            assert(after[j] == before[j]);
        }
    }
}

/// Every media of `s` is at chapter 1 or later and at episode 1 or later.
pub open spec fn counters_positive(s: Seq<MediaView>) -> bool {
    forall|i: int| 0 <= i < s.len() ==> (#[trigger] s[i]).chapter >= 1 && s[i].episode >= 1
}

} // verus!
