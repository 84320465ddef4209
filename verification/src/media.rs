//! One tracked media: its name, the chapter and episode the user is at,
//! the directory holding the chapter's episodes and the file it is stored in.

use vstd::prelude::*;
use vstd::string::*;
use crate::sort::SortKey;
use crate::text::{decimal, lemma_decimal_injective, lemma_decimal_len, push_decimal};

verus! {

/// The name a new media gets when no file with that name exists yet.
pub open spec fn default_media_name() -> Seq<char> {
    "New media"@
}

/// The `k`-th name tried for a new media: the default name, then the
/// default name followed by a space and `k`.
pub open spec fn name_candidate(k: nat) -> Seq<char> {
    if k == 0 {
        default_media_name()
    } else {
        "New media "@ + decimal(k)
    }
}

/// The name of the file that stores the media called `name`.
pub open spec fn spec_file_name(name: Seq<char>) -> Seq<char> {
    name + ".ron"@
}

/// The views of a sequence of strings.
pub open spec fn string_views(v: Seq<String>) -> Seq<Seq<char>> {
    v.map_values(|s: String| s@)
}

/// `name` is the first candidate whose file name is not among `taken`.
pub open spec fn is_first_free_name(name: Seq<char>, taken: Seq<Seq<char>>) -> bool {
    exists|k: nat|
        {
            &&& name == name_candidate(k)
            &&& !taken.contains(spec_file_name(name_candidate(k)))
            &&& forall|j: nat| j < k ==> taken.contains(#[trigger] spec_file_name(name_candidate(j)))
        }
}

proof fn lemma_name_candidate_injective(a: nat, b: nat)
    requires
        name_candidate(a) == name_candidate(b),
    ensures
        a == b,
{
    reveal_strlit("New media");
    reveal_strlit("New media ");
    let p = "New media "@;
    assert(default_media_name().len() == 9);
    assert(p.len() == 10);
    if a != 0 {
        lemma_decimal_len(a);
        assert(name_candidate(a).len() == 10 + decimal(a).len());
    }
    if b != 0 {
        lemma_decimal_len(b);
        assert(name_candidate(b).len() == 10 + decimal(b).len());
    }
    if a != 0 && b != 0 {
        assert(decimal(a) =~= name_candidate(a).subrange(10, name_candidate(a).len() as int));
        assert(decimal(b) =~= name_candidate(b).subrange(10, name_candidate(b).len() as int));
        lemma_decimal_injective(a, b);
    }
}

proof fn lemma_file_name_injective(a: Seq<char>, b: Seq<char>)
    requires
        spec_file_name(a) == spec_file_name(b),
    ensures
        a == b,
{
    reveal_strlit(".ron");
    assert(".ron"@.len() == 4);
    assert(spec_file_name(a).len() == a.len() + 4);
    assert(spec_file_name(b).len() == b.len() + 4);
    assert(a =~= spec_file_name(a).subrange(0, a.len() as int));
    assert(b =~= spec_file_name(b).subrange(0, b.len() as int));
}

/// If the file names of the candidates `0..i` are all among `taken`, there
/// are at least `i` of them.
proof fn lemma_taken_candidates_bound(taken: Seq<Seq<char>>, i: nat)
    requires
        forall|j: nat| j < i ==> taken.contains(#[trigger] spec_file_name(name_candidate(j))),
    ensures
        i <= taken.len(),
{
    let f = |j: int| spec_file_name(name_candidate(j as nat));
    let range = vstd::set_lib::set_int_range(0, i as int);
    vstd::set_lib::lemma_int_range(0, i as int);
    assert forall|x: int, y: int| range.contains(x) && range.contains(y) && #[trigger] f(x) == #[trigger] f(y) implies x == y by {
        lemma_file_name_injective(name_candidate(x as nat), name_candidate(y as nat));
        lemma_name_candidate_injective(x as nat, y as nat);
    }
    let image = range.map(f);
    vstd::set_lib::lemma_map_size(range, image, f);
    assert forall|x: Seq<char>| image.contains(x) implies taken.to_set().contains(x) by {
        let j = choose|j: int| range.contains(j) && f(j) == x;
        assert(taken.contains(spec_file_name(name_candidate(j as nat))));
    }
    vstd::set_lib::lemma_len_subset(image, taken.to_set());
    taken.lemma_cardinality_of_set();
}

fn name_candidate_string(k: u64) -> (res: String)
    ensures
        res@ == name_candidate(k as nat),
{
    if k == 0 {
        String::from_str("New media")
    } else {
        let mut s = String::from_str("New media ");
        push_decimal(&mut s, k);
        s
    }
}

/// The name of the file that stores the media called `name`.
pub fn file_name(name: &str) -> (res: String)
    ensures
        res@ == spec_file_name(name@),
{
    let mut s = String::from_str(name);
    s.append(".ron");
    s
}

fn contains_string(v: &Vec<String>, s: &String) -> (res: bool)
    ensures
        res == string_views(v@).contains(s@),
{
    let mut i: usize = 0;
    while i < v.len()
        invariant
            i <= v.len(),
            forall|j: int| 0 <= j < i ==> v@[j]@ != s@,
        decreases v.len() - i,
    {
        if v[i] == *s {
            assert(string_views(v@)[i as int] == s@);
            return true;
        }
        i = i + 1;
    }
    assert forall|j: int| 0 <= j < string_views(v@).len() implies string_views(v@)[j] != s@ by {
        assert(v@[j]@ != s@);
    }
    false
}

/// The first of "New media", "New media 1", "New media 2", ... whose file
/// name ("<name>.ron") is not among the names of the files in `existing_files`.
pub fn find_availible_name(existing_files: &Vec<String>) -> (res: String)
    ensures
        is_first_free_name(res@, string_views(existing_files@)),
{
    let ghost taken = string_views(existing_files@);
    let mut k: u64 = 0;
    loop
        invariant
            taken == string_views(existing_files@),
            k <= existing_files.len(),
            forall|j: nat| j < k ==> taken.contains(#[trigger] spec_file_name(name_candidate(j))),
        decreases existing_files.len() - k,
    {
        let candidate = name_candidate_string(k);
        let candidate_file = file_name(candidate.as_str());
        if !contains_string(existing_files, &candidate_file) {
            assert(is_first_free_name(candidate@, taken)) by {
                assert(candidate@ == name_candidate(k as nat));
            }
            return candidate;
        }
        proof {
            assert forall|j: nat| j < k + 1 implies taken.contains(#[trigger] spec_file_name(name_candidate(j))) by {
                if j == k {
                    assert(candidate_file@ == spec_file_name(name_candidate(j)));
                }
            }
            lemma_taken_candidates_bound(taken, (k + 1) as nat);
        }
        k = k + 1;
    }
}

/// The parent directory of `path`, as `std::path::Path::parent` gives it.
pub uninterp spec fn spec_path_parent(path: Seq<char>) -> Option<Seq<char>>;

/// `base` joined with `name`, as `std::path::Path::join` gives it.
pub uninterp spec fn spec_path_join(base: Seq<char>, name: Seq<char>) -> Seq<char>;

/// Calls `std::path::Path::parent`. The result is a function of the path alone.
#[verifier::external_body]
pub(crate) fn path_parent(path: &str) -> (res: Option<String>)
    ensures
        res matches Some(p) ==> spec_path_parent(path@) == Some(p@),
        res is None ==> spec_path_parent(path@) is None,
{
    match std::path::Path::new(path).parent() {
        Some(p) => Some(p.to_string_lossy().to_string()),
        None => None,
    }
}

/// Calls `std::path::Path::join`. The result is a function of its arguments alone.
#[verifier::external_body]
pub(crate) fn path_join(base: &str, name: &str) -> (res: String)
    ensures
        res@ == spec_path_join(base@, name@),
{
    std::path::Path::new(base).join(name).to_string_lossy().to_string()
}

/// The directory a media file is in: the parent of its path, or "/".
pub open spec fn spec_media_dir(dest_path: Seq<char>) -> Seq<char> {
    match spec_path_parent(dest_path) {
        Some(p) => p,
        None => "/"@,
    }
}

/// `m` after renaming it to `new_name`: nothing changes when the name is
/// the same; otherwise its file moves to the media directory under the file
/// name of the new name.
pub open spec fn spec_renamed(m: MediaView, new_name: Seq<char>) -> MediaView {
    if m.name == new_name {
        m
    } else {
        MediaView {
            name: new_name,
            dest_path: spec_path_join(spec_media_dir(m.dest_path), spec_file_name(new_name)),
            ..m
        }
    }
}

/// Renaming gives the media the new name and nothing else of it changes but
/// its file, which moves next to where it was under the new name's file
/// name; renaming to the name it has changes nothing.
pub proof fn lemma_rename_changes_only_name_and_file(m: MediaView, new_name: Seq<char>)
    ensures
        spec_renamed(m, new_name).name == new_name,
        spec_renamed(m, new_name).chapter == m.chapter,
        spec_renamed(m, new_name).episode == m.episode,
        spec_renamed(m, new_name).chapter_path == m.chapter_path,
        m.name != new_name ==> spec_renamed(m, new_name).dest_path == spec_path_join(
            spec_media_dir(m.dest_path),
            spec_file_name(new_name),
        ),
        m.name == new_name ==> spec_renamed(m, new_name) == m,
{
}

/// What a media is: its name, the chapter and the episode the user is at
/// (both at least 1), the chapter's directory ("" when not chosen) and the
/// path of the file it is stored in.
pub struct MediaView {
    pub name: Seq<char>,
    pub chapter: nat,
    pub episode: nat,
    pub chapter_path: Seq<char>,
    pub dest_path: Seq<char>,
}

/// One tracked media.
pub struct Media {
    name: String,
    chapter: u8,
    episode: u8,
    chapter_path: String,
    dest_path: String,
}

impl View for Media {
    type V = MediaView;

    closed spec fn view(&self) -> MediaView {
        MediaView {
            name: self.name@,
            chapter: self.chapter as nat,
            episode: self.episode as nat,
            chapter_path: self.chapter_path@,
            dest_path: self.dest_path@,
        }
    }
}

impl SortKey for Media {
    closed spec fn sort_key(&self) -> Seq<char> {
        self.name@
    }

    fn key_str(&self) -> (res: &str) {
        self.name.as_str()
    }
}

impl Media {
    /// The sort key of a media is its name.
    pub proof fn lemma_sort_key_is_name(&self)
        ensures
            self.sort_key() == self@.name,
    {
    }

    #[verifier::type_invariant]
    spec fn counters_positive(&self) -> bool {
        self.chapter >= 1 && self.episode >= 1
    }

    /// A new media stored at `dest_path`, named with the first default name
    /// whose file is not among `existing_files`, at chapter 1, episode 1 and
    /// with no chapter directory.
    pub fn new(dest_path: String, existing_files: &Vec<String>) -> (res: Media)
        ensures
            is_first_free_name(res@.name, string_views(existing_files@)),
            res@.chapter == 1,
            res@.episode == 1,
            res@.chapter_path == Seq::<char>::empty(),
            res@.dest_path == dest_path@,
    {
        Media {
            name: find_availible_name(existing_files),
            chapter: 1,
            episode: 1,
            chapter_path: String::new(),
            dest_path,
        }
    }

    /// A new media in the data directory `data_dir`, whose files are
    /// `existing_files`: named with the first default name whose file does not
    /// exist yet and stored under that name's file name.
    pub fn with_default_name(data_dir: &str, existing_files: &Vec<String>) -> (res: Media)
        ensures
            is_first_free_name(res@.name, string_views(existing_files@)),
            res@.dest_path == spec_path_join(data_dir@, spec_file_name(res@.name)),
            res@.chapter == 1,
            res@.episode == 1,
            res@.chapter_path == Seq::<char>::empty(),
    {
        let name = find_availible_name(existing_files);
        let file = file_name(name.as_str());
        let dest_path = path_join(data_dir, file.as_str());
        Media { name, chapter: 1, episode: 1, chapter_path: String::new(), dest_path }
    }

    /// A media made of the values read from its file.
    pub fn from_parts(name: String, chapter: u8, episode: u8, chapter_path: String, dest_path: String) -> (res: Media)
        requires
            chapter >= 1,
            episode >= 1,
        ensures
            res@ == (MediaView {
                name: name@,
                chapter: chapter as nat,
                episode: episode as nat,
                chapter_path: chapter_path@,
                dest_path: dest_path@,
            }),
    {
        Media { name, chapter, episode, chapter_path, dest_path }
    }

    /// The name of the file that stores this media.
    pub fn file_name(&self) -> (res: String)
        ensures
            res@ == spec_file_name(self@.name),
    {
        file_name(self.name.as_str())
    }

    /// Whether a chapter directory was chosen.
    pub fn chapter_path_is_present(&self) -> (res: bool)
        ensures
            res == (self@.chapter_path.len() > 0),
    {
        self.chapter_path.unicode_len() > 0
    }

    pub fn set_chapter(&mut self, value: u8)
        requires
            value >= 1,
        ensures
            final(self)@ == (MediaView { chapter: value as nat, ..old(self)@ }),
    {
        proof { use_type_invariant(&*self); }
        self.chapter = value;
    }

    pub fn set_episode(&mut self, value: u8)
        requires
            value >= 1,
        ensures
            final(self)@ == (MediaView { episode: value as nat, ..old(self)@ }),
    {
        proof { use_type_invariant(&*self); }
        self.episode = value;
    }

    pub fn set_chapter_path(&mut self, value: String)
        ensures
            final(self)@ == (MediaView { chapter_path: value@, ..old(self)@ }),
    {
        proof { use_type_invariant(&*self); }
        self.chapter_path = value;
    }

    /// Renames the media. Its file moves next to where it was, under the
    /// file name of the new name; the result is the move to make on disk,
    /// `None` when the name does not change.
    pub fn rename(&mut self, new_name: String) -> (res: Option<(String, String)>)
        ensures
            final(self)@ == spec_renamed(old(self)@, new_name@),
            old(self)@.name == new_name@ ==> res is None,
            old(self)@.name != new_name@ ==> (res matches Some(mv) && mv.0@ == old(self)@.dest_path
                && mv.1@ == final(self)@.dest_path),
    {
        if self.name == new_name {
            return None;
        }
        let dir = match path_parent(self.dest_path.as_str()) {
            Some(p) => p,
            None => String::from_str("/"),
        };
        let new_file = file_name(new_name.as_str());
        let new_path = path_join(dir.as_str(), new_file.as_str());
        let old_path = self.dest_path.clone();
        proof { use_type_invariant(&*self); }
        self.name = new_name;
        self.dest_path = new_path.clone();
        Some((old_path, new_path))
    }

    /// Where the file of the media goes when it is renamed to `new_name`:
    /// next to where it is, under the file name of the new name.
    pub fn renamed_path(&self, new_name: &str) -> (res: String)
        ensures
            res@ == spec_path_join(spec_media_dir(self@.dest_path), spec_file_name(new_name@)),
            self@.name != new_name@ ==> res@ == spec_renamed(self@, new_name@).dest_path,
    {
        let dir = match path_parent(self.dest_path.as_str()) {
            Some(p) => p,
            None => String::from_str("/"),
        };
        let new_file = file_name(new_name);
        path_join(dir.as_str(), new_file.as_str())
    }

    pub fn chapter(&self) -> (res: u8)
        ensures
            res == self@.chapter,
            res >= 1,
    {
        proof { use_type_invariant(self); }
        self.chapter
    }

    pub fn episode(&self) -> (res: u8)
        ensures
            res == self@.episode,
            res >= 1,
    {
        proof { use_type_invariant(self); }
        self.episode
    }

    pub fn chapter_path(&self) -> (res: &str)
        ensures
            res@ == self@.chapter_path,
    {
        self.chapter_path.as_str()
    }

    pub fn name(&self) -> (res: &str)
        ensures
            res@ == self@.name,
    {
        self.name.as_str()
    }

    pub fn dest_path(&self) -> (res: &str)
        ensures
            res@ == self@.dest_path,
    {
        self.dest_path.as_str()
    }
}

} // verus!
