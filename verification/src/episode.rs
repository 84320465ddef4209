//! An episode: a media file in the chapter directory.

use vstd::prelude::*;
use crate::error::ErrorKind;
use crate::sort::SortKey;

verus! {

/// The top-level MIME type (such as "video") that `mime_guess` guesses from
/// the extension of `path`, or `None` when it knows no type for it.
pub uninterp spec fn spec_guessed_mime_type(path: Seq<char>) -> Option<Seq<char>>;

/// The file stem (name without its last extension) of `path`, as
/// `std::path::Path::file_stem` gives it; `None` when the path has none.
pub uninterp spec fn spec_path_file_stem(path: Seq<char>) -> Option<Seq<char>>;

/// The name of the episode at `path`: its file stem, or "" when it has none.
pub open spec fn spec_episode_name(path: Seq<char>) -> Seq<char> {
    match spec_path_file_stem(path) {
        Some(stem) => stem,
        None => Seq::empty(),
    }
}

/// Calls `mime_guess::from_path(path).first()` and gives the top-level type
/// of the guessed MIME type as text. The result is a function of the path
/// alone (the guess is looked up in a static table by extension; no disk
/// access); nothing more is claimed of it.
#[verifier::external_body]
fn guess_mime_type(path: &str) -> (res: Option<String>)
    ensures
        res matches Some(t) ==> spec_guessed_mime_type(path@) == Some(t@),
        res is None ==> spec_guessed_mime_type(path@) is None,
{
    match mime_guess::from_path(path).first() {
        Some(mime) => Some(mime.type_().as_str().to_string()),
        None => None,
    }
}

/// Calls `std::path::Path::file_stem` on `path`. The result is a function
/// of the path alone.
#[verifier::external_body]
fn path_file_stem(path: &str) -> (res: Option<String>)
    ensures
        res matches Some(p) ==> spec_path_file_stem(path@) == Some(p@),
        res is None ==> spec_path_file_stem(path@) is None,
{
    std::path::Path::new(path).file_stem().map(|s| s.to_string_lossy().to_string())
}

/// A file is a media file when its guessed type is video or audio.
pub open spec fn is_media_type(t: Option<Seq<char>>) -> bool {
    t == Some("video"@) || t == Some("audio"@)
}

pub open spec fn spec_is_media_file(path: Seq<char>) -> bool {
    is_media_type(spec_guessed_mime_type(path))
}

/// Whether `path` names a video or audio file, judging by its extension.
pub fn is_media_file(path: &str) -> (res: bool)
    ensures
        res == spec_is_media_file(path@),
{
    match guess_mime_type(path) {
        Some(t) => {
            let video = String::from_str("video");
            let audio = String::from_str("audio");
            t == video || t == audio
        },
        None => false,
    }
}

/// A media file of a chapter.
pub struct Episode {
    path: String,
}

impl View for Episode {
    type V = Seq<char>;

    closed spec fn view(&self) -> Seq<char> {
        self.path@
    }
}

impl SortKey for Episode {
    closed spec fn sort_key(&self) -> Seq<char> {
        self.path@
    }

    fn key_str(&self) -> (res: &str) {
        self.path.as_str()
    }
}

impl Episode {
    /// The sort key of an episode is its path.
    pub proof fn lemma_sort_key_is_path(&self)
        ensures
            self.sort_key() == self@,
    {
    }

    /// The episode stored at `path`, or `EpisodeMustBeAMediaFile` when the
    /// path does not name a video or audio file.
    pub fn new(path: String) -> (res: Result<Episode, ErrorKind>)
        ensures
            res matches Ok(e) ==> spec_is_media_file(path@) && e@ == path@,
            res matches Err(k) ==> !spec_is_media_file(path@) && k == ErrorKind::EpisodeMustBeAMediaFile,
    {
        if !is_media_file(path.as_str()) {
            return Err(ErrorKind::EpisodeMustBeAMediaFile);
        }
        Ok(Episode { path })
    }

    pub fn path(&self) -> (res: &str)
        ensures
            res@ == self@,
    {
        self.path.as_str()
    }

    /// The name shown for the episode: the file stem of its path.
    pub fn name(&self) -> (res: String)
        ensures
            res@ == spec_episode_name(self@),
    {
        match path_file_stem(self.path.as_str()) {
            Some(stem) => stem,
            None => String::new(),
        }
    }

    pub fn clone_episode(&self) -> (res: Episode)
        ensures
            res@ == self@,
    {
        Episode { path: self.path.clone() }
    }
}

} // verus!
