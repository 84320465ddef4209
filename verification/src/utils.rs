//! Finding the directory of the next chapter.

use vstd::prelude::*;
use crate::error::ErrorKind;
use crate::media::{path_join, path_parent, spec_path_join, spec_path_parent, string_views};
use crate::text::{seq_lt, str_lt, str_eq, lemma_seq_lt_transitive};

verus! {

/// `next` is the smallest name in `names` that comes after `current`.
pub open spec fn is_next_name(next: Seq<char>, current: Seq<char>, names: Seq<Seq<char>>) -> bool {
    &&& names.contains(next)
    &&& seq_lt(current, next)
    &&& forall|n: Seq<char>| names.contains(n) && seq_lt(current, n) ==> !seq_lt(n, next)
}

/// The directory that follows `dir_name` among its sibling directories in
/// name order: `None` when `dir_name` is not among `sibling_dirs` or is the
/// last of them.
pub fn next_dir(dir_name: &str, sibling_dirs: &Vec<String>) -> (res: Option<String>)
    ensures
        res matches Some(n) ==> string_views(sibling_dirs@).contains(dir_name@)
            && is_next_name(n@, dir_name@, string_views(sibling_dirs@)),
        res is None ==> !string_views(sibling_dirs@).contains(dir_name@)
            || forall|n: Seq<char>| string_views(sibling_dirs@).contains(n) ==> !seq_lt(dir_name@, n),
{
    let ghost names = string_views(sibling_dirs@);
    let mut found = false;
    let mut best: Option<usize> = None;
    let mut i: usize = 0;
    while i < sibling_dirs.len()
        invariant
            i <= sibling_dirs@.len(),
            names == string_views(sibling_dirs@),
            found == exists|k: int| 0 <= k < i && names[k] == dir_name@,
            best matches Some(b) ==> b < i && seq_lt(dir_name@, names[b as int])
                && forall|k: int| 0 <= k < i && seq_lt(dir_name@, names[k]) ==> !seq_lt(names[k], names[b as int]),
            best is None ==> forall|k: int| 0 <= k < i ==> !seq_lt(dir_name@, names[k]),
        decreases sibling_dirs@.len() - i,
    {
        let name = sibling_dirs[i].as_str();
        if str_eq(name, dir_name) {
            found = true;
            assert(names[i as int] == dir_name@);
        }
        assert(names[i as int] == name@);
        if str_lt(dir_name, name) {
            match best {
                Some(b) => {
                    if str_lt(name, sibling_dirs[b].as_str()) {
                        proof {
                            assert forall|k: int| 0 <= k < i + 1 && seq_lt(dir_name@, names[k]) implies !seq_lt(names[k], names[i as int]) by {
                                if k < i && seq_lt(names[k], names[i as int]) {
                                    lemma_seq_lt_transitive(names[k], names[i as int], names[b as int]);
                                }
                                if k == i {
                                    crate::text::lemma_seq_lt_irreflexive(names[k]);
                                }
                            }
                        }
                        best = Some(i);
                    }
                },
                None => {
                    proof {
                        crate::text::lemma_seq_lt_irreflexive(names[i as int]);
                    }
                    best = Some(i);
                },
            }
        }
        proof {
            if !found {
                assert forall|k: int| 0 <= k < i + 1 implies names[k] != dir_name@ by {}
            }
        }
        i = i + 1;
    }
    if !found {
        return None;
    }
    match best {
        Some(b) => {
            proof {
                assert forall|n: Seq<char>| names.contains(n) && seq_lt(dir_name@, n) implies !seq_lt(n, names[b as int]) by {
                    let k = choose|k: int| 0 <= k < names.len() && names[k] == n;
                }
            }
            Some(sibling_dirs[b].clone())
        },
        None => {
            proof {
                assert forall|n: Seq<char>| names.contains(n) implies !seq_lt(dir_name@, n) by {
                    let k = choose|k: int| 0 <= k < names.len() && names[k] == n;
                }
            }
            None
        },
    }
}

/// The last component of `path`, as `std::path::Path::file_name` gives it;
/// `None` when the path ends in `..` or is a root or empty.
pub uninterp spec fn spec_path_file_name(path: Seq<char>) -> Option<Seq<char>>;

/// Calls `std::path::Path::file_name`. The path is text, so its file name is
/// text too; the result is a function of the path alone.
#[verifier::external_body]
fn path_file_name(path: &str) -> (res: Option<String>)
    ensures
        res matches Some(n) ==> spec_path_file_name(path@) == Some(n@),
        res is None ==> spec_path_file_name(path@) is None,
{
    std::path::Path::new(path).file_name().map(|n| n.to_string_lossy().to_string())
}

/// Where the chapter after `chapter_path` is looked for: the directory that
/// holds `chapter_path`, and the name of `chapter_path` in it. A path
/// without a file name or without a parent has no next chapter.
pub fn chapter_dir_parts(chapter_path: &str) -> (res: Result<(String, String), ErrorKind>)
    ensures
        match (spec_path_parent(chapter_path@), spec_path_file_name(chapter_path@)) {
            (Some(dir), Some(name)) => res matches Ok(parts) && parts.0@ == dir && parts.1@ == name,
            _ => res == Err::<(String, String), ErrorKind>(ErrorKind::FailedToFindNextChapterPath),
        },
{
    let name = match path_file_name(chapter_path) {
        Some(n) => n,
        None => {
            return Err(ErrorKind::FailedToFindNextChapterPath);
        },
    };
    match path_parent(chapter_path) {
        Some(dir) => Ok((dir, name)),
        None => Err(ErrorKind::FailedToFindNextChapterPath),
    }
}

/// The path of the chapter after the chapter directory called `dir_name`
/// in `parent`, whose directories are `sibling_dirs`: the next of them by
/// name, joined to `parent`. There is none when `dir_name` is not among them
/// or is the last of them.
pub fn next_chapter_path(parent: &str, dir_name: &str, sibling_dirs: &Vec<String>) -> (res: Result<String, ErrorKind>)
    ensures
        res is Ok <==> string_views(sibling_dirs@).contains(dir_name@) && exists|n: Seq<char>|
            string_views(sibling_dirs@).contains(n) && #[trigger] seq_lt(dir_name@, n),
        res matches Ok(p) ==> exists|n: Seq<char>|
            #[trigger] is_next_name(n, dir_name@, string_views(sibling_dirs@)) && p@ == spec_path_join(parent@, n),
        res matches Err(e) ==> e == ErrorKind::FailedToFindNextChapterPath,
{
    match next_dir(dir_name, sibling_dirs) {
        Some(next) => {
            assert(is_next_name(next@, dir_name@, string_views(sibling_dirs@)));
            Ok(path_join(parent, next.as_str()))
        },
        None => Err(ErrorKind::FailedToFindNextChapterPath),
    }
}

} // verus!
