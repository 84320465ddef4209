use open_media_tracker::search::fuzzy_search;
use open_media_tracker::error::ErrorKind;
use open_media_tracker::utils::{chapter_dir_parts, next_chapter_path, next_dir};

fn strings(p: &[&str]) -> Vec<String> {
    p.iter().map(|s| s.to_string()).collect()
}

#[test]
fn empty_search_lists_all_names_reversed() {
    let names = strings(&["Alpha", "Beta", "Gamma"]);
    assert_eq!(fuzzy_search(&names, ""), strings(&["Gamma", "Beta", "Alpha"]));
}

#[test]
fn search_keeps_only_matches_best_first() {
    let names = strings(&["Breaking Bad", "Better Call Saul", "Dark"]);
    let res = fuzzy_search(&names, "bb");
    assert_eq!(res, strings(&["Breaking Bad"]));
    let res = fuzzy_search(&names, "zzz");
    assert!(res.is_empty());
}

#[test]
fn search_orders_by_score() {
    let names = strings(&["xaxbxc", "abc"]);
    let res = fuzzy_search(&names, "abc");
    assert_eq!(res, strings(&["abc", "xaxbxc"]));
}

#[test]
fn next_dir_is_the_following_sibling_by_name() {
    let dirs = strings(&["Season 3", "Season 1", "Season 2"]);
    assert_eq!(next_dir("Season 1", &dirs), Some("Season 2".to_string()));
    assert_eq!(next_dir("Season 2", &dirs), Some("Season 3".to_string()));
    assert_eq!(next_dir("Season 3", &dirs), None);
    assert_eq!(next_dir("Season 9", &dirs), None);
}

#[test]
fn next_chapter_path_joins_the_next_sibling() {
    let (parent, name) = chapter_dir_parts("/v/show/Season 1").ok().unwrap();
    assert_eq!((parent.as_str(), name.as_str()), ("/v/show", "Season 1"));
    let dirs = strings(&["Season 2", "Season 1"]);
    assert_eq!(next_chapter_path(&parent, &name, &dirs).ok(), Some("/v/show/Season 2".to_string()));
    assert!(matches!(
        next_chapter_path(&parent, "Season 2", &dirs),
        Err(ErrorKind::FailedToFindNextChapterPath)
    ));
    assert!(matches!(chapter_dir_parts("/"), Err(ErrorKind::FailedToFindNextChapterPath)));
    assert!(matches!(chapter_dir_parts(""), Err(ErrorKind::FailedToFindNextChapterPath)));
}
