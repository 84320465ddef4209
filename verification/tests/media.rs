use open_media_tracker::media::{file_name, find_availible_name, Media};
use open_media_tracker::media_list::MediaList;

fn files(names: &[&str]) -> Vec<String> {
    names.iter().map(|s| s.to_string()).collect()
}

#[test]
fn first_free_default_name() {
    assert_eq!(find_availible_name(&files(&[])), "New media");
    assert_eq!(find_availible_name(&files(&["New media.ron"])), "New media 1");
    assert_eq!(
        find_availible_name(&files(&["New media.ron", "New media 1.ron", "other.ron"])),
        "New media 2"
    );
    assert_eq!(find_availible_name(&files(&["New media 1.ron"])), "New media");
    assert_eq!(find_availible_name(&files(&["New media"])), "New media");
}

#[test]
fn media_file_name_adds_extension() {
    assert_eq!(file_name("Show"), "Show.ron");
    assert_eq!(file_name(""), ".ron");
}

#[test]
fn new_media_starts_at_first_episode() {
    let m = Media::new("/data/x.ron".to_string(), &files(&["New media.ron"]));
    assert_eq!(m.name(), "New media 1");
    assert_eq!(m.chapter(), 1);
    assert_eq!(m.episode(), 1);
    assert_eq!(m.chapter_path(), "");
    assert!(!m.chapter_path_is_present());
    assert_eq!(m.dest_path(), "/data/x.ron");
}

#[test]
fn media_with_default_name_is_stored_under_its_name() {
    let m = Media::with_default_name("/data", &files(&["New media.ron", "New media 1.ron"]));
    assert_eq!(m.name(), "New media 2");
    assert_eq!(m.dest_path(), "/data/New media 2.ron");
    assert_eq!(m.file_name(), "New media 2.ron");
}

#[test]
fn renaming_moves_the_file() {
    let mut m = Media::from_parts(
        "Old".to_string(),
        2,
        3,
        "/video/old".to_string(),
        "/data/Old.ron".to_string(),
    );
    let moved = m.rename("New".to_string());
    assert_eq!(moved, Some(("/data/Old.ron".to_string(), "/data/New.ron".to_string())));
    assert_eq!(m.name(), "New");
    assert_eq!(m.dest_path(), "/data/New.ron");
    assert_eq!(m.chapter(), 2);
    assert_eq!(m.episode(), 3);
    assert_eq!(m.rename("New".to_string()), None);
    assert_eq!(m.dest_path(), "/data/New.ron");
}

#[test]
fn setters_change_one_field() {
    let mut m = Media::from_parts("A".to_string(), 1, 1, String::new(), "/d/A.ron".to_string());
    m.set_chapter(4);
    m.set_episode(9);
    m.set_chapter_path("/v/a".to_string());
    assert_eq!((m.chapter(), m.episode(), m.chapter_path()), (4, 9, "/v/a"));
    assert!(m.chapter_path_is_present());
}

fn media(name: &str) -> Media {
    Media::from_parts(name.to_string(), 1, 1, String::new(), format!("/d/{name}.ron"))
}

#[test]
fn list_refuses_a_name_used_by_another_media() {
    let mut list = MediaList::new();
    list.insert(media("A"));
    list.insert(media("B"));
    let res = list.rename_media(1, "A".to_string());
    assert!(matches!(
        res,
        Err(open_media_tracker::error::ErrorKind::MediaNameIsUsed { ref name }) if name == "A"
    ));
    assert_eq!(list.names(), vec!["A".to_string(), "B".to_string()]);
    let same = list.rename_media(1, "B".to_string());
    assert!(matches!(same, Ok(None)));
}

#[test]
fn renamed_media_is_found_by_its_new_name() {
    let mut list = MediaList::new();
    list.insert(media("A"));
    list.insert(media("B"));
    list.insert(media("C"));
    let moved = list.rename_media(2, "Z".to_string());
    assert!(matches!(moved, Ok(Some(ref mv)) if mv.0 == "/d/C.ron" && mv.1 == "/d/Z.ron"));
    assert_eq!(list.find_by_name("Z"), Some(2));
    assert_eq!(list.find_by_name("C"), None);
}

#[test]
fn find_gives_the_first_media_of_that_name() {
    let list = MediaList::from_media(vec![media("A"), media("B"), media("B")]);
    assert_eq!(list.find_by_name("B"), Some(1));
    assert_eq!(list.find_by_name("X"), None);
}

#[test]
fn insert_and_remove() {
    let mut list = MediaList::new();
    assert_eq!(list.insert(media("A")), 0);
    assert_eq!(list.insert(media("B")), 1);
    assert_eq!(list.len(), 2);
    assert!(list.remove(5).is_none());
    let removed = list.remove(0).unwrap();
    assert_eq!(removed.name(), "A");
    assert_eq!(list.names(), vec!["B".to_string()]);
}

#[test]
fn sort_by_name_is_stable_and_can_reverse() {
    let mut list = MediaList::from_media(vec![
        Media::from_parts("b".to_string(), 1, 1, String::new(), "/1".to_string()),
        Media::from_parts("a".to_string(), 1, 1, String::new(), "/2".to_string()),
        Media::from_parts("b".to_string(), 1, 1, String::new(), "/3".to_string()),
        Media::from_parts("C".to_string(), 1, 1, String::new(), "/4".to_string()),
    ]);
    list.sort_by_name(false);
    let order: Vec<&str> = (0..list.len()).map(|i| list.get(i).dest_path()).collect();
    assert_eq!(order, vec!["/4", "/2", "/1", "/3"]);
    list.sort_by_name(true);
    let order: Vec<&str> = (0..list.len()).map(|i| list.get(i).dest_path()).collect();
    assert_eq!(order, vec!["/3", "/1", "/2", "/4"]);
}
