use open_media_tracker::episode::{is_media_file, Episode};
use open_media_tracker::episode_list::{EpisodeList, Episodes};
use open_media_tracker::error::ErrorKind;

fn paths(p: &[&str]) -> Vec<String> {
    p.iter().map(|s| s.to_string()).collect()
}

#[test]
fn media_files_are_videos_and_audio() {
    assert!(is_media_file("/s/ep1.mkv"));
    assert!(is_media_file("/s/ep1.mp4"));
    assert!(is_media_file("/s/track.mp3"));
    assert!(!is_media_file("/s/notes.txt"));
    assert!(!is_media_file("/s/cover.jpg"));
    assert!(!is_media_file("/s/noextension"));
}

#[test]
fn episode_must_be_a_media_file() {
    let e = Episode::new("/show/s1/Episode 01.mkv".to_string()).ok().unwrap();
    assert_eq!(e.path(), "/show/s1/Episode 01.mkv");
    assert_eq!(e.name(), "Episode 01");
    assert!(matches!(
        Episode::new("/show/s1/readme.txt".to_string()),
        Err(ErrorKind::EpisodeMustBeAMediaFile)
    ));
}

#[test]
fn episode_list_keeps_media_files_sorted() {
    let list = EpisodeList::read(paths(&["/s/ep2.mkv", "/s/notes.txt", "/s/ep1.mkv", "/s/ep10.mkv"]))
        .ok()
        .unwrap();
    assert_eq!(list.len(), 3);
    let order: Vec<&str> = (0..list.len()).map(|i| list.get(i).unwrap().path()).collect();
    assert_eq!(order, vec!["/s/ep1.mkv", "/s/ep10.mkv", "/s/ep2.mkv"]);
    assert!(list.get(3).is_none());
}

#[test]
fn episode_list_without_media_files_is_an_error() {
    assert!(matches!(EpisodeList::read(paths(&[])), Err(ErrorKind::EpisodesDidNotFound)));
    assert!(matches!(
        EpisodeList::read(paths(&["/s/a.txt", "/s/b.nfo"])),
        Err(ErrorKind::EpisodesDidNotFound)
    ));
}

#[test]
fn episodes_may_be_empty() {
    let e = Episodes::read(paths(&["/s/a.txt"]));
    assert_eq!(e.len(), 0);
    let e = Episodes::read(paths(&["/s/b.mkv", "/s/a.mkv"]));
    assert_eq!(e.len(), 2);
    assert_eq!(e.get(0).unwrap().path(), "/s/a.mkv");
}
