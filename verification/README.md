# open_media_tracker

A tracker of the episode a user has reached in each of their series and
other media. The library under `src/` holds the model and every decision of
the application, with contracts proved by Verus:

- `media`, `media_list`: a media (name, chapter, episode, chapter directory,
  file) and the list of them, with the naming rules for new media and renames.
- `episode`, `episode_list`: the media files of a chapter directory, sorted.
- `sort`, `search`, `text`, `utils`: stable sorting by name, fuzzy search,
  text order and number parsing, and finding the next chapter directory.
- `gui`: the application as a state machine. Each screen and dialog takes a
  message and gives its new state and the work it asks for (saving a media,
  reading a directory, opening a file); `gui::app` ties them together.
- `dialogs`: the dialogs of the serial tracker.

`app/main.rs` is a small host that reads the configuration, performs the
requested work on the file system and feeds the answers back as messages.
