use file_rename::config::{chosen_log_level, LogChoice, RenameCommandArgs};
use file_rename::names::{contains_str, extension_of, replace_str, stem_of, str_eq};
use file_rename::tags::{TagEditArgs, TagSnapshot};

fn empty_snapshot() -> TagSnapshot {
    TagSnapshot {
        album: None,
        artist: None,
        title: None,
        genre: None,
    }
}

#[test]
fn title_from_filename_strips_extension() {
    let spec = TagEditArgs::new("wav", "Hits", "Someone", "filename", "Blues");
    let after = spec.apply_to_snapshot(&empty_snapshot(), "Track09.wav");
    assert_eq!(after.title, Some("Track09".to_string()));
    assert_eq!(after.album, Some("Hits".to_string()));
    assert_eq!(after.artist, Some("Someone".to_string()));
    assert_eq!(after.genre, Some("Blues".to_string()));
}

#[test]
fn applying_twice_equals_applying_once() {
    let spec = TagEditArgs::new("mp3", "Album", "Artist", "filename", "Rock");
    let start = TagSnapshot {
        album: Some("Old Album".to_string()),
        artist: None,
        title: Some("Old Title".to_string()),
        genre: Some("Old Genre".to_string()),
    };
    let once = spec.apply_to_snapshot(&start, "song.mp3");
    let twice = spec.apply_to_snapshot(&once, "song.mp3");
    assert_eq!(once, twice);
}

#[test]
fn absent_fields_leave_values_unchanged() {
    let spec = TagEditArgs {
        file_type: "mp3".to_string(),
        album: None,
        artist: Some("New Artist".to_string()),
        title: None,
        genre: None,
    };
    let start = TagSnapshot {
        album: Some("Album".to_string()),
        artist: Some("Artist".to_string()),
        title: Some("Title".to_string()),
        genre: None,
    };
    let after = spec.apply_to_snapshot(&start, "song.mp3");
    assert_eq!(after.album, Some("Album".to_string()));
    assert_eq!(after.artist, Some("New Artist".to_string()));
    assert_eq!(after.title, Some("Title".to_string()));
    assert_eq!(after.genre, None);
}

#[test]
fn title_keep_is_a_no_op() {
    let spec = TagEditArgs {
        file_type: "mp3".to_string(),
        album: None,
        artist: None,
        title: Some("keep".to_string()),
        genre: None,
    };
    let with_title = TagSnapshot {
        album: None,
        artist: None,
        title: Some("Existing".to_string()),
        genre: None,
    };
    let after = spec.apply_to_snapshot(&with_title, "song.mp3");
    assert_eq!(after.title, Some("Existing".to_string()));
    let after_empty = spec.apply_to_snapshot(&empty_snapshot(), "song.mp3");
    assert_eq!(after_empty.title, None);
}

#[test]
fn title_literal_overwrites() {
    let spec = TagEditArgs {
        file_type: "mp3".to_string(),
        album: None,
        artist: None,
        title: Some("A Fresh Name".to_string()),
        genre: None,
    };
    let with_title = TagSnapshot {
        album: None,
        artist: None,
        title: Some("Existing".to_string()),
        genre: None,
    };
    let after = spec.apply_to_snapshot(&with_title, "song.mp3");
    assert_eq!(after.title, Some("A Fresh Name".to_string()));
}

#[test]
fn tag_all_selects_matching_extensions() {
    let spec = TagEditArgs::new("wav", "A", "B", "keep", "C");
    let names: Vec<String> = ["one.wav", "two.mp3", "three.wav", "four", "five.WAV"]
        .iter()
        .map(|n| n.to_string())
        .collect();
    let sel = spec.tag_all(&names);
    assert_eq!(sel, vec![true, false, true, false, false]);
}

#[test]
fn name_splitting() {
    assert_eq!(extension_of("Track09.wav"), Some("wav".to_string()));
    assert_eq!(stem_of("Track09.wav"), "Track09");
    assert_eq!(extension_of("archive.tar.gz"), Some("gz".to_string()));
    assert_eq!(stem_of("archive.tar.gz"), "archive.tar");
    assert_eq!(extension_of("noext"), None);
    assert_eq!(stem_of("noext"), "noext");
    // a hidden file's leading dot opens no extension
    assert_eq!(extension_of(".hidden"), None);
    assert_eq!(stem_of(".hidden"), ".hidden");
    // a trailing dot leaves an empty extension
    assert_eq!(extension_of("odd."), Some("".to_string()));
    assert_eq!(stem_of("odd."), "odd");
    assert_eq!(extension_of(""), None);
}

#[test]
fn string_primitives() {
    assert!(str_eq("abc", "abc"));
    assert!(!str_eq("abc", "abd"));
    assert!(!str_eq("abc", "ab"));
    assert!(str_eq("", ""));
    assert!(contains_str("in_file_between", "file"));
    assert!(!contains_str("no_rename1", "file"));
    assert!(contains_str("anything", ""));
    assert_eq!(replace_str("file1", "file", "new"), "new1");
    assert_eq!(replace_str("aaa", "aa", "b"), "ba");
    assert_eq!(replace_str("abc", "", "x"), "abc");
    assert_eq!(replace_str("abc", "zzzz", "x"), "abc");
}

#[test]
fn log_level_selection() {
    assert_eq!(chosen_log_level("info"), LogChoice::Info);
    assert_eq!(chosen_log_level("debug"), LogChoice::Debug);
    assert_eq!(chosen_log_level("error"), LogChoice::Error);
    assert_eq!(chosen_log_level("warn"), LogChoice::Warn);
    assert_eq!(chosen_log_level("anything else"), LogChoice::Warn);
}

#[test]
fn config_builds_renamer() {
    let args = RenameCommandArgs {
        path: "/music".to_string(),
        file_type: "mp3".to_string(),
        current: "old".to_string(),
        new: "new".to_string(),
        loglevel: "info".to_string(),
    };
    let renamer = args.renamer();
    assert_eq!(renamer.file_type, "mp3");
    assert_eq!(renamer.current, "old");
    assert_eq!(renamer.new, "new");
}
