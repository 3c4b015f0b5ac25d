use file_rename::errors::BatchError;
use file_rename::id3tag::{prepare_tag, read_snapshot, EditTags};
use file_rename::protocol::{edit_step, EditPhase, StepEvent};
use file_rename::tags::TagEditArgs;
use id3::TagLike;

#[test]
fn edit_tags_updates_real_tag() {
    let mut tag = id3::Tag::new();
    let spec = TagEditArgs::new("wav", "Hits", "Someone", "filename", "Blues");
    EditTags(&mut tag, &spec, "Track09.wav");
    assert_eq!(tag.title(), Some("Track09"));
    assert_eq!(tag.album(), Some("Hits"));
    assert_eq!(tag.artist(), Some("Someone"));
    assert_eq!(tag.genre(), Some("Blues"));
}

#[test]
fn edit_tags_overwrites_existing_values() {
    let mut tag = id3::Tag::new();
    tag.set_album("Old Album");
    tag.set_title("Old Title");
    tag.set_genre("Old Genre");
    let spec = TagEditArgs {
        file_type: "mp3".to_string(),
        album: Some("New Album".to_string()),
        artist: None,
        title: Some("keep".to_string()),
        genre: None,
    };
    EditTags(&mut tag, &spec, "song.mp3");
    assert_eq!(tag.album(), Some("New Album"));
    assert_eq!(tag.title(), Some("Old Title"));
    assert_eq!(tag.genre(), Some("Old Genre"));
    assert_eq!(tag.artist(), None);
}

#[test]
fn edit_tags_is_idempotent_on_real_tag() {
    let mut once = id3::Tag::new();
    let spec = TagEditArgs::new("wav", "A", "B", "filename", "C");
    EditTags(&mut once, &spec, "x.wav");
    let mut twice = once.clone();
    EditTags(&mut twice, &spec, "x.wav");
    assert_eq!(once, twice);
}

#[test]
fn snapshot_reads_back_what_was_written() {
    let mut tag = id3::Tag::new();
    let spec = TagEditArgs::new("wav", "Hits", "Someone", "A Title", "Blues");
    EditTags(&mut tag, &spec, "a.wav");
    let snap = read_snapshot(&tag);
    assert_eq!(snap.album, Some("Hits".to_string()));
    assert_eq!(snap.artist, Some("Someone".to_string()));
    assert_eq!(snap.title, Some("A Title".to_string()));
    assert_eq!(snap.genre, Some("Blues".to_string()));
}

#[test]
fn prepare_tag_degrades_to_empty() {
    let empty = prepare_tag(None);
    assert_eq!(empty.title(), None);
    assert_eq!(empty.album(), None);
    let mut found = id3::Tag::new();
    found.set_artist("Kept");
    let kept = prepare_tag(Some(found));
    assert_eq!(kept.artist(), Some("Kept"));
}

#[test]
fn file_round_trip_returns_written_values() {
    let file = tempfile::Builder::new()
        .suffix(".wav")
        .tempfile()
        .expect("temp file");
    let file_name = file
        .path()
        .file_name()
        .and_then(|n| n.to_str())
        .expect("file name")
        .to_string();
    let expected_title = {
        let dot = file_name.rfind('.').expect("suffix");
        file_name[..dot].to_string()
    };

    let spec = TagEditArgs::new("wav", "Hits", "Someone", "filename", "Blues");
    let mut tag = prepare_tag(id3::Tag::read_from_path(file.path()).ok());
    EditTags(&mut tag, &spec, &file_name);
    tag.write_to_path(file.path(), id3::Version::Id3v24)
        .expect("write tag");

    let read_back = id3::Tag::read_from_path(file.path()).expect("read tag");
    let snap = read_snapshot(&read_back);
    assert_eq!(snap.album, Some("Hits".to_string()));
    assert_eq!(snap.artist, Some("Someone".to_string()));
    assert_eq!(snap.genre, Some("Blues".to_string()));
    assert_eq!(snap.title, Some(expected_title));
}

#[test]
fn batch_updates_matching_files_and_tolerates_one_failure() {
    let dir = tempfile::tempdir().expect("temp dir");
    let keep_a = tempfile::Builder::new()
        .suffix(".wav")
        .tempfile_in(dir.path())
        .expect("temp file");
    let keep_b = tempfile::Builder::new()
        .suffix(".wav")
        .tempfile_in(dir.path())
        .expect("temp file");
    let skip_c = tempfile::Builder::new()
        .suffix(".mp3")
        .tempfile_in(dir.path())
        .expect("temp file");

    let mut names: Vec<String> = Vec::new();
    for f in [&keep_a, &keep_b, &skip_c] {
        names.push(
            f.path()
                .file_name()
                .and_then(|n| n.to_str())
                .expect("file name")
                .to_string(),
        );
    }
    // one entry that matches the filter but whose file cannot be written
    names.push("ghost.wav".to_string());

    let spec = TagEditArgs::new("wav", "Batch Album", "Batch Artist", "keep", "Rock");
    let selected = spec.tag_all(&names);
    assert_eq!(selected, vec![true, true, false, true]);

    // the loop the shell runs: edit each selected file, record failures,
    // and proceed past them
    let mut failures: Vec<BatchError> = Vec::new();
    for (i, name) in names.iter().enumerate() {
        if !selected[i] {
            continue;
        }
        let path = dir.path().join(name);
        let mut tag = prepare_tag(id3::Tag::read_from_path(&path).ok());
        EditTags(&mut tag, &spec, name);
        if tag.write_to_path(&path, id3::Version::Id3v24).is_err() {
            failures.push(BatchError::TagWriteFailed);
        }
    }
    assert_eq!(failures.len(), 1);

    for f in [&keep_a, &keep_b] {
        let tag = id3::Tag::read_from_path(f.path()).expect("read tag");
        assert_eq!(tag.album(), Some("Batch Album"));
        assert_eq!(tag.artist(), Some("Batch Artist"));
    }
    // the skipped file was not touched: it still carries no tag at all
    assert!(id3::Tag::read_from_path(skip_c.path()).is_err());
}

#[test]
fn protocol_steps() {
    assert_eq!(
        edit_step(EditPhase::Check, StepEvent::Success),
        EditPhase::Stage
    );
    assert_eq!(
        edit_step(EditPhase::Check, StepEvent::Failure),
        EditPhase::Stopped(BatchError::FileNotFound)
    );
    assert_eq!(
        edit_step(EditPhase::Stage, StepEvent::Success),
        EditPhase::Load
    );
    assert_eq!(
        edit_step(EditPhase::Stage, StepEvent::Failure),
        EditPhase::Stopped(BatchError::CopyFailed)
    );
    // a missing or unreadable tag container never stops the edit
    assert_eq!(
        edit_step(EditPhase::Load, StepEvent::TagMissing),
        EditPhase::Store
    );
    assert_eq!(
        edit_step(EditPhase::Load, StepEvent::Failure),
        EditPhase::Store
    );
    assert_eq!(
        edit_step(EditPhase::Store, StepEvent::Success),
        EditPhase::Commit
    );
    assert_eq!(
        edit_step(EditPhase::Store, StepEvent::Failure),
        EditPhase::Stopped(BatchError::TagWriteFailed)
    );
    assert_eq!(
        edit_step(EditPhase::Commit, StepEvent::Success),
        EditPhase::Clean
    );
    assert_eq!(
        edit_step(EditPhase::Commit, StepEvent::Failure),
        EditPhase::Stopped(BatchError::CopyFailed)
    );
    // deletion failure after a successful commit is tolerated
    assert_eq!(
        edit_step(EditPhase::Clean, StepEvent::Failure),
        EditPhase::Done
    );
    assert_eq!(
        edit_step(EditPhase::Clean, StepEvent::Success),
        EditPhase::Done
    );
}

#[test]
fn protocol_success_path_runs_to_done() {
    let events = [
        StepEvent::Success,
        StepEvent::Success,
        StepEvent::TagMissing,
        StepEvent::Success,
        StepEvent::Success,
        StepEvent::Failure,
    ];
    let mut phase = EditPhase::Check;
    for ev in events {
        phase = edit_step(phase, ev);
    }
    assert_eq!(phase, EditPhase::Done);
}
