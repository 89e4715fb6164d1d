use subfetch::{
    classify_entry, is_video_extension, step, Action, EntryKind, Event, FileError, Failure,
    HashError, Outcome, ProtocolError, Stage, Summary,
};

fn movie_avi() -> Vec<u8> {
    (0..131072usize).map(|i| (i % 256) as u8).collect()
}

fn read_movie() -> Event {
    let file = movie_avi();
    Event::BlocksRead {
        size: file.len() as u64,
        head: file[..65536].to_vec(),
        tail: file[file.len() - 65536..].to_vec(),
    }
}

fn after_lookup_request() -> Stage {
    let (stage, _) = step(Stage::Start, Event::SiblingChecked { exists: false });
    let (stage, _) = step(stage, read_movie());
    stage
}

#[test]
fn entries_are_classified() {
    assert_eq!(classify_entry(true, None), EntryKind::Directory);
    assert_eq!(classify_entry(true, Some("avi")), EntryKind::Directory);
    assert_eq!(classify_entry(false, Some("avi")), EntryKind::Video);
    assert_eq!(classify_entry(false, Some("srt")), EntryKind::Ignored);
    assert_eq!(classify_entry(false, Some("AVI")), EntryKind::Ignored);
    assert_eq!(classify_entry(false, None), EntryKind::Ignored);
    assert!(is_video_extension("avi"));
    assert!(!is_video_extension("avi2"));
}

#[test]
fn missing_subtitle_hashes_looks_up_and_reports_no_candidates() {
    let (stage, action) = step(Stage::Start, Event::SiblingChecked { exists: false });
    assert!(matches!(stage, Stage::Reading));
    assert!(matches!(action, Action::ReadBlocks));

    let (stage, action) = step(stage, read_movie());
    match &action {
        Action::Lookup { hash, url } => {
            assert_eq!(hash, "a0601fdf9f610000");
            assert!(url.contains("moviehash=a0601fdf9f610000"));
        }
        other => panic!("expected a lookup, got {:?}", other),
    }
    assert!(matches!(&stage, Stage::LookingUp { hash } if hash == "a0601fdf9f610000"));

    let (stage, action) = step(stage, Event::Response { body: r#"{"data":[]}"#.to_string() });
    assert!(matches!(stage, Stage::Done));
    match action {
        Action::Report(Outcome::NoCandidates { hash }) => assert_eq!(hash, "a0601fdf9f610000"),
        other => panic!("expected no candidates, got {:?}", other),
    }
}

#[test]
fn existing_subtitle_is_skipped() {
    let (stage, action) = step(Stage::Start, Event::SiblingChecked { exists: true });
    assert!(matches!(stage, Stage::Done));
    assert!(matches!(action, Action::Report(Outcome::Skipped)));
}

#[test]
fn first_candidate_is_downloaded_and_written() {
    let stage = after_lookup_request();
    let body = r#"{"data":[{"attributes":{"files":[{"file_id":42}]}}]}"#.to_string();
    let (stage, action) = step(stage, Event::Response { body });
    assert!(matches!(stage, Stage::Resolving));
    match &action {
        Action::Resolve { url, body } => {
            assert_eq!(url, "https://api.opensubtitles.com/api/v1/download");
            assert_eq!(body, "{\"file_id\":42}");
        }
        other => panic!("expected a resolve, got {:?}", other),
    }

    let (stage, action) =
        step(stage, Event::Response { body: r#"{"link":"https://example/x.srt"}"#.to_string() });
    assert!(matches!(stage, Stage::Fetching));
    match &action {
        Action::Fetch { url } => assert_eq!(url, "https://example/x.srt"),
        other => panic!("expected a fetch, got {:?}", other),
    }

    let subtitle = b"1\n00:00:01,000 --> ...\n".to_vec();
    let (stage, action) = step(stage, Event::Fetched { bytes: subtitle.clone() });
    assert!(matches!(stage, Stage::Writing));
    match &action {
        Action::Write { bytes } => assert_eq!(bytes, &subtitle),
        other => panic!("expected a write, got {:?}", other),
    }

    let (stage, action) = step(stage, Event::Written);
    assert!(matches!(stage, Stage::Done));
    assert!(matches!(action, Action::Report(Outcome::Downloaded)));
}

#[test]
fn only_the_first_candidate_is_resolved() {
    let stage = after_lookup_request();
    let body = r#"{"data":[{"attributes":{"files":[{"file_id":9}]}},{"attributes":{"files":[{"file_id":42}]}}]}"#;
    let (_, action) = step(stage, Event::Response { body: body.to_string() });
    assert!(matches!(&action, Action::Resolve { body, .. } if body == "{\"file_id\":9}"));
}

#[test]
fn undersized_video_fails_with_hash_error() {
    let (stage, _) = step(Stage::Start, Event::SiblingChecked { exists: false });
    let small = vec![1u8; 1000];
    let (stage, action) =
        step(stage, Event::BlocksRead { size: 1000, head: small.clone(), tail: small });
    assert!(matches!(stage, Stage::Done));
    assert!(matches!(
        action,
        Action::Report(Outcome::Failed(FileError::Hash(HashError::FileTooSmall)))
    ));
}

#[test]
fn malformed_responses_fail_the_file() {
    let (_, action) = step(after_lookup_request(), Event::Response { body: "oops".to_string() });
    assert!(matches!(
        action,
        Action::Report(Outcome::Failed(FileError::Protocol(ProtocolError::MissingFileIds)))
    ));
    let (_, action) = step(Stage::Resolving, Event::Response { body: "{}".to_string() });
    assert!(matches!(
        action,
        Action::Report(Outcome::Failed(FileError::Protocol(ProtocolError::MissingLink)))
    ));
}

#[test]
fn outside_failures_end_the_file() {
    let (stage, action) = step(Stage::Reading, Event::Failed { cause: Failure::Filesystem });
    assert!(matches!(stage, Stage::Done));
    assert!(matches!(action, Action::Report(Outcome::Failed(FileError::Filesystem))));
    let (_, action) = step(Stage::Resolving, Event::Failed { cause: Failure::Transport });
    assert!(matches!(action, Action::Report(Outcome::Failed(FileError::Transport))));
    let (_, action) = step(Stage::Writing, Event::Failed { cause: Failure::Write });
    assert!(matches!(action, Action::Report(Outcome::Failed(FileError::Write))));
}

#[test]
fn unexpected_events_are_out_of_order() {
    let (stage, action) = step(Stage::Start, Event::Written);
    assert!(matches!(stage, Stage::Done));
    assert!(matches!(action, Action::Report(Outcome::Failed(FileError::OutOfOrder))));
    let (_, action) = step(Stage::Done, Event::SiblingChecked { exists: false });
    assert!(matches!(action, Action::Report(Outcome::Failed(FileError::OutOfOrder))));
    let (_, action) = step(Stage::Start, Event::Fetched { bytes: vec![] });
    assert!(matches!(action, Action::Report(Outcome::Failed(FileError::OutOfOrder))));
}

#[test]
fn summary_counts_outcomes() {
    let mut summary = Summary::new();
    summary.record(&Outcome::Skipped);
    summary.record(&Outcome::Downloaded);
    summary.record(&Outcome::Downloaded);
    summary.record(&Outcome::NoCandidates { hash: "0000000000010000".to_string() });
    summary.record(&Outcome::Failed(FileError::Transport));
    assert_eq!(
        summary,
        Summary { skipped: 1, no_candidates: 1, downloaded: 2, failed: 1 }
    );
}
