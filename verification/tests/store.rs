use std::collections::HashMap;
use subtitle_sync::diff::diff;
use subtitle_sync::entry::Entry;
use subtitle_sync::export::{export, Format};
use subtitle_sync::status::{classify, Code, Origin, Status, StorageFault, StoreError};
use subtitle_sync::scraper::Subtitles;
use subtitle_sync::store::{
    download_subtitles, get_subtitles, set_subtitles, subtitles_of, Action, ChangeRecord,
    DownloadRequest, Event, Operation, Outcome, Phase, Session, SubtitleId,
};

fn entry(start: i64, end: i64, text: &str) -> Entry {
    Entry::new(start, end, text.to_string())
}

fn key(video: &str, language: &str) -> SubtitleId {
    SubtitleId { video_id: video.to_string(), language: language.to_string() }
}

fn update(entries: Vec<Entry>, author: &str) -> Operation {
    Operation::Update { entries, author: author.to_string() }
}

struct World {
    tracks: HashMap<(String, String), Vec<Entry>>,
    changes: Vec<ChangeRecord>,
    saved: Option<(HashMap<(String, String), Vec<Entry>>, usize)>,
    scraped: Option<Vec<Entry>>,
    now: i64,
    scrapes: usize,
    inserts: usize,
    overwrites: usize,
    fail_at: Vec<&'static str>,
}

fn world(scraped: Option<Vec<Entry>>) -> World {
    World {
        tracks: HashMap::new(),
        changes: Vec::new(),
        saved: None,
        fail_at: Vec::new(),
        scraped,
        now: 1_600_000_000_000,
        scrapes: 0,
        inserts: 0,
        overwrites: 0,
    }
}

fn perform(world: &mut World, key: SubtitleId, operation: Operation) -> Outcome {
    let id = (key.video_id.clone(), key.language.clone());
    let (mut session, mut action) = Session::begin(key, operation);
    for _ in 0..16 {
        let name = match &action {
            Action::Lookup => "lookup",
            Action::Insert(_) => "insert",
            Action::Begin => "begin",
            Action::Append(_) => "append",
            Action::Overwrite(_) => "overwrite",
            Action::Commit => "commit",
            Action::Rollback => "rollback",
            _ => "",
        };
        let event = match action {
            Action::Finish(outcome) => {
                assert!(session.is_finished());
                return outcome;
            }
            _ if world.fail_at.contains(&name) => {
                Event::Failed(StorageFault::Database(format!("{} failed", name)))
            }
            Action::Begin => {
                world.saved = Some((world.tracks.clone(), world.changes.len()));
                Event::Begun
            }
            Action::Commit => {
                world.saved = None;
                Event::Committed
            }
            Action::Rollback => {
                if let Some((tracks, logged)) = world.saved.take() {
                    world.tracks = tracks;
                    world.changes.truncate(logged);
                }
                Event::RolledBack
            }
            Action::Lookup => Event::Found(world.tracks.get(&id).cloned()),
            Action::Scrape => {
                world.scrapes += 1;
                Event::Scraped(world.scraped.clone())
            }
            Action::Insert(entries) => {
                if world.tracks.contains_key(&id) {
                    Event::Failed(StorageFault::UniqueViolation)
                } else {
                    world.inserts += 1;
                    world.tracks.insert(id.clone(), entries);
                    Event::Inserted
                }
            }
            Action::ReadClock => Event::Time(world.now),
            Action::Append(record) => {
                world.changes.push(record);
                Event::Appended
            }
            Action::Overwrite(entries) => {
                world.overwrites += 1;
                world.tracks.insert(id.clone(), entries);
                Event::Overwritten
            }
        };
        assert!(!session.is_finished());
        let next = session.step(event);
        session = next.0;
        action = next.1;
    }
    panic!("the session did not finish");
}

#[test]
fn get_makes_a_missing_track_once() {
    let scraped = vec![entry(0, 1000, "Hello world"), entry(2000, 3000, "bye")];
    let mut w = world(Some(scraped.clone()));
    let first = perform(&mut w, key("vid", "en"), Operation::Get);
    assert_eq!(first, Outcome::Track(scraped.clone()));
    assert_eq!(w.tracks.len(), 1);
    assert_eq!(w.tracks.get(&("vid".to_string(), "en".to_string())), Some(&scraped));
    assert_eq!((w.scrapes, w.inserts), (1, 1));
    w.scraped = Some(vec![entry(0, 1, "something else")]);
    let second = perform(&mut w, key("vid", "en"), Operation::Get);
    assert_eq!(second, Outcome::Track(scraped));
    assert_eq!(w.tracks.len(), 1);
    assert_eq!((w.scrapes, w.inserts), (1, 1));
    assert!(w.changes.is_empty());
}

#[test]
fn get_keeps_tracks_apart_by_video_and_language() {
    let mut w = world(Some(vec![entry(0, 1, "en")]));
    perform(&mut w, key("vid", "en"), Operation::Get);
    w.scraped = Some(vec![entry(0, 1, "de")]);
    perform(&mut w, key("vid", "de"), Operation::Get);
    assert_eq!(w.tracks.len(), 2);
    assert_eq!(perform(&mut w, key("vid", "en"), Operation::Get), Outcome::Track(vec![entry(0, 1, "en")]));
    assert_eq!(perform(&mut w, key("vid", "de"), Operation::Get), Outcome::Track(vec![entry(0, 1, "de")]));
}

#[test]
fn get_without_track_or_captions_is_not_found() {
    let mut w = world(None);
    assert_eq!(
        perform(&mut w, key("vid", "en"), Operation::Get),
        Outcome::Failed(StoreError::NotFound)
    );
    assert!(w.tracks.is_empty());
    assert_eq!(w.scrapes, 1);
}

#[test]
fn update_twice_records_one_change() {
    let mut w = world(Some(vec![entry(0, 1000, "hi")]));
    let new = vec![entry(0, 1000, "hi"), entry(1000, 2000, "there")];
    assert_eq!(perform(&mut w, key("vid", "en"), update(new.clone(), "alice")), Outcome::Updated);
    assert_eq!(w.changes.len(), 1);
    assert_eq!(
        w.changes[0],
        ChangeRecord {
            timestamp: 1_600_000_000_000,
            author: "alice".to_string(),
            changes: diff(&[entry(0, 1000, "hi")], &new),
        }
    );
    assert_eq!(w.changes[0].changes.len(), 1);
    assert_eq!(w.changes[0].changes[0].index, 1);
    assert_eq!(w.tracks.get(&("vid".to_string(), "en".to_string())), Some(&new));
    assert_eq!(w.overwrites, 1);
    w.now += 5;
    assert_eq!(perform(&mut w, key("vid", "en"), update(new.clone(), "alice")), Outcome::Updated);
    assert_eq!(w.changes.len(), 1);
    assert_eq!(w.overwrites, 1);
    assert_eq!(w.tracks.get(&("vid".to_string(), "en".to_string())), Some(&new));
}

#[test]
fn update_without_a_difference_writes_nothing() {
    let stored = vec![entry(0, 1000, "hi")];
    let mut w = world(None);
    w.tracks.insert(("vid".to_string(), "en".to_string()), stored.clone());
    assert_eq!(perform(&mut w, key("vid", "en"), update(stored.clone(), "bob")), Outcome::Updated);
    assert!(w.changes.is_empty());
    assert_eq!((w.scrapes, w.inserts, w.overwrites), (0, 0, 0));
}

#[test]
fn update_replaces_the_whole_track() {
    let mut w = world(None);
    w.tracks.insert(
        ("vid".to_string(), "en".to_string()),
        vec![entry(0, 1, "a"), entry(1, 2, "b"), entry(2, 3, "c")],
    );
    assert_eq!(perform(&mut w, key("vid", "en"), update(vec![entry(0, 1, "z")], "bob")), Outcome::Updated);
    assert_eq!(w.tracks.get(&("vid".to_string(), "en".to_string())), Some(&vec![entry(0, 1, "z")]));
    assert_eq!(w.changes.len(), 1);
    assert_eq!(w.changes[0].changes.len(), 3);
    assert_eq!(w.changes[0].author, "bob");
}

#[test]
fn update_of_a_missing_track_scrapes_first() {
    let mut w = world(Some(vec![entry(0, 1, "scraped")]));
    assert_eq!(perform(&mut w, key("vid", "en"), update(vec![entry(0, 1, "mine")], "carol")), Outcome::Updated);
    assert_eq!((w.scrapes, w.inserts, w.overwrites), (1, 1, 1));
    assert_eq!(w.changes.len(), 1);
    assert_eq!(
        w.changes[0].changes,
        diff(&[entry(0, 1, "scraped")], &[entry(0, 1, "mine")])
    );
    let mut none = world(None);
    assert_eq!(
        perform(&mut none, key("vid", "en"), update(vec![], "carol")),
        Outcome::Failed(StoreError::NotFound)
    );
    assert!(none.changes.is_empty());
}

#[test]
fn export_returns_the_file_in_chunks() {
    let stored: Vec<Entry> = (0..60).map(|i| entry(i * 1000, i * 1000 + 500, "caption")).collect();
    let mut w = world(None);
    w.tracks.insert(("vid".to_string(), "en".to_string()), stored.clone());
    let outcome = perform(&mut w, key("vid", "en"), Operation::Export { format: Format::Srt });
    let whole = export(&stored, Format::Srt);
    match outcome {
        Outcome::File(parts) => {
            assert!(parts.len() > 1);
            let joined: Vec<u8> = parts.iter().flat_map(|c| c.content.clone()).collect();
            assert_eq!(joined, whole);
            assert!(parts[..parts.len() - 1].iter().all(|c| c.content.len() == 1024));
        }
        other => panic!("unexpected outcome {:?}", other),
    }
}

#[test]
fn insert_conflict_is_answered_by_reading_again() {
    let (session, action) = Session::begin(key("vid", "en"), Operation::Get);
    assert_eq!(action, Action::Lookup);
    let (session, action) = session.step(Event::Found(None));
    assert_eq!(action, Action::Scrape);
    assert_eq!(session.phase, Phase::Scraping);
    let (session, action) = session.step(Event::Scraped(Some(vec![entry(0, 1, "mine")])));
    assert_eq!(action, Action::Insert(vec![entry(0, 1, "mine")]));
    let (session, action) = session.step(Event::Failed(StorageFault::UniqueViolation));
    assert_eq!(action, Action::Lookup);
    assert_eq!(session.phase, Phase::Rereading);
    let (session, action) = session.step(Event::Found(Some(vec![entry(0, 1, "theirs")])));
    assert_eq!(action, Action::Finish(Outcome::Track(vec![entry(0, 1, "theirs")])));
    assert!(session.is_finished());
}

#[test]
fn track_gone_after_insert_is_not_found() {
    let (session, _) = Session::begin(key("vid", "en"), Operation::Get);
    let (session, _) = session.step(Event::Found(None));
    let (session, _) = session.step(Event::Scraped(Some(vec![])));
    let (session, action) = session.step(Event::Inserted);
    assert_eq!(action, Action::Lookup);
    let (_, action) = session.step(Event::Found(None));
    assert_eq!(action, Action::Finish(Outcome::Failed(StoreError::NotFound)));
}

#[test]
fn storage_failures_end_the_session() {
    let (session, _) = Session::begin(key("vid", "en"), Operation::Get);
    let (_, action) = session.step(Event::Failed(StorageFault::Database("locked".to_string())));
    assert_eq!(action, Action::Finish(Outcome::Failed(StoreError::Storage("locked".to_string()))));

    let (session, _) = Session::begin(key("vid", "en"), Operation::Get);
    let (session, _) = session.step(Event::Found(None));
    let (session, _) = session.step(Event::Scraped(Some(vec![])));
    let (_, action) = session.step(Event::Failed(StorageFault::Serialization));
    assert_eq!(action, Action::Finish(Outcome::Failed(StoreError::Internal)));

    let (session, _) = Session::begin(key("vid", "en"), update(vec![entry(0, 1, "a")], "dan"));
    let (session, action) = session.step(Event::Found(Some(vec![])));
    assert_eq!(action, Action::Begin);
    let (session, action) = session.step(Event::Begun);
    assert_eq!(action, Action::ReadClock);
    let (session, action) = session.step(Event::Time(42));
    assert_eq!(
        action,
        Action::Append(ChangeRecord {
            timestamp: 42,
            author: "dan".to_string(),
            changes: diff(&[], &[entry(0, 1, "a")]),
        })
    );
    let (session, action) = session.step(Event::Appended);
    assert_eq!(action, Action::Overwrite(vec![entry(0, 1, "a")]));
    let (session, action) = session.step(Event::Failed(StorageFault::Serialization));
    assert_eq!(action, Action::Rollback);
    assert_eq!(session.phase, Phase::RollingBack(StoreError::InvalidArgument));
    let (_, action) = session.step(Event::RolledBack);
    assert_eq!(action, Action::Finish(Outcome::Failed(StoreError::InvalidArgument)));

    let (session, _) = Session::begin(key("vid", "en"), update(vec![entry(0, 1, "a")], "dan"));
    let (session, _) = session.step(Event::Found(Some(vec![])));
    let (session, _) = session.step(Event::Begun);
    let (session, _) = session.step(Event::Time(42));
    let (session, action) = session.step(Event::Failed(StorageFault::Other));
    assert_eq!(action, Action::Rollback);
    let (_, action) = session.step(Event::RolledBack);
    assert_eq!(
        action,
        Action::Finish(Outcome::Failed(StoreError::Storage("database error".to_string())))
    );

    let (session, _) = Session::begin(key("vid", "en"), update(vec![entry(0, 1, "a")], "dan"));
    let (session, _) = session.step(Event::Found(Some(vec![])));
    let (_, action) = session.step(Event::Failed(StorageFault::Database("busy".to_string())));
    assert_eq!(action, Action::Finish(Outcome::Failed(StoreError::Storage("busy".to_string()))));
}

#[test]
fn event_out_of_turn_ends_the_session() {
    let (session, _) = Session::begin(key("vid", "en"), Operation::Get);
    let (session, action) = session.step(Event::Inserted);
    assert_eq!(action, Action::Finish(Outcome::Failed(StoreError::Internal)));
    assert!(session.is_finished());
    let (_, action) = session.step(Event::Found(Some(vec![])));
    assert_eq!(action, Action::Finish(Outcome::Failed(StoreError::Internal)));
}

#[test]
fn failures_are_classified_by_kind_and_origin() {
    assert_eq!(classify(StorageFault::NotFound, Origin::Store), StoreError::NotFound);
    assert_eq!(classify(StorageFault::UniqueViolation, Origin::Store), StoreError::Conflict);
    assert_eq!(
        classify(StorageFault::Database("disk full".to_string()), Origin::Caller),
        StoreError::Storage("disk full".to_string())
    );
    assert_eq!(classify(StorageFault::Serialization, Origin::Caller), StoreError::InvalidArgument);
    assert_eq!(classify(StorageFault::Serialization, Origin::Store), StoreError::Internal);
    assert_eq!(
        classify(StorageFault::Other, Origin::Store),
        StoreError::Storage("database error".to_string())
    );
}

#[test]
fn errors_reach_the_caller_under_their_status() {
    assert_eq!(
        StoreError::NotFound.into_status(),
        Status { code: Code::NotFound, message: String::new() }
    );
    assert_eq!(
        StoreError::Conflict.into_status(),
        Status { code: Code::AlreadyExists, message: String::new() }
    );
    assert_eq!(
        StoreError::InvalidArgument.into_status(),
        Status { code: Code::InvalidArgument, message: "Can't serialize to JSON".to_string() }
    );
    assert_eq!(
        StoreError::Internal.into_status(),
        Status { code: Code::Internal, message: "Can't serialize to JSON".to_string() }
    );
    assert_eq!(
        StoreError::Storage("locked".to_string()).into_status(),
        Status { code: Code::Aborted, message: "locked".to_string() }
    );
    assert_eq!(
        StoreError::Inconsistent.into_status(),
        Status { code: Code::DataLoss, message: "update left unfinished".to_string() }
    );
}

#[test]
fn requests_begin_their_sessions() {
    let (session, action) = get_subtitles(key("vid", "en"));
    assert_eq!(action, Action::Lookup);
    assert_eq!(
        session,
        Session { key: key("vid", "en"), operation: Operation::Get, phase: Phase::Looking }
    );

    let request = Subtitles {
        entries: vec![entry(0, 1, "a")],
        video_id: "vid".to_string(),
        language: "en".to_string(),
        video_title: "ignored".to_string(),
        uploader_id: String::new(),
        uploader_name: String::new(),
    };
    let (session, action) = set_subtitles(request, "eve".to_string());
    assert_eq!(action, Action::Lookup);
    assert_eq!(
        session,
        Session {
            key: key("vid", "en"),
            operation: update(vec![entry(0, 1, "a")], "eve"),
            phase: Phase::Looking,
        }
    );

    let (session, action) = download_subtitles(DownloadRequest {
        video_id: "vid".to_string(),
        language: "de".to_string(),
        format: 0,
    });
    assert_eq!(action, Action::Lookup);
    assert_eq!(
        session,
        Session {
            key: key("vid", "de"),
            operation: Operation::Export { format: Format::Srt },
            phase: Phase::Looking,
        }
    );
}

#[test]
fn returned_track_carries_its_identity() {
    assert_eq!(
        subtitles_of(key("vid", "en"), vec![entry(0, 1, "a")]),
        Subtitles {
            entries: vec![entry(0, 1, "a")],
            video_id: "vid".to_string(),
            language: "en".to_string(),
            video_title: String::new(),
            uploader_id: String::new(),
            uploader_name: String::new(),
        }
    );
}

fn stored_world() -> World {
    let mut w = world(None);
    w.tracks.insert(("vid".to_string(), "en".to_string()), vec![entry(0, 1000, "old")]);
    w
}

#[test]
fn update_that_fails_at_the_overwrite_leaves_no_record() {
    let mut w = stored_world();
    w.fail_at = vec!["overwrite"];
    assert_eq!(
        perform(&mut w, key("vid", "en"), update(vec![entry(0, 1000, "new")], "alice")),
        Outcome::Failed(StoreError::Storage("overwrite failed".to_string()))
    );
    assert!(w.changes.is_empty());
    assert_eq!(
        w.tracks.get(&("vid".to_string(), "en".to_string())),
        Some(&vec![entry(0, 1000, "old")])
    );
    assert!(w.saved.is_none());
}

#[test]
fn update_that_fails_at_the_record_or_the_commit_changes_nothing() {
    for step in ["begin", "append", "commit"] {
        let mut w = stored_world();
        w.fail_at = vec![step];
        assert_eq!(
            perform(&mut w, key("vid", "en"), update(vec![entry(0, 1000, "new")], "alice")),
            Outcome::Failed(StoreError::Storage(format!("{} failed", step)))
        );
        assert!(w.changes.is_empty());
        assert_eq!(
            w.tracks.get(&("vid".to_string(), "en".to_string())),
            Some(&vec![entry(0, 1000, "old")])
        );
        assert_eq!(w.overwrites, if step == "commit" { 1 } else { 0 });
    }
}

#[test]
fn update_that_cannot_be_undone_is_reported_as_inconsistent() {
    let mut w = stored_world();
    w.fail_at = vec!["overwrite", "rollback"];
    assert_eq!(
        perform(&mut w, key("vid", "en"), update(vec![entry(0, 1000, "new")], "alice")),
        Outcome::Failed(StoreError::Inconsistent)
    );
    assert_eq!(w.changes.len(), 1);
}

#[test]
fn event_out_of_turn_inside_a_transaction_has_it_undone() {
    let (session, _) = Session::begin(key("vid", "en"), update(vec![entry(0, 1, "a")], "dan"));
    let (session, _) = session.step(Event::Found(Some(vec![])));
    let (session, _) = session.step(Event::Begun);
    let (session, action) = session.step(Event::Inserted);
    assert_eq!(action, Action::Rollback);
    assert_eq!(session.phase, Phase::RollingBack(StoreError::Internal));
    let (session, action) = session.step(Event::Found(None));
    assert_eq!(action, Action::Finish(Outcome::Failed(StoreError::Inconsistent)));
    assert!(session.is_finished());
}

#[test]
fn update_is_accepted_after_a_commit() {
    let mut w = stored_world();
    assert_eq!(
        perform(&mut w, key("vid", "en"), update(vec![entry(0, 1000, "new")], "alice")),
        Outcome::Updated
    );
    assert!(w.saved.is_none());
    assert_eq!(w.changes.len(), 1);
}
