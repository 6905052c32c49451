use std::sync::Arc;

use bytes::Bytes;
use live_store::delivery::{next_step, FeedEvent, FeedStep, StoreError};
use live_store::namespace::{chars_of, is_list_verb, strip_wildcards, AppState};
use live_store::record::{IndividualVideo, DEFAULT_CONTENT_TYPE, FEED_CAPACITY};
use tokio::sync::broadcast::error::TryRecvError;

fn chunk(s: &str) -> Bytes {
    Bytes::from(s.as_bytes().to_vec())
}

fn ingest(ns: &mut AppState, path: &str, content_type: Option<&str>, chunks: &[&str]) {
    let h = ns.receive_resource(path.to_string(), content_type.map(|c| c.to_string()));
    let mut rec = h.write().unwrap();
    for c in chunks {
        rec.append(chunk(c));
    }
    rec.finalize();
}

#[test]
fn finished_resource_is_delivered_in_order() {
    let mut ns = AppState::new();
    ingest(&mut ns, "a/b", None, &["x", "y"]);
    let h = ns.get_resource(&"a/b".to_string()).unwrap();
    let cap = h.read().unwrap().capture_and_subscribe();
    assert_eq!(cap.snapshot, vec![chunk("x"), chunk("y")]);
    assert!(cap.live.is_none());
}

#[test]
fn missing_path_is_not_found() {
    let ns = AppState::new();
    let r = ns.get_resource(&"missing/path".to_string());
    assert_eq!(r.err(), Some(StoreError::NotFound));
    assert_eq!(StoreError::NotFound.status_code(), 404);
}

#[test]
fn listing_a_prefix_returns_both_entries() {
    let mut ns = AppState::new();
    ingest(&mut ns, "a/b", Some("video/mp4"), &["1"]);
    ingest(&mut ns, "a/c", None, &["2"]);
    ingest(&mut ns, "z/d", None, &["3"]);
    let mut found: Vec<(String, String, bool)> = ns
        .get_list("LIST", "a/*")
        .unwrap()
        .into_iter()
        .map(|(name, h)| {
            let rec = h.read().unwrap();
            (name, rec.content_type().clone(), rec.is_streaming())
        })
        .collect();
    found.sort();
    assert_eq!(
        found,
        vec![
            ("a/b".to_string(), "video/mp4".to_string(), false),
            ("a/c".to_string(), "octet-stream".to_string(), false),
        ]
    );
}

#[test]
fn listing_an_empty_prefix_is_not_found() {
    let mut ns = AppState::new();
    ingest(&mut ns, "a/b", None, &["1"]);
    assert_eq!(ns.get_list("LIST", "q/*").err(), Some(StoreError::NotFound));
    assert_eq!(ns.get_list("LIST", "a/bc").err(), Some(StoreError::NotFound));
}

#[test]
fn listing_with_another_verb_is_not_allowed() {
    let mut ns = AppState::new();
    ingest(&mut ns, "a/b", None, &["1"]);
    assert_eq!(ns.get_list("PUT", "a/*").err(), Some(StoreError::MethodNotAllowed));
    assert_eq!(StoreError::MethodNotAllowed.status_code(), 405);
}

#[test]
fn late_reader_gets_snapshot_then_live_chunks_once() {
    let mut ns = AppState::new();
    let h = ns.receive_resource("v".to_string(), None);
    h.write().unwrap().append(chunk("c1"));
    let cap = h.read().unwrap().capture_and_subscribe();
    assert_eq!(cap.snapshot, vec![chunk("c1")]);
    let mut rx = cap.live.unwrap();
    h.write().unwrap().append(chunk("c2"));
    h.write().unwrap().append(chunk("c3"));
    assert_eq!(rx.try_recv().unwrap(), chunk("c2"));
    assert_eq!(rx.try_recv().unwrap(), chunk("c3"));
    assert!(matches!(rx.try_recv(), Err(TryRecvError::Empty)));
}

#[test]
fn every_reader_sees_append_order() {
    let mut ns = AppState::new();
    let h = ns.receive_resource("v".to_string(), None);
    let mut first = h.read().unwrap().capture_and_subscribe().live.unwrap();
    h.write().unwrap().append(chunk("1"));
    let mut second = h.read().unwrap().capture_and_subscribe();
    for c in ["2", "3", "4"] {
        h.write().unwrap().append(chunk(c));
    }
    let mut got_first = Vec::new();
    while let Ok(c) = first.try_recv() {
        got_first.push(c);
    }
    let mut got_second = second.snapshot.clone();
    let rx = second.live.as_mut().unwrap();
    while let Ok(c) = rx.try_recv() {
        got_second.push(c);
    }
    let all = vec![chunk("1"), chunk("2"), chunk("3"), chunk("4")];
    assert_eq!(got_first, all);
    assert_eq!(got_second, all);
}

#[test]
fn finalize_closes_live_readers_after_their_chunks() {
    let mut ns = AppState::new();
    let h = ns.receive_resource("v".to_string(), None);
    let mut rx = h.read().unwrap().capture_and_subscribe().live.unwrap();
    h.write().unwrap().append(chunk("a"));
    h.write().unwrap().append(chunk("b"));
    h.write().unwrap().finalize();
    assert!(!h.read().unwrap().is_streaming());
    assert_eq!(rx.try_recv().unwrap(), chunk("a"));
    assert_eq!(rx.try_recv().unwrap(), chunk("b"));
    assert!(matches!(rx.try_recv(), Err(TryRecvError::Closed)));
    assert!(matches!(next_step(FeedEvent::Closed), FeedStep::Finish));
}

#[test]
fn overwrite_replaces_for_new_lookups_only() {
    let mut ns = AppState::new();
    let first = ns.receive_resource("p".to_string(), Some("text/plain".to_string()));
    first.write().unwrap().append(chunk("old"));
    first.write().unwrap().finalize();
    let second = ns.receive_resource("p".to_string(), None);
    second.write().unwrap().append(chunk("new"));
    let found = ns.lookup(&"p".to_string()).unwrap();
    assert!(Arc::ptr_eq(&found, &second));
    assert!(!Arc::ptr_eq(&found, &first));
    let old = first.read().unwrap().capture_and_subscribe();
    assert_eq!(old.snapshot, vec![chunk("old")]);
    assert_eq!(first.read().unwrap().content_type(), "text/plain");
    let new = found.read().unwrap().capture_and_subscribe();
    assert_eq!(new.snapshot, vec![chunk("new")]);
}

#[test]
fn delete_mid_delivery_keeps_the_delivery_going() {
    let mut ns = AppState::new();
    let h = ns.receive_resource("d".to_string(), None);
    h.write().unwrap().append(chunk("1"));
    let reader = ns.get_resource(&"d".to_string()).unwrap();
    let cap = reader.read().unwrap().capture_and_subscribe();
    let mut rx = cap.live.unwrap();
    assert_eq!(ns.delete_resource(&"d".to_string()), Ok(()));
    assert!(ns.lookup(&"d".to_string()).is_none());
    h.write().unwrap().append(chunk("2"));
    h.write().unwrap().finalize();
    assert_eq!(cap.snapshot, vec![chunk("1")]);
    assert_eq!(rx.try_recv().unwrap(), chunk("2"));
    assert!(matches!(rx.try_recv(), Err(TryRecvError::Closed)));
}

#[test]
fn deleting_an_absent_path_is_not_found() {
    let mut ns = AppState::new();
    assert_eq!(ns.delete_resource(&"nothing".to_string()), Err(StoreError::NotFound));
    ingest(&mut ns, "x", None, &[]);
    assert_eq!(ns.delete_resource(&"x".to_string()), Ok(()));
    assert_eq!(ns.delete_resource(&"x".to_string()), Err(StoreError::NotFound));
}

#[test]
fn reader_that_falls_behind_is_told_it_lagged() {
    let mut ns = AppState::new();
    let h = ns.receive_resource("big".to_string(), None);
    let mut rx = h.read().unwrap().capture_and_subscribe().live.unwrap();
    for _ in 0..(FEED_CAPACITY * 2) {
        h.write().unwrap().append(chunk("z"));
    }
    assert_eq!(h.read().unwrap().chunk_count(), FEED_CAPACITY * 2);
    match rx.try_recv() {
        Err(TryRecvError::Lagged(n)) => {
            assert!(n > 0);
            assert!(matches!(
                next_step(FeedEvent::Lagged(n)),
                FeedStep::Fail(StoreError::Lagged)
            ));
        }
        other => panic!("expected a lag, got {:?}", other),
    }
}

#[test]
fn chunks_appended_with_nobody_listening_are_kept() {
    let mut ns = AppState::new();
    let h = ns.receive_resource("q".to_string(), None);
    h.write().unwrap().append(chunk("early"));
    let cap = h.read().unwrap().capture_and_subscribe();
    assert_eq!(cap.snapshot, vec![chunk("early")]);
    let mut rx = cap.live.unwrap();
    h.write().unwrap().append(chunk("late"));
    assert_eq!(rx.try_recv().unwrap(), chunk("late"));
}

#[test]
fn new_record_defaults_its_content_type() {
    let rec = IndividualVideo::new(None);
    assert_eq!(rec.content_type(), DEFAULT_CONTENT_TYPE);
    assert_eq!(rec.content_type(), "octet-stream");
    assert!(rec.is_streaming());
    assert_eq!(rec.chunk_count(), 0);
    let typed = IndividualVideo::new(Some("video/webm".to_string()));
    assert_eq!(typed.content_type(), "video/webm");
}

#[test]
fn feed_events_map_to_steps() {
    match next_step(FeedEvent::Chunk(chunk("k"))) {
        FeedStep::Emit(c) => assert_eq!(c, chunk("k")),
        _ => panic!("a chunk must be emitted"),
    }
    assert!(matches!(next_step(FeedEvent::Lagged(3)), FeedStep::Fail(StoreError::Lagged)));
    assert!(matches!(next_step(FeedEvent::Closed), FeedStep::Finish));
    assert_eq!(StoreError::Lagged.status_code(), 500);
}

#[test]
fn wildcards_are_stripped_from_the_end_only() {
    assert_eq!(strip_wildcards("a/*"), vec!['a', '/']);
    assert_eq!(strip_wildcards("a/**"), vec!['a', '/']);
    assert_eq!(strip_wildcards("*a"), vec!['*', 'a']);
    assert_eq!(strip_wildcards("***"), Vec::<char>::new());
    assert_eq!(strip_wildcards(""), Vec::<char>::new());
    assert_eq!(chars_of("é/x"), vec!['é', '/', 'x']);
}

#[test]
fn only_the_list_verb_lists() {
    assert!(is_list_verb("LIST"));
    assert!(!is_list_verb("list"));
    assert!(!is_list_verb("LISTS"));
    assert!(!is_list_verb("GET"));
    assert!(!is_list_verb(""));
}

#[test]
fn subtree_lookup_finds_exactly_the_prefixed_paths() {
    let mut ns = AppState::new();
    for p in ["a/b", "a/c/d", "ab", "b/a"] {
        ingest(&mut ns, p, None, &["."]);
    }
    let mut names: Vec<String> = ns.lookup_subtree("a/*").into_iter().map(|(n, _)| n).collect();
    names.sort();
    assert_eq!(names, vec!["a/b".to_string(), "a/c/d".to_string()]);
    let mut all: Vec<String> = ns.lookup_subtree("*").into_iter().map(|(n, _)| n).collect();
    all.sort();
    assert_eq!(all.len(), 4);
    assert!(ns.lookup_subtree("c").is_empty());
}

#[test]
fn upload_starts_a_live_empty_typed_record() {
    let mut ns = AppState::new();
    let typed = ns.receive_resource("t".to_string(), Some("audio/ogg".to_string()));
    let plain = ns.receive_resource("u".to_string(), None);
    for (h, ct) in [(&typed, "audio/ogg"), (&plain, "octet-stream")] {
        let rec = h.read().unwrap();
        assert!(rec.is_streaming());
        assert_eq!(rec.chunk_count(), 0);
        assert_eq!(rec.content_type(), ct);
        let cap = rec.capture_and_subscribe();
        assert!(cap.snapshot.is_empty());
        assert!(cap.live.is_some());
    }
}
