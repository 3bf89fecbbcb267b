use listen_tracker::detector::{observe, Detector};
use listen_tracker::snapshot::{ListenEvent, PlaybackState, TrackSnapshot};

fn snap(id: &str, secs: u64) -> TrackSnapshot {
    TrackSnapshot {
        track_id: id.to_string(),
        track_name: format!("{} name", id),
        artist_id: format!("{} artist", id),
        artist_name: format!("{} artist name", id),
        elapsed_ms: secs * 1000,
    }
}

fn same(a: &PlaybackState, b: &PlaybackState) -> bool {
    match (a, b) {
        (None, None) => true,
        (Some(x), Some(y)) => {
            x.track_id == y.track_id
                && x.track_name == y.track_name
                && x.artist_id == y.artist_id
                && x.artist_name == y.artist_name
                && x.elapsed_ms == y.elapsed_ms
        }
        _ => false,
    }
}

fn assert_event_of(e: &ListenEvent, s: &TrackSnapshot, secs: u64) {
    assert_eq!(e.track_id, s.track_id);
    assert_eq!(e.track_name, s.track_name);
    assert_eq!(e.artist_id, s.artist_id);
    assert_eq!(e.artist_name, s.artist_name);
    assert_eq!(e.listened_seconds, secs);
}

#[test]
fn first_observation_reports_nothing() {
    let (e, next) = observe(None, Some(snap("A", 42)));
    assert!(e.is_none());
    assert!(same(&next, &Some(snap("A", 42))));
    let (e, next) = observe(None, None);
    assert!(e.is_none());
    assert!(next.is_none());
}

#[test]
fn stop_reports_nothing() {
    for secs in [0u64, 1, 30, 500] {
        let (e, next) = observe(Some(snap("A", secs)), None);
        assert!(e.is_none());
        assert!(next.is_none());
    }
}

#[test]
fn track_change_reports_previous_track() {
    let prev = snap("A", 95);
    let (e, next) = observe(Some(snap("A", 95)), Some(snap("B", 3)));
    let e = e.expect("a change of track reports");
    assert_event_of(&e, &prev, 95);
    assert_ne!(e.track_id, "B");
    assert!(same(&next, &Some(snap("B", 3))));
}

#[test]
fn track_change_reports_whole_seconds() {
    let mut prev = snap("A", 0);
    prev.elapsed_ms = 61_999;
    let cur = snap("B", 0);
    let (e, _) = observe(Some(prev), Some(cur));
    assert_eq!(e.expect("reported").listened_seconds, 61);
}

#[test]
fn track_change_from_zero_seconds_still_reports() {
    let (e, _) = observe(Some(snap("A", 0)), Some(snap("B", 0)));
    assert_eq!(e.expect("reported").listened_seconds, 0);
}

#[test]
fn restart_at_one_second_reports() {
    let (e, next) = observe(Some(snap("A", 180)), Some(snap("A", 1)));
    let e = e.expect("a restart reports");
    assert_event_of(&e, &snap("A", 1), 180);
    assert!(same(&next, &Some(snap("A", 1))));
}

#[test]
fn restart_at_zero_seconds_reports() {
    let (e, _) = observe(Some(snap("A", 180)), Some(snap("A", 0)));
    assert_eq!(e.expect("a restart reports").listened_seconds, 180);
}

#[test]
fn restart_at_two_seconds_is_missed() {
    let (e, next) = observe(Some(snap("A", 180)), Some(snap("A", 2)));
    assert!(e.is_none());
    assert!(same(&next, &Some(snap("A", 2))));
}

#[test]
fn restart_needs_previous_progress() {
    let (e, _) = observe(Some(snap("A", 0)), Some(snap("A", 0)));
    assert!(e.is_none());
    let mut prev = snap("A", 0);
    prev.elapsed_ms = 999;
    let (e, _) = observe(Some(prev), Some(snap("A", 0)));
    assert!(e.is_none());
}

#[test]
fn normal_progression_reports_nothing() {
    let (e, next) = observe(Some(snap("A", 10)), Some(snap("A", 11)));
    assert!(e.is_none());
    assert!(same(&next, &Some(snap("A", 11))));
}

#[test]
fn end_to_end_poll_sequence() {
    let polls: Vec<PlaybackState> = vec![None, Some(snap("A", 0)), Some(snap("A", 30)), Some(snap("B", 0))];
    let mut detector = Detector::new();
    let mut events = Vec::new();
    for p in polls {
        events.push(detector.record(p));
    }
    assert!(events[0].is_none());
    assert!(events[1].is_none());
    assert!(events[2].is_none());
    let e = events[3].as_ref().expect("reported at the fourth poll");
    assert_event_of(e, &snap("A", 30), 30);
    assert!(same(&detector.last, &Some(snap("B", 0))));
}

#[test]
fn detector_starts_empty_and_threads_state() {
    let mut detector = Detector::new();
    assert!(detector.last.is_none());
    assert!(detector.record(Some(snap("A", 5))).is_none());
    assert!(same(&detector.last, &Some(snap("A", 5))));
    assert!(detector.record(None).is_none());
    assert!(detector.last.is_none());
}
