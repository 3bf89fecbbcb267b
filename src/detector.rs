//! The track-transition detector: compares the remembered snapshot with a new
//! one and decides whether a listening session has just ended.

use vstd::prelude::*;
use crate::snapshot::{event_for, ListenEvent, PlaybackState, TrackSnapshot};

verus! {

/// The same track, read at second 0 or 1 after having been past second 0:
/// taken as a replay from the start.
pub open spec fn looks_restarted(prev: TrackSnapshot, cur: TrackSnapshot) -> bool {
    prev.elapsed_secs() > 0 && cur.elapsed_secs() <= 1
}

/// The session, if any, that closes when `current` follows `previous`.
pub open spec fn closed_listen(previous: PlaybackState, current: PlaybackState) -> Option<ListenEvent> {
    match (previous, current) {
        (Some(prev), Some(cur)) => {
            if prev.track_id@ != cur.track_id@ {
                Some(event_for(prev, prev.elapsed_secs()))
            } else if looks_restarted(prev, cur) {
                Some(event_for(cur, prev.elapsed_secs()))
            } else {
                None
            }
        },
        _ => None,
    }
}

/// Compares the remembered state with the one just polled. Returns the event
/// for the session that ended, if one did, and the state to remember next,
/// which is always `current`.
pub fn observe(previous: PlaybackState, current: PlaybackState) -> (r: (Option<ListenEvent>, PlaybackState))
    ensures
        r.0 == closed_listen(previous, current),
        r.1 == current,
{
    let event = match (&previous, &current) {
        (Some(prev), Some(cur)) => {
            let listened = prev.elapsed_secs();
            if prev.track_id != cur.track_id {
                Some(ListenEvent::for_snapshot(prev, listened))
            } else if listened > 0 && cur.elapsed_secs() <= 1 {
                Some(ListenEvent::for_snapshot(cur, listened))
            } else {
                None
            }
        },
        _ => None,
    };
    (event, current)
}

/// The remembered state of the polling loop: the last snapshot it saw.
pub struct Detector {
    pub last: PlaybackState,
}

impl Detector {
    /// A detector that has seen nothing yet.
    pub fn new() -> (r: Detector)
        ensures
            r.last is None,
    {
        Detector { last: None }
    }

    /// Feeds one poll result: returns the event for the session that ended,
    /// if one did, and remembers `current` for the next poll.
    pub fn record(&mut self, current: PlaybackState) -> (r: Option<ListenEvent>)
        ensures
            r == closed_listen(old(self).last, current),
            final(self).last == current,
    {
        let previous = self.last.take();
        let (event, next) = observe(previous, current);
        self.last = next;
        event
    }
}

/// Nothing is reported on the first observation, whatever it is.
pub proof fn lemma_first_observation_reports_nothing(current: PlaybackState)
    ensures
        closed_listen(None, current) is None,
{
}

/// Nothing is reported when playback stops being observed, however long the
/// track had played.
pub proof fn lemma_stop_reports_nothing(prev: TrackSnapshot)
    ensures
        closed_listen(Some(prev), None) is None,
{
}

/// A change of track always reports exactly one event: the previous track,
/// listened to for the previous snapshot's whole seconds.
pub proof fn lemma_track_change_reports_previous(prev: TrackSnapshot, cur: TrackSnapshot)
    requires
        prev.track_id@ != cur.track_id@,
    ensures
        closed_listen(Some(prev), Some(cur)) == Some(ListenEvent {
            track_id: prev.track_id,
            track_name: prev.track_name,
            artist_id: prev.artist_id,
            artist_name: prev.artist_name,
            listened_seconds: prev.elapsed_secs(),
        }),
{
}

/// The event for a change of track carries the previous track's identity,
/// names and elapsed seconds, and never the new track's identity.
pub proof fn lemma_track_change_event_is_previous_track(prev: TrackSnapshot, cur: TrackSnapshot)
    requires
        prev.track_id@ != cur.track_id@,
    ensures
        closed_listen(Some(prev), Some(cur)) matches Some(e) && e.track_id@ == prev.track_id@
            && e.track_id@ != cur.track_id@ && e.track_name@ == prev.track_name@
            && e.artist_id@ == prev.artist_id@ && e.artist_name@ == prev.artist_name@
            && e.listened_seconds == prev.elapsed_secs(),
{
}

} // verus!
