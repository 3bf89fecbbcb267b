//! Playback snapshots and the listening events built from them.

use vstd::prelude::*;
use vstd::string::StringExecFns;

verus! {

/// Milliseconds in one second.
pub const MILLIS_PER_SEC: u64 = 1000;

/// One observation of a track that is actively playing.
pub struct TrackSnapshot {
    pub track_id: String,
    pub track_name: String,
    /// Identifier of the primary (first-listed) artist.
    pub artist_id: String,
    /// Display name of the primary artist.
    pub artist_name: String,
    /// Position into the track at poll time, in milliseconds.
    pub elapsed_ms: u64,
}

/// What one poll saw: a playing track, or nothing.
pub type PlaybackState = Option<TrackSnapshot>;

/// A completed listening session, ready to be reported.
pub struct ListenEvent {
    pub track_id: String,
    pub track_name: String,
    pub artist_id: String,
    pub artist_name: String,
    /// Whole seconds the track was listened to.
    pub listened_seconds: u64,
}

impl TrackSnapshot {
    /// Whole seconds into the track.
    pub open spec fn elapsed_secs_spec(&self) -> u64 {
        self.elapsed_ms / MILLIS_PER_SEC
    }

    /// Whole seconds into the track.
    #[verifier::when_used_as_spec(elapsed_secs_spec)]
    pub fn elapsed_secs(&self) -> (r: u64)
        ensures
            r == self.elapsed_secs_spec(),
    {
        self.elapsed_ms / MILLIS_PER_SEC
    }
}

/// The event that reports `snap`'s track and artist as listened to for `secs` seconds.
pub open spec fn event_for(snap: TrackSnapshot, secs: u64) -> ListenEvent {
    ListenEvent {
        track_id: snap.track_id,
        track_name: snap.track_name,
        artist_id: snap.artist_id,
        artist_name: snap.artist_name,
        listened_seconds: secs,
    }
}

impl ListenEvent {
    /// Builds the event for `snap`'s track and artist, listened to for `secs` seconds.
    pub fn for_snapshot(snap: &TrackSnapshot, secs: u64) -> (r: ListenEvent)
        ensures
            r == event_for(*snap, secs),
    {
        ListenEvent {
            track_id: snap.track_id.clone(),
            track_name: snap.track_name.clone(),
            artist_id: snap.artist_id.clone(),
            artist_name: snap.artist_name.clone(),
            listened_seconds: secs,
        }
    }
}

/// The character of decimal digit `d`.
pub open spec fn digit_char(d: nat) -> char
    recommends
        d < 10,
{
    (('0' as u8) + (d as u8)) as char
}

/// The decimal representation of `n`, without leading zeros.
pub open spec fn decimal(n: nat) -> Seq<char>
    decreases n,
{
    if n < 10 {
        seq![digit_char(n)]
    } else {
        decimal(n / 10) + seq![digit_char(n % 10)]
    }
}

/// The digit string of `d`.
fn digit_str(d: u64) -> (r: &'static str)
    requires
        d < 10,
    ensures
        r@ == seq![digit_char(d as nat)],
{
    proof {
        reveal_strlit("0");
        reveal_strlit("1");
        reveal_strlit("2");
        reveal_strlit("3");
        reveal_strlit("4");
        reveal_strlit("5");
        reveal_strlit("6");
        reveal_strlit("7");
        reveal_strlit("8");
        reveal_strlit("9");
    }
    match d {
        0 => "0",
        1 => "1",
        2 => "2",
        3 => "3",
        4 => "4",
        5 => "5",
        6 => "6",
        7 => "7",
        8 => "8",
        _ => "9",
    }
}

/// Appends the decimal representation of `n` to `out`.
fn push_decimal(out: &mut String, n: u64)
    ensures
        final(out)@ == old(out)@ + decimal(n as nat),
    decreases n,
{
    if n < 10 {
        out.append(digit_str(n));
    } else {
        push_decimal(out, n / 10);
        out.append(digit_str(n % 10));
    }
}

/// The console line for a reported listen.
pub open spec fn track_info_line(event: ListenEvent) -> Seq<char> {
    event.track_name@ + " by "@ + event.artist_name@ + " - listened for "@
        + decimal(event.listened_seconds as nat)
}

/// Formats `event` as "<track name> by <artist name> - listened for <seconds>".
pub fn fmt_track_info(event: &ListenEvent) -> (r: String)
    ensures
        r@ == track_info_line(*event),
{
    let mut line = event.track_name.clone();
    line.append(" by ");
    line.append(event.artist_name.as_str());
    line.append(" - listened for ");
    push_decimal(&mut line, event.listened_seconds);
    line
}

} // verus!
