//! Turns a "currently playing" response, held as plain values, into the
//! snapshot the detector consumes.

use vstd::prelude::*;
use crate::snapshot::{PlaybackState, TrackSnapshot};

verus! {

/// An artist credited on a track.
pub struct ArtistInfo {
    pub id: String,
    pub name: String,
}

/// The track item of a "currently playing" response.
pub struct PlayingTrack {
    pub id: String,
    pub name: String,
    /// Credited artists, primary artist first.
    pub artists: Vec<ArtistInfo>,
}

/// A "currently playing" response: the item, if one resolved, and the
/// progress into it in milliseconds, if reported.
pub struct NowPlaying {
    pub item: Option<PlayingTrack>,
    pub progress_ms: Option<u64>,
}

/// The snapshot of `track` at `progress_ms`, credited to its primary artist.
pub open spec fn snapshot_of_track(track: PlayingTrack, progress_ms: u64) -> TrackSnapshot
    recommends
        track.artists@.len() > 0,
{
    TrackSnapshot {
        track_id: track.id,
        track_name: track.name,
        artist_id: track.artists@[0].id,
        artist_name: track.artists@[0].name,
        elapsed_ms: progress_ms,
    }
}

/// What a response means for the detector: a snapshot when a track item with
/// at least one artist and a progress is present, otherwise nothing playing.
pub open spec fn playback_of(response: Option<NowPlaying>) -> PlaybackState {
    match response {
        Some(now) => match (now.item, now.progress_ms) {
            (Some(track), Some(ms)) => if track.artists@.len() > 0 {
                Some(snapshot_of_track(track, ms))
            } else {
                None
            },
            _ => None,
        },
        None => None,
    }
}

/// Normalizes a response of the "currently playing" query. No response, no
/// track item, no progress or no credited artist all read as nothing playing.
pub fn playback_from_response(response: Option<NowPlaying>) -> (r: PlaybackState)
    ensures
        r == playback_of(response),
{
    match response {
        Some(now) => match (now.item, now.progress_ms) {
            (Some(track), Some(ms)) => {
                if track.artists.len() > 0 {
                    let primary = &track.artists[0];
                    Some(TrackSnapshot {
                        track_id: track.id,
                        track_name: track.name,
                        artist_id: primary.id.clone(),
                        artist_name: primary.name.clone(),
                        elapsed_ms: ms,
                    })
                } else {
                    None
                }
            },
            _ => None,
        },
        None => None,
    }
}

} // verus!
