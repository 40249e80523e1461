//! Session events: the typed, lossy-tolerant broadcast connecting the
//! pipeline to the rest of the system. A missed event never corrupts
//! pipeline state, only observability.

use vstd::prelude::*;
use crate::frame::TrackId;

verus! {

/// One event on the session bus.
#[derive(Debug, Clone)]
pub enum SessionEvent {
    /// A partial transcript for a track.
    AsrDelta {
        track_id: TrackId,
        index: u32,
        text: String,
        timestamp: u64,
        start_time: Option<u64>,
        end_time: Option<u64>,
    },
    /// A final transcript for a track.
    AsrFinal {
        track_id: TrackId,
        index: u32,
        text: String,
        timestamp: u64,
        start_time: Option<u64>,
        end_time: Option<u64>,
    },
    /// The call was answered.
    Answer { track_id: TrackId, timestamp: u64 },
    /// An error, with its origin and an optional code.
    Error { track_id: TrackId, timestamp: u64, sender: String, error: String, code: Option<u32> },
    /// A named measurement, with the span it measures in milliseconds and a
    /// structured payload rendered as text.
    Metrics { timestamp: u64, key: String, data: String, duration: u32 },
    /// A track finished, with its play-out duration.
    TrackEnd { track_id: TrackId, timestamp: u64, duration: u64, ssrc: u32, play_id: Option<String> },
    /// Synthesized audio arriving from the AI bridge for play-out.
    PipecatAudio { track_id: TrackId, audio_samples: Vec<i16>, sample_rate: u32, timestamp: u64 },
}

/// Whether an event announces that the call was answered.
pub fn is_answer_event(event: &SessionEvent) -> (r: bool)
    ensures
        r == (event matches SessionEvent::Answer { .. }),
{
    match event {
        SessionEvent::Answer { .. } => true,
        _ => false,
    }
}

/// The event a track emits when it ends: stamped now, carrying how long the
/// track ran.
pub fn track_end_event(track_id: TrackId, ssrc: u32, start_time: u64, now: u64) -> (r:
    SessionEvent)
    requires
        now >= start_time,
    ensures
        r matches SessionEvent::TrackEnd { track_id: t, timestamp, duration, ssrc: s, play_id }
            && t == track_id && timestamp == now && duration == now - start_time && s == ssrc
            && play_id is None,
{
    SessionEvent::TrackEnd {
        track_id,
        timestamp: now,
        duration: now - start_time,
        ssrc,
        play_id: None,
    }
}

} // verus!
