//! The shared value types flowing through the pipeline: codecs, payloads,
//! audio frames, and per-track configuration.

use vstd::prelude::*;

verus! {

/// One 16-bit signed PCM sample.
pub type Sample = i16;

/// A track identifier.
pub type TrackId = String;

/// The audio codecs this engine negotiates and transcodes.
#[derive(Debug, Clone, Copy, PartialEq, Eq, Structural)]
pub enum CodecType {
    PCMU,
    PCMA,
    G722,
    Opus,
    G729,
    TelephoneEvent,
    Unknown,
}

impl CodecType {
    /// The RTP clock rate this engine runs the codec at.
    pub fn clock_rate(&self) -> (r: u32)
        ensures
            r == self.clock_rate_spec(),
    {
        match self {
            CodecType::PCMU => 16000,
            CodecType::PCMA => 16000,
            CodecType::G722 => 8000,
            CodecType::Opus => 48000,
            CodecType::G729 => 8000,
            CodecType::TelephoneEvent => 8000,
            CodecType::Unknown => 8000,
        }
    }

    /// What `clock_rate` returns.
    pub open spec fn clock_rate_spec(&self) -> u32 {
        match self {
            CodecType::PCMU => 16000u32,
            CodecType::PCMA => 16000u32,
            CodecType::G722 => 8000u32,
            CodecType::Opus => 48000u32,
            CodecType::G729 => 8000u32,
            CodecType::TelephoneEvent => 8000u32,
            CodecType::Unknown => 8000u32,
        }
    }

    /// The session-description MIME type of the codec.
    pub fn mime_type(&self) -> (r: &'static str)
        ensures
            r@ == self.mime_type_spec(),
    {
        match self {
            CodecType::PCMU => "audio/PCMU",
            CodecType::PCMA => "audio/PCMA",
            CodecType::G722 => "audio/G722",
            CodecType::Opus => "audio/opus",
            CodecType::G729 => "audio/G729",
            CodecType::TelephoneEvent => "audio/telephone-event",
            CodecType::Unknown => "audio/unknown",
        }
    }

    /// What `mime_type` returns.
    pub open spec fn mime_type_spec(&self) -> Seq<char> {
        match self {
            CodecType::PCMU => "audio/PCMU"@,
            CodecType::PCMA => "audio/PCMA"@,
            CodecType::G722 => "audio/G722"@,
            CodecType::Opus => "audio/opus"@,
            CodecType::G729 => "audio/G729"@,
            CodecType::TelephoneEvent => "audio/telephone-event"@,
            CodecType::Unknown => "audio/unknown"@,
        }
    }

    /// The static RTP payload type the engine uses for the codec.
    pub fn payload_type(&self) -> (r: u8)
        ensures
            r == self.payload_type_spec(),
    {
        match self {
            CodecType::PCMU => 0,
            CodecType::PCMA => 8,
            CodecType::G722 => 9,
            CodecType::Opus => 111,
            CodecType::G729 => 18,
            CodecType::TelephoneEvent => 101,
            CodecType::Unknown => 255,
        }
    }

    /// What `payload_type` returns.
    pub open spec fn payload_type_spec(&self) -> u8 {
        match self {
            CodecType::PCMU => 0u8,
            CodecType::PCMA => 8u8,
            CodecType::G722 => 9u8,
            CodecType::Opus => 111u8,
            CodecType::G729 => 18u8,
            CodecType::TelephoneEvent => 101u8,
            CodecType::Unknown => 255u8,
        }
    }
}

/// The payload carried by one audio frame: raw PCM, an encoded RTP packet,
/// or nothing.
#[derive(Debug, Clone)]
pub enum Samples {
    PCM { samples: Vec<Sample> },
    RTP { payload_type: u8, payload: Vec<u8>, sequence_number: u16 },
    Empty,
}

/// The unit of pipeline data.
#[derive(Debug, Clone)]
pub struct AudioFrame {
    pub track_id: TrackId,
    pub samples: Samples,
    /// Monotonic timestamp in milliseconds.
    pub timestamp: u64,
    /// Sample rate of a PCM payload, in Hz.
    pub sample_rate: u32,
    /// Speaking flag set by a voice-activity detector; `None` when no
    /// detector ran on this frame.
    pub vad_speaking: Option<bool>,
}

impl AudioFrame {
    /// A frame with PCM samples must carry a usable sample rate.
    pub open spec fn wf(&self) -> bool {
        self.samples matches Samples::PCM { .. } ==> self.sample_rate > 0
    }

    /// Build a PCM frame.
    pub fn pcm(track_id: TrackId, samples: Vec<Sample>, sample_rate: u32, timestamp: u64) -> (r:
        AudioFrame)
        requires
            sample_rate > 0,
        ensures
            r.wf(),
            r.track_id == track_id,
            r.samples matches Samples::PCM { samples: s } && s == samples,
            r.sample_rate == sample_rate,
            r.timestamp == timestamp,
            r.vad_speaking is None,
    {
        AudioFrame {
            track_id,
            samples: Samples::PCM { samples },
            timestamp,
            sample_rate,
            vad_speaking: None,
        }
    }
}

/// Static per-track parameters, immutable after track construction.
#[derive(Debug, Clone)]
pub struct TrackConfig {
    /// Sample rate of PCM audio handed to the track's processor chain.
    pub samplerate: u32,
    /// The negotiated codec for the track's transport.
    pub codec: CodecType,
    /// Stream identifier announced to the peer.
    pub stream_id: String,
}

impl TrackConfig {
    /// The default track runs at 16 kHz over PCMU.
    pub fn new_default() -> (r: TrackConfig)
        ensures
            r.samplerate == 16000,
            r.codec == CodecType::PCMU,
            r.stream_id@ == "rustpbx-track"@,
    {
        TrackConfig { samplerate: 16000, codec: CodecType::PCMU, stream_id: "rustpbx-track".to_owned() }
    }
}

impl Default for TrackConfig {
    fn default() -> (r: Self)
        ensures
            r.samplerate == 16000,
            r.codec == CodecType::PCMU,
            r.stream_id@ == "rustpbx-track"@,
    {
        TrackConfig::new_default()
    }
}

} // verus!
