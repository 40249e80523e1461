//! Verified core of a real-time telephony media engine: audio frames, codec
//! transcoding, resampling, outbound frame pacing, the processor chain, the
//! provider registry, and the streaming-provider client state machine.

pub mod codecs;
pub mod config;
pub mod deepgram;
pub mod engine;
pub mod errors;
pub mod events;
pub mod frame;
pub mod negotiate;
pub mod pipecat;
pub mod processor;
pub mod resample;
pub mod synthesis;
pub mod text;
pub mod track;
pub mod transcription;
